//! `FilterMap` keeps the items a function maps to `Some`; `FindMap` answers the first.

use vstd::prelude::*;
use crate::poll::{Poll, Step, SizeHint};

verus! {

/// The step `FilterMap` takes on the underlying answer `polled`, given the
/// function's result `mapped` on the item it carries.
pub open spec fn filter_map_step<T, U>(polled: Poll<Option<T>>, mapped: Option<U>) -> Step<Option<U>> {
    match polled {
        Poll::Pending => Step::Finish(Poll::Pending),
        Poll::Ready(None) => Step::Finish(Poll::Ready(None)),
        Poll::Ready(Some(_)) => match mapped {
            Some(y) => Step::Finish(Poll::Ready(Some(y))),
            None => Step::PollIter,
        },
    }
}

/// The mapped value a step of `FilterMap` carries, if any.
pub open spec fn step_mapped<U>(step: Step<Option<U>>) -> Option<U> {
    match step {
        Step::Finish(Poll::Ready(Some(y))) => Some(y),
        _ => None,
    }
}

/// Yields `f(x)` for the items `x` of `iter` that `f` maps to `Some`.
#[derive(Clone)]
pub struct FilterMap<I, F> {
    iter: I,
    f: F,
}

impl<I, F> FilterMap<I, F> {
    pub closed spec fn iter(&self) -> I {
        self.iter
    }

    pub closed spec fn func(&self) -> F {
        self.f
    }

    pub fn new(iter: I, f: F) -> (r: Self)
        ensures
            r.iter() == iter,
            r.func() == f,
    {
        FilterMap { iter, f }
    }

    /// The underlying async iterator, for the driver to poll.
    pub fn iter_mut(&mut self) -> (r: &mut I)
        ensures
            *r == old(self).iter(),
            final(self).iter() == *final(r),
            final(self).func() == old(self).func(),
    {
        &mut self.iter
    }

    /// The underlying async iterator, for the driver to read.
    pub fn iter_ref(&self) -> (r: &I)
        ensures
            *r == self.iter(),
    {
        &self.iter
    }

    /// The step to take after the underlying iterator answered `polled`.
    pub fn on_iter<T, U>(&mut self, polled: Poll<Option<T>>) -> (r: Step<Option<U>>) where
        F: FnMut(T) -> Option<U>,

        requires
            polled matches Poll::Ready(Some(x)) ==> call_requires(old(self).func(), (x,)),
        ensures
            *final(self) == *old(self),
            match polled {
                Poll::Ready(Some(x)) => call_ensures(old(self).func(), (x,), step_mapped(r)) && r
                    == filter_map_step(polled, step_mapped(r)),
                _ => r == filter_map_step(polled, None::<U>),
            },
    {
        match polled {
            Poll::Pending => Step::Finish(Poll::Pending),
            Poll::Ready(None) => Step::Finish(Poll::Ready(None)),
            Poll::Ready(Some(item)) => match (self.f)(item) {
                Some(mapped) => Step::Finish(Poll::Ready(Some(mapped))),
                None => Step::PollIter,
            },
        }
    }

    /// At most as many items as the underlying iterator may still yield.
    pub fn size_hint(&self, iter_hint: SizeHint) -> (r: SizeHint)
        ensures
            r == crate::poll::at_most_hint(iter_hint, false),
            r == (0usize, iter_hint.1),
    {
        (0, iter_hint.1)
    }
}

/// A future of the first `Some` that `f` maps an item of `iter` to.
#[derive(Clone)]
pub struct FindMap<I, F> {
    inner: FilterMap<I, F>,
}

impl<I, F> FindMap<I, F> {
    pub closed spec fn filter_map(&self) -> FilterMap<I, F> {
        self.inner
    }

    pub fn new(iter: I, f: F) -> (r: Self)
        ensures
            r.filter_map().iter() == iter,
            r.filter_map().func() == f,
    {
        FindMap { inner: FilterMap::new(iter, f) }
    }

    /// The underlying async iterator, for the driver to poll.
    pub fn iter_mut(&mut self) -> (r: &mut I)
        ensures
            *r == old(self).filter_map().iter(),
            final(self).filter_map().iter() == *final(r),
            final(self).filter_map().func() == old(self).filter_map().func(),
    {
        self.inner.iter_mut()
    }

    /// The step to take after the underlying iterator answered `polled`;
    /// a finished step carries the future's output.
    pub fn on_iter<T, U>(&mut self, polled: Poll<Option<T>>) -> (r: Step<Option<U>>) where
        F: FnMut(T) -> Option<U>,

        requires
            polled matches Poll::Ready(Some(x)) ==> call_requires(
                old(self).filter_map().func(),
                (x,),
            ),
        ensures
            *final(self) == *old(self),
            match polled {
                Poll::Ready(Some(x)) => call_ensures(
                    old(self).filter_map().func(),
                    (x,),
                    step_mapped(r),
                ) && r == filter_map_step(polled, step_mapped(r)),
                _ => r == filter_map_step(polled, None::<U>),
            },
    {
        self.inner.on_iter(polled)
    }
}

} // verus!
