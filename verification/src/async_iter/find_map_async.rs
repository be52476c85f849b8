//! `FindMapAsync`: the first `Some` an asynchronous function resolves to.

use vstd::prelude::*;
use crate::poll::{Poll, Step};
use crate::async_iter::filter_map_async::{FilterMapAsync, filter_map_async_on_held};
use crate::async_iter::map_async::held_on_iter;

verus! {

/// A future of the first `Some(y)` that `f(x)` resolves to over the items
/// `x` of `iter`, or `None` when `iter` ends first.
#[derive(Clone)]
pub struct FindMapAsync<I, F, Fut> {
    inner: FilterMapAsync<I, F, Fut>,
}

impl<I, F, Fut> FindMapAsync<I, F, Fut> {
    pub closed spec fn iter(&self) -> I {
        self.inner.iter()
    }

    /// The future in flight, if any.
    pub closed spec fn held(&self) -> Option<Fut> {
        self.inner.held()
    }

    pub closed spec fn func(&self) -> F {
        self.inner.func()
    }

    pub fn new(iter: I, f: F) -> (r: Self)
        ensures
            r.iter() == iter,
            r.held() is None,
            r.func() == f,
    {
        FindMapAsync { inner: FilterMapAsync::new(iter, f) }
    }

    /// The underlying async iterator, for the driver to poll.
    pub fn iter_mut(&mut self) -> (r: &mut I)
        ensures
            *r == old(self).iter(),
            final(self).iter() == *final(r),
            final(self).held() == old(self).held(),
            final(self).func() == old(self).func(),
    {
        self.inner.iter_mut()
    }

    /// The future in flight, for the driver to poll.
    pub fn held_mut(&mut self) -> (r: &mut Fut)
        requires
            old(self).held() is Some,
        ensures
            *r == old(self).held()->0,
            final(self).held() == Some(*final(r)),
            final(self).iter() == old(self).iter(),
            final(self).func() == old(self).func(),
    {
        self.inner.held_mut()
    }

    /// The future in flight, if any, for the driver to read.
    pub fn held_ref(&self) -> (r: Option<&Fut>)
        ensures
            r == (match self.held() {
                Some(fut) => Some(&fut),
                None => None,
            }),
    {
        self.inner.held_ref()
    }

    /// The first step of a poll: the future in flight, else the iterator.
    pub fn resume<U>(&self) -> (r: Step<Option<U>>)
        ensures
            r == (if self.held() is Some {
                Step::<Option<U>>::PollHeld
            } else {
                Step::<Option<U>>::PollIter
            }),
    {
        self.inner.resume()
    }

    /// The step to take after the underlying iterator answered `polled`:
    /// an item starts its future; the end answers `None`.
    pub fn on_iter<T, U>(&mut self, polled: Poll<Option<T>>) -> (r: Step<Option<U>>) where
        F: FnMut(T) -> Fut,

        requires
            old(self).held() is None,
            polled matches Poll::Ready(Some(x)) ==> call_requires(old(self).func(), (x,)),
        ensures
            final(self).iter() == old(self).iter(),
            final(self).func() == old(self).func(),
            (final(self).held(), r) == held_on_iter::<T, U, Fut>(polled, final(self).held()->0),
            match polled {
                Poll::Pending => r == Step::<Option<U>>::Finish(Poll::Pending)
                    && final(self).held() is None,
                Poll::Ready(None) => r == Step::<Option<U>>::Finish(Poll::Ready(None))
                    && final(self).held() is None,
                Poll::Ready(Some(x)) => r == Step::<Option<U>>::PollHeld && (final(self).held() matches Some(fut)
                    && call_ensures(old(self).func(), (x,), fut)),
            },
    {
        self.inner.on_iter(polled)
    }

    /// The step to take after the future in flight answered `polled`:
    /// `Some` is the output, `None` asks the iterator again.
    pub fn on_held<U>(&mut self, polled: Poll<Option<U>>) -> (r: Step<Option<U>>)
        requires
            old(self).held() is Some,
        ensures
            final(self).iter() == old(self).iter(),
            final(self).func() == old(self).func(),
            (final(self).held(), r) == filter_map_async_on_held(old(self).held(), polled),
            match polled {
                Poll::Pending => r == Step::<Option<U>>::Finish(Poll::Pending) && final(self).held()
                    == old(self).held(),
                Poll::Ready(Some(y)) => r == Step::<Option<U>>::Finish(Poll::Ready(Some(y)))
                    && final(self).held() is None,
                Poll::Ready(None) => r == Step::<Option<U>>::PollIter && final(self).held() is None,
            },
    {
        self.inner.on_held(polled)
    }
}

} // verus!
