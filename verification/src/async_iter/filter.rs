//! `Filter` keeps the items a predicate accepts; `Find` answers the first.

use vstd::prelude::*;
use crate::poll::{Poll, Step, SizeHint};

verus! {

/// The step `Filter` takes on the underlying answer `polled`, given the
/// predicate's verdict `keep` on the item it carries.
pub open spec fn filter_step<T>(polled: Poll<Option<T>>, keep: bool) -> Step<Option<T>> {
    match polled {
        Poll::Pending => Step::Finish(Poll::Pending),
        Poll::Ready(None) => Step::Finish(Poll::Ready(None)),
        Poll::Ready(Some(x)) => if keep {
            Step::Finish(Poll::Ready(Some(x)))
        } else {
            Step::PollIter
        },
    }
}

/// Yields the items of `iter` for which `predicate` holds.
#[derive(Clone)]
pub struct Filter<I, P> {
    iter: I,
    predicate: P,
}

impl<I, P> Filter<I, P> {
    pub closed spec fn iter(&self) -> I {
        self.iter
    }

    pub closed spec fn predicate(&self) -> P {
        self.predicate
    }

    pub fn new(iter: I, predicate: P) -> (r: Self)
        ensures
            r.iter() == iter,
            r.predicate() == predicate,
    {
        Filter { iter, predicate }
    }

    /// The underlying async iterator, for the driver to poll.
    pub fn iter_mut(&mut self) -> (r: &mut I)
        ensures
            *r == old(self).iter(),
            final(self).iter() == *final(r),
            final(self).predicate() == old(self).predicate(),
    {
        &mut self.iter
    }

    /// The underlying async iterator, for the driver to read.
    pub fn iter_ref(&self) -> (r: &I)
        ensures
            *r == self.iter(),
    {
        &self.iter
    }

    /// The step to take after the underlying iterator answered `polled`.
    pub fn on_iter<T>(&mut self, polled: Poll<Option<T>>) -> (r: Step<Option<T>>) where
        P: FnMut(&T) -> bool,

        requires
            polled matches Poll::Ready(Some(x)) ==> call_requires(old(self).predicate(), (&x,)),
        ensures
            *final(self) == *old(self),
            match polled {
                Poll::Ready(Some(x)) => call_ensures(old(self).predicate(), (&x,), r is Finish) && r
                    == filter_step(polled, r is Finish),
                _ => r == filter_step(polled, false),
            },
    {
        match polled {
            Poll::Pending => Step::Finish(Poll::Pending),
            Poll::Ready(None) => Step::Finish(Poll::Ready(None)),
            Poll::Ready(Some(item)) => {
                let keep = (self.predicate)(&item);
                if keep {
                    Step::Finish(Poll::Ready(Some(item)))
                } else {
                    Step::PollIter
                }
            },
        }
    }

    /// At most as many items as the underlying iterator may still yield.
    pub fn size_hint(&self, iter_hint: SizeHint) -> (r: SizeHint)
        ensures
            r == crate::poll::at_most_hint(iter_hint, false),
            r == (0usize, iter_hint.1),
    {
        (0, iter_hint.1)
    }
}

/// A future of the first item of `iter` for which `predicate` holds.
#[derive(Clone)]
pub struct Find<I, P> {
    inner: Filter<I, P>,
}

impl<I, P> Find<I, P> {
    pub closed spec fn filter(&self) -> Filter<I, P> {
        self.inner
    }

    pub fn new(iter: I, predicate: P) -> (r: Self)
        ensures
            r.filter().iter() == iter,
            r.filter().predicate() == predicate,
    {
        Find { inner: Filter::new(iter, predicate) }
    }

    /// The underlying async iterator, for the driver to poll.
    pub fn iter_mut(&mut self) -> (r: &mut I)
        ensures
            *r == old(self).filter().iter(),
            final(self).filter().iter() == *final(r),
            final(self).filter().predicate() == old(self).filter().predicate(),
    {
        self.inner.iter_mut()
    }

    /// The step to take after the underlying iterator answered `polled`;
    /// a finished step carries the future's output.
    pub fn on_iter<T>(&mut self, polled: Poll<Option<T>>) -> (r: Step<Option<T>>) where
        P: FnMut(&T) -> bool,

        requires
            polled matches Poll::Ready(Some(x)) ==> call_requires(
                old(self).filter().predicate(),
                (&x,),
            ),
        ensures
            *final(self) == *old(self),
            match polled {
                Poll::Ready(Some(x)) => call_ensures(
                    old(self).filter().predicate(),
                    (&x,),
                    r is Finish,
                ) && r == filter_step(polled, r is Finish),
                _ => r == filter_step(polled, false),
            },
    {
        self.inner.on_iter(polled)
    }
}

} // verus!
