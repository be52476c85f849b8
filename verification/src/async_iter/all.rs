//! `All` and `Any`: whether a predicate accepts every item, or some item.

use vstd::prelude::*;
use crate::poll::{Poll, Step};

verus! {

/// The step `All` takes on the underlying answer `polled`, given the
/// predicate's verdict `accepted` on the item it carries.
pub open spec fn all_step<X>(polled: Poll<Option<X>>, accepted: bool) -> Step<bool> {
    match polled {
        Poll::Pending => Step::Finish(Poll::Pending),
        Poll::Ready(None) => Step::Finish(Poll::Ready(true)),
        Poll::Ready(Some(_)) => if accepted {
            Step::PollIter
        } else {
            Step::Finish(Poll::Ready(false))
        },
    }
}

/// The step `Any` takes on the underlying answer `polled`, given the
/// predicate's verdict `accepted` on the item it carries.
pub open spec fn any_step<X>(polled: Poll<Option<X>>, accepted: bool) -> Step<bool> {
    match polled {
        Poll::Pending => Step::Finish(Poll::Pending),
        Poll::Ready(None) => Step::Finish(Poll::Ready(false)),
        Poll::Ready(Some(_)) => if accepted {
            Step::Finish(Poll::Ready(true))
        } else {
            Step::PollIter
        },
    }
}

/// A future of whether `predicate` accepts every item of `iter`; it stops
/// at the first rejected item.
#[derive(Clone)]
pub struct All<I, P> {
    iter: I,
    predicate: P,
}

impl<I, P> All<I, P> {
    pub closed spec fn iter(&self) -> I {
        self.iter
    }

    pub closed spec fn predicate(&self) -> P {
        self.predicate
    }

    pub fn new(iter: I, predicate: P) -> (r: Self)
        ensures
            r.iter() == iter,
            r.predicate() == predicate,
    {
        All { iter, predicate }
    }

    /// The underlying async iterator, for the driver to poll.
    pub fn iter_mut(&mut self) -> (r: &mut I)
        ensures
            *r == old(self).iter(),
            final(self).iter() == *final(r),
            final(self).predicate() == old(self).predicate(),
    {
        &mut self.iter
    }

    /// The underlying async iterator, for the driver to read.
    pub fn iter_ref(&self) -> (r: &I)
        ensures
            *r == self.iter(),
    {
        &self.iter
    }

    /// The step to take after the underlying iterator answered `polled`.
    pub fn on_iter<X>(&mut self, polled: Poll<Option<X>>) -> (r: Step<bool>) where
        P: FnMut(X) -> bool,

        requires
            polled matches Poll::Ready(Some(x)) ==> call_requires(old(self).predicate(), (x,)),
        ensures
            *final(self) == *old(self),
            match polled {
                Poll::Ready(Some(x)) => call_ensures(old(self).predicate(), (x,), r is PollIter)
                    && r == all_step(polled, r is PollIter),
                _ => r == all_step(polled, true),
            },
    {
        match polled {
            Poll::Pending => Step::Finish(Poll::Pending),
            Poll::Ready(None) => Step::Finish(Poll::Ready(true)),
            Poll::Ready(Some(item)) => {
                if (self.predicate)(item) {
                    Step::PollIter
                } else {
                    Step::Finish(Poll::Ready(false))
                }
            },
        }
    }
}

/// A future of whether `predicate` accepts some item of `iter`; it stops
/// at the first accepted item.
#[derive(Clone)]
pub struct Any<I, P> {
    iter: I,
    predicate: P,
}

impl<I, P> Any<I, P> {
    pub closed spec fn iter(&self) -> I {
        self.iter
    }

    pub closed spec fn predicate(&self) -> P {
        self.predicate
    }

    pub fn new(iter: I, predicate: P) -> (r: Self)
        ensures
            r.iter() == iter,
            r.predicate() == predicate,
    {
        Any { iter, predicate }
    }

    /// The underlying async iterator, for the driver to poll.
    pub fn iter_mut(&mut self) -> (r: &mut I)
        ensures
            *r == old(self).iter(),
            final(self).iter() == *final(r),
            final(self).predicate() == old(self).predicate(),
    {
        &mut self.iter
    }

    /// The underlying async iterator, for the driver to read.
    pub fn iter_ref(&self) -> (r: &I)
        ensures
            *r == self.iter(),
    {
        &self.iter
    }

    /// The step to take after the underlying iterator answered `polled`.
    pub fn on_iter<X>(&mut self, polled: Poll<Option<X>>) -> (r: Step<bool>) where
        P: FnMut(X) -> bool,

        requires
            polled matches Poll::Ready(Some(x)) ==> call_requires(old(self).predicate(), (x,)),
        ensures
            *final(self) == *old(self),
            match polled {
                Poll::Ready(Some(x)) => call_ensures(old(self).predicate(), (x,), !(r is PollIter))
                    && r == any_step(polled, !(r is PollIter)),
                _ => r == any_step(polled, true),
            },
    {
        match polled {
            Poll::Pending => Step::Finish(Poll::Pending),
            Poll::Ready(None) => Step::Finish(Poll::Ready(false)),
            Poll::Ready(Some(item)) => {
                if (self.predicate)(item) {
                    Step::Finish(Poll::Ready(true))
                } else {
                    Step::PollIter
                }
            },
        }
    }
}

} // verus!
