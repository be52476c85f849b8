//! `InspectOk`: calls a function on a borrow of every successful value.

use vstd::prelude::*;
use crate::poll::Poll;

verus! {

/// Calls `f` on the value of every `Ok` of `iter`; yields every item unchanged.
#[derive(Clone)]
pub struct InspectOk<I, F> {
    iter: I,
    f: F,
}

impl<I, F> InspectOk<I, F> {
    pub closed spec fn iter(&self) -> I {
        self.iter
    }

    pub closed spec fn func(&self) -> F {
        self.f
    }

    pub fn new(iter: I, f: F) -> (r: Self)
        ensures
            r.iter() == iter,
            r.func() == f,
    {
        InspectOk { iter, f }
    }

    /// The underlying async iterator, for the driver to poll.
    pub fn iter_mut(&mut self) -> (r: &mut I)
        ensures
            *r == old(self).iter(),
            final(self).iter() == *final(r),
            final(self).func() == old(self).func(),
    {
        &mut self.iter
    }

    /// The underlying async iterator, for the driver to read.
    pub fn iter_ref(&self) -> (r: &I)
        ensures
            *r == self.iter(),
    {
        &self.iter
    }

    /// Answers one poll from the underlying answer `polled`.
    pub fn on_iter<T, E>(&mut self, polled: Poll<Option<Result<T, E>>>) -> (r: Poll<
        Option<Result<T, E>>,
    >) where F: FnMut(&T)
        requires
            polled matches Poll::Ready(Some(Ok(v))) ==> call_requires(old(self).func(), (&v,)),
        ensures
            *final(self) == *old(self),
            r == polled,
            polled matches Poll::Ready(Some(Ok(v))) ==> call_ensures(old(self).func(), (&v,), ()),
    {
        if let Poll::Ready(Some(Ok(value))) = &polled {
            (self.f)(value);
        }
        polled
    }
}

} // verus!
