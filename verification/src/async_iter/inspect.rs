//! `Inspect`: calls a function on a borrow of every item, passing items on.

use vstd::prelude::*;
use crate::poll::Poll;

verus! {

/// Calls `f` on each item of `iter` and yields the item unchanged.
#[derive(Clone)]
pub struct Inspect<I, F> {
    iter: I,
    f: F,
}

impl<I, F> Inspect<I, F> {
    pub closed spec fn iter(&self) -> I {
        self.iter
    }

    pub closed spec fn func(&self) -> F {
        self.f
    }

    pub fn new(iter: I, f: F) -> (r: Self)
        ensures
            r.iter() == iter,
            r.func() == f,
    {
        Inspect { iter, f }
    }

    /// The underlying async iterator, for the driver to poll.
    pub fn iter_mut(&mut self) -> (r: &mut I)
        ensures
            *r == old(self).iter(),
            final(self).iter() == *final(r),
            final(self).func() == old(self).func(),
    {
        &mut self.iter
    }

    /// The underlying async iterator, for the driver to read.
    pub fn iter_ref(&self) -> (r: &I)
        ensures
            *r == self.iter(),
    {
        &self.iter
    }

    /// Answers one poll from the underlying answer `polled`.
    pub fn on_iter<T>(&mut self, polled: Poll<Option<T>>) -> (r: Poll<Option<T>>) where
        F: FnMut(&T),

        requires
            polled matches Poll::Ready(Some(x)) ==> call_requires(old(self).func(), (&x,)),
        ensures
            *final(self) == *old(self),
            r == polled,
            polled matches Poll::Ready(Some(x)) ==> call_ensures(old(self).func(), (&x,), ()),
    {
        if let Poll::Ready(Some(item)) = &polled {
            (self.f)(item);
        }
        polled
    }
}

} // verus!
