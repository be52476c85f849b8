//! `MapWhile`: maps items while the function returns `Some`.

use vstd::prelude::*;
use crate::poll::{Poll, SizeHint};

verus! {

/// Yields `f(x)` for the items `x` of `iter`; a `None` from `f` ends the answer.
#[derive(Clone)]
pub struct MapWhile<I, F> {
    iter: I,
    f: F,
}

impl<I, F> MapWhile<I, F> {
    pub closed spec fn iter(&self) -> I {
        self.iter
    }

    pub closed spec fn func(&self) -> F {
        self.f
    }

    pub fn new(iter: I, f: F) -> (r: Self)
        ensures
            r.iter() == iter,
            r.func() == f,
    {
        MapWhile { iter, f }
    }

    /// The underlying async iterator, for the driver to poll.
    pub fn iter_mut(&mut self) -> (r: &mut I)
        ensures
            *r == old(self).iter(),
            final(self).iter() == *final(r),
            final(self).func() == old(self).func(),
    {
        &mut self.iter
    }

    /// The underlying async iterator, for the driver to read.
    pub fn iter_ref(&self) -> (r: &I)
        ensures
            *r == self.iter(),
    {
        &self.iter
    }

    /// Answers one poll from the underlying answer `polled`.
    pub fn on_iter<T, U>(&mut self, polled: Poll<Option<T>>) -> (r: Poll<Option<U>>) where
        F: FnMut(T) -> Option<U>,

        requires
            polled matches Poll::Ready(Some(x)) ==> call_requires(old(self).func(), (x,)),
        ensures
            *final(self) == *old(self),
            match polled {
                Poll::Pending => r is Pending,
                Poll::Ready(None) => r == Poll::<Option<U>>::Ready(None),
                Poll::Ready(Some(x)) => r matches Poll::Ready(y) && call_ensures(
                    old(self).func(),
                    (x,),
                    y,
                ),
            },
    {
        match polled {
            Poll::Pending => Poll::Pending,
            Poll::Ready(None) => Poll::Ready(None),
            Poll::Ready(Some(item)) => Poll::Ready((self.f)(item)),
        }
    }

    /// At most as many items as the underlying iterator may still yield.
    pub fn size_hint(&self, iter_hint: SizeHint) -> (r: SizeHint)
        ensures
            r == crate::poll::at_most_hint(iter_hint, false),
            r == (0usize, iter_hint.1),
    {
        (0, iter_hint.1)
    }
}

} // verus!
