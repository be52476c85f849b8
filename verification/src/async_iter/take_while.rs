//! `TakeWhile`: yields items while a predicate holds.

use vstd::prelude::*;
use crate::poll::{Poll, SizeHint};

verus! {

/// What one poll of `TakeWhile` answers, given the predicate's verdict
/// `keep` on the item the underlying answer carries.
///
/// A rejected item ends the current answer with `None`; the combinator is
/// not fused, so a later poll asks the underlying iterator again.
pub open spec fn take_while_answer<T>(polled: Poll<Option<T>>, keep: bool) -> Poll<Option<T>> {
    match polled {
        Poll::Ready(Some(x)) => if keep {
            Poll::Ready(Some(x))
        } else {
            Poll::Ready(None)
        },
        _ => polled,
    }
}

/// Yields the items of `iter` while `f` accepts them.
#[derive(Clone)]
pub struct TakeWhile<I, F> {
    iter: I,
    f: F,
}

impl<I, F> TakeWhile<I, F> {
    pub closed spec fn iter(&self) -> I {
        self.iter
    }

    pub closed spec fn func(&self) -> F {
        self.f
    }

    pub fn new(iter: I, f: F) -> (r: Self)
        ensures
            r.iter() == iter,
            r.func() == f,
    {
        TakeWhile { iter, f }
    }

    /// The underlying async iterator, for the driver to poll.
    pub fn iter_mut(&mut self) -> (r: &mut I)
        ensures
            *r == old(self).iter(),
            final(self).iter() == *final(r),
            final(self).func() == old(self).func(),
    {
        &mut self.iter
    }

    /// The underlying async iterator, for the driver to read.
    pub fn iter_ref(&self) -> (r: &I)
        ensures
            *r == self.iter(),
    {
        &self.iter
    }

    /// Answers one poll from the underlying answer `polled`.
    pub fn on_iter<T>(&mut self, polled: Poll<Option<T>>) -> (r: Poll<Option<T>>) where
        F: FnMut(&T) -> bool,

        requires
            polled matches Poll::Ready(Some(x)) ==> call_requires(old(self).func(), (&x,)),
        ensures
            *final(self) == *old(self),
            match polled {
                Poll::Ready(Some(x)) => call_ensures(
                    old(self).func(),
                    (&x,),
                    r == Poll::Ready(Some(x)),
                ) && r == take_while_answer(polled, r == Poll::Ready(Some(x))),
                _ => r == polled,
            },
    {
        match polled {
            Poll::Pending => Poll::Pending,
            Poll::Ready(None) => Poll::Ready(None),
            Poll::Ready(Some(item)) => {
                if (self.f)(&item) {
                    Poll::Ready(Some(item))
                } else {
                    Poll::Ready(None)
                }
            },
        }
    }

    /// At most as many items as the underlying iterator may still yield.
    pub fn size_hint(&self, iter_hint: SizeHint) -> (r: SizeHint)
        ensures
            r == crate::poll::at_most_hint(iter_hint, false),
            r == (0usize, iter_hint.1),
    {
        (0, iter_hint.1)
    }
}

} // verus!
