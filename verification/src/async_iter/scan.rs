//! `Scan`: threads a state through the items; `None` from the function ends the answer.

use vstd::prelude::*;
use crate::poll::{Poll, SizeHint};

verus! {

/// Yields `f(&mut state, x)` for the items `x` of `iter`.
#[derive(Clone)]
pub struct Scan<I, S, F> {
    iter: I,
    state: S,
    f: F,
}

impl<I, S, F> Scan<I, S, F> {
    pub closed spec fn iter(&self) -> I {
        self.iter
    }

    pub closed spec fn state(&self) -> S {
        self.state
    }

    pub closed spec fn func(&self) -> F {
        self.f
    }

    pub fn new(iter: I, state: S, f: F) -> (r: Self)
        ensures
            r.iter() == iter,
            r.state() == state,
            r.func() == f,
    {
        Scan { iter, state, f }
    }

    /// The underlying async iterator, for the driver to poll.
    pub fn iter_mut(&mut self) -> (r: &mut I)
        ensures
            *r == old(self).iter(),
            final(self).iter() == *final(r),
            final(self).state() == old(self).state(),
            final(self).func() == old(self).func(),
    {
        &mut self.iter
    }

    /// The underlying async iterator, for the driver to read.
    pub fn iter_ref(&self) -> (r: &I)
        ensures
            *r == self.iter(),
    {
        &self.iter
    }

    /// Answers one poll from the underlying answer `polled`.
    pub fn on_iter<T, U>(&mut self, polled: Poll<Option<T>>) -> (r: Poll<Option<U>>) where
        F: FnMut(&mut S, T) -> Option<U>,

        requires
            polled matches Poll::Ready(Some(x)) ==> forall|s: &mut S|
                #![trigger call_requires(old(self).func(), (s, x))]
                *s == old(self).state() ==> call_requires(old(self).func(), (s, x)),
        ensures
            final(self).iter() == old(self).iter(),
            final(self).func() == old(self).func(),
            match polled {
                Poll::Pending => r is Pending && final(self).state() == old(self).state(),
                Poll::Ready(None) => r == Poll::<Option<U>>::Ready(None) && final(self).state()
                    == old(self).state(),
                Poll::Ready(Some(x)) => r matches Poll::Ready(y) && exists|s: &mut S|
                    #![trigger call_ensures(old(self).func(), (s, x), y)]
                    *s == old(self).state() && *final(s) == final(self).state() && call_ensures(
                        old(self).func(),
                        (s, x),
                        y,
                    ),
            },
    {
        match polled {
            Poll::Pending => Poll::Pending,
            Poll::Ready(None) => Poll::Ready(None),
            Poll::Ready(Some(item)) => {
                let state = &mut self.state;
                assert(call_requires(old(self).func(), (state, item)));
                Poll::Ready((self.f)(state, item))
            },
        }
    }

    /// At most as many items as the underlying iterator may still yield.
    pub fn size_hint(&self, iter_hint: SizeHint) -> (r: SizeHint)
        ensures
            r == crate::poll::at_most_hint(iter_hint, false),
            r == (0usize, iter_hint.1),
    {
        (0, iter_hint.1)
    }
}

} // verus!
