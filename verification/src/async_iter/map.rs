//! `MapIter` (the `map` combinator): applies a function to every item.

use vstd::prelude::*;
use crate::poll::Poll;

verus! {

/// Applies `f` to every item of the async iterator `iter`.
#[derive(Clone)]
pub struct MapIter<I, F> {
    iter: I,
    f: F,
}

impl<I, F> MapIter<I, F> {
    pub closed spec fn iter(&self) -> I {
        self.iter
    }

    pub closed spec fn func(&self) -> F {
        self.f
    }

    pub fn new(iter: I, f: F) -> (r: Self)
        ensures
            r.iter() == iter,
            r.func() == f,
    {
        MapIter { iter, f }
    }

    /// The underlying async iterator, for the driver to poll.
    pub fn iter_mut(&mut self) -> (r: &mut I)
        ensures
            *r == old(self).iter(),
            final(self).iter() == *final(r),
            final(self).func() == old(self).func(),
    {
        &mut self.iter
    }

    /// The underlying async iterator, for the driver to read.
    pub fn iter_ref(&self) -> (r: &I)
        ensures
            *r == self.iter(),
    {
        &self.iter
    }

    /// Answers one poll from the underlying answer `polled`.
    pub fn on_iter<T, U>(&mut self, polled: Poll<Option<T>>) -> (r: Poll<Option<U>>) where
        F: FnMut(T) -> U,

        requires
            polled matches Poll::Ready(Some(x)) ==> call_requires(old(self).func(), (x,)),
        ensures
            final(self).func() == old(self).func(),
            final(self).iter() == old(self).iter(),
            match polled {
                Poll::Pending => r is Pending,
                Poll::Ready(None) => r == Poll::<Option<U>>::Ready(None),
                Poll::Ready(Some(x)) => r matches Poll::Ready(Some(y)) && call_ensures(
                    old(self).func(),
                    (x,),
                    y,
                ),
            },
    {
        match polled {
            Poll::Pending => Poll::Pending,
            Poll::Ready(None) => Poll::Ready(None),
            Poll::Ready(Some(item)) => Poll::Ready(Some((self.f)(item))),
        }
    }
}

} // verus!
