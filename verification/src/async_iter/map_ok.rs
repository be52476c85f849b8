//! `MapOk`: maps the value of every successful item.

use vstd::prelude::*;
use crate::poll::Poll;

verus! {

/// Yields `Ok(f(v))` for every `Ok(v)` of `iter` and passes every `Err` on.
#[derive(Clone)]
pub struct MapOk<I, F> {
    iter: I,
    f: F,
}

impl<I, F> MapOk<I, F> {
    pub closed spec fn iter(&self) -> I {
        self.iter
    }

    pub closed spec fn func(&self) -> F {
        self.f
    }

    pub fn new(iter: I, f: F) -> (r: Self)
        ensures
            r.iter() == iter,
            r.func() == f,
    {
        MapOk { iter, f }
    }

    /// The underlying async iterator, for the driver to poll.
    pub fn iter_mut(&mut self) -> (r: &mut I)
        ensures
            *r == old(self).iter(),
            final(self).iter() == *final(r),
            final(self).func() == old(self).func(),
    {
        &mut self.iter
    }

    /// The underlying async iterator, for the driver to read.
    pub fn iter_ref(&self) -> (r: &I)
        ensures
            *r == self.iter(),
    {
        &self.iter
    }

    /// Answers one poll from the underlying answer `polled`.
    pub fn on_iter<T, U, E>(&mut self, polled: Poll<Option<Result<T, E>>>) -> (r: Poll<Option<Result<U, E>>>) where
        F: FnMut(T) -> U,

        requires
            polled matches Poll::Ready(Some(Ok(v))) ==> call_requires(old(self).func(), (v,)),
        ensures
            *final(self) == *old(self),
            match polled {
                Poll::Pending => r is Pending,
                Poll::Ready(None) => r == Poll::<Option<Result<U, E>>>::Ready(None),
                Poll::Ready(Some(Ok(v))) => r matches Poll::Ready(Some(Ok(y))) && call_ensures(old(self).func(), (v,), y),
                Poll::Ready(Some(Err(e))) => r == Poll::<Option<Result<U, E>>>::Ready(Some(Err(e))),
            },
    {
        match polled {
            Poll::Pending => Poll::Pending,
            Poll::Ready(None) => Poll::Ready(None),
            Poll::Ready(Some(Ok(value))) => Poll::Ready(Some(Ok((self.f)(value)))),
            Poll::Ready(Some(Err(error))) => Poll::Ready(Some(Err(error))),
        }
    }
}

} // verus!
