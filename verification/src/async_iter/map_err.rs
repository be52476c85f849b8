//! `MapErr`: maps the error of every failed item.

use vstd::prelude::*;
use crate::poll::Poll;

verus! {

/// Yields `Err(f(e))` for every `Err(e)` of `iter` and passes every `Ok` on.
#[derive(Clone)]
pub struct MapErr<I, F> {
    iter: I,
    f: F,
}

impl<I, F> MapErr<I, F> {
    pub closed spec fn iter(&self) -> I {
        self.iter
    }

    pub closed spec fn func(&self) -> F {
        self.f
    }

    pub fn new(iter: I, f: F) -> (r: Self)
        ensures
            r.iter() == iter,
            r.func() == f,
    {
        MapErr { iter, f }
    }

    /// The underlying async iterator, for the driver to poll.
    pub fn iter_mut(&mut self) -> (r: &mut I)
        ensures
            *r == old(self).iter(),
            final(self).iter() == *final(r),
            final(self).func() == old(self).func(),
    {
        &mut self.iter
    }

    /// The underlying async iterator, for the driver to read.
    pub fn iter_ref(&self) -> (r: &I)
        ensures
            *r == self.iter(),
    {
        &self.iter
    }

    /// Answers one poll from the underlying answer `polled`.
    pub fn on_iter<T, E, E2>(&mut self, polled: Poll<Option<Result<T, E>>>) -> (r: Poll<Option<Result<T, E2>>>) where
        F: FnMut(E) -> E2,

        requires
            polled matches Poll::Ready(Some(Err(e))) ==> call_requires(old(self).func(), (e,)),
        ensures
            *final(self) == *old(self),
            match polled {
                Poll::Pending => r is Pending,
                Poll::Ready(None) => r == Poll::<Option<Result<T, E2>>>::Ready(None),
                Poll::Ready(Some(Ok(v))) => r == Poll::<Option<Result<T, E2>>>::Ready(Some(Ok(v))),
                Poll::Ready(Some(Err(e))) => r matches Poll::Ready(Some(Err(y))) && call_ensures(old(self).func(), (e,), y),
            },
    {
        match polled {
            Poll::Pending => Poll::Pending,
            Poll::Ready(None) => Poll::Ready(None),
            Poll::Ready(Some(Ok(value))) => Poll::Ready(Some(Ok(value))),
            Poll::Ready(Some(Err(error))) => Poll::Ready(Some(Err((self.f)(error)))),
        }
    }
}

} // verus!
