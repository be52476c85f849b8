//! `ErrInto` and `OkInto`: convert the error or the value of every item with `Into`.

use vstd::prelude::*;
use crate::poll::Poll;
use vstd::std_specs::convert::IntoSpec;

verus! {

/// Converts the error of every `Err` of `iter` into `E2`.
#[derive(Clone)]
pub struct ErrInto<I> {
    iter: I,
}

impl<I> ErrInto<I> {
    pub closed spec fn iter(&self) -> I {
        self.iter
    }

    pub fn new(iter: I) -> (r: Self)
        ensures
            r.iter() == iter,
    {
        ErrInto { iter }
    }

    /// The underlying async iterator, for the driver to poll.
    pub fn iter_mut(&mut self) -> (r: &mut I)
        ensures
            *r == old(self).iter(),
            final(self).iter() == *final(r),
    {
        &mut self.iter
    }

    /// The underlying async iterator, for the driver to read.
    pub fn iter_ref(&self) -> (r: &I)
        ensures
            *r == self.iter(),
    {
        &self.iter
    }

    /// Answers one poll from the underlying answer `polled`.
    pub fn on_iter<T, E, E2>(&mut self, polled: Poll<Option<Result<T, E>>>) -> (r: Poll<
        Option<Result<T, E2>>,
    >) where E: Into<E2>
        ensures
            *final(self) == *old(self),
            match polled {
                Poll::Pending => r is Pending,
                Poll::Ready(None) => r == Poll::<Option<Result<T, E2>>>::Ready(None),
                Poll::Ready(Some(Ok(v))) => r == Poll::<Option<Result<T, E2>>>::Ready(
                    Some(Ok(v)),
                ),
                Poll::Ready(Some(Err(e))) => r matches Poll::Ready(Some(Err(e2))) && (
                <E as IntoSpec<E2>>::obeys_into_spec() ==> e2 == <E as IntoSpec<E2>>::into_spec(e)),
            },
    {
        match polled {
            Poll::Pending => Poll::Pending,
            Poll::Ready(None) => Poll::Ready(None),
            Poll::Ready(Some(Ok(value))) => Poll::Ready(Some(Ok(value))),
            Poll::Ready(Some(Err(error))) => Poll::Ready(Some(Err(error.into()))),
        }
    }
}

/// Converts the value of every `Ok` of `iter` into `T2`.
#[derive(Clone)]
pub struct OkInto<I> {
    iter: I,
}

impl<I> OkInto<I> {
    pub closed spec fn iter(&self) -> I {
        self.iter
    }

    pub fn new(iter: I) -> (r: Self)
        ensures
            r.iter() == iter,
    {
        OkInto { iter }
    }

    /// The underlying async iterator, for the driver to poll.
    pub fn iter_mut(&mut self) -> (r: &mut I)
        ensures
            *r == old(self).iter(),
            final(self).iter() == *final(r),
    {
        &mut self.iter
    }

    /// The underlying async iterator, for the driver to read.
    pub fn iter_ref(&self) -> (r: &I)
        ensures
            *r == self.iter(),
    {
        &self.iter
    }

    /// Answers one poll from the underlying answer `polled`.
    pub fn on_iter<T, T2, E>(&mut self, polled: Poll<Option<Result<T, E>>>) -> (r: Poll<
        Option<Result<T2, E>>,
    >) where T: Into<T2>
        ensures
            *final(self) == *old(self),
            match polled {
                Poll::Pending => r is Pending,
                Poll::Ready(None) => r == Poll::<Option<Result<T2, E>>>::Ready(None),
                Poll::Ready(Some(Ok(v))) => r matches Poll::Ready(Some(Ok(v2))) && (
                <T as IntoSpec<T2>>::obeys_into_spec() ==> v2 == <T as IntoSpec<T2>>::into_spec(v)),
                Poll::Ready(Some(Err(e))) => r == Poll::<Option<Result<T2, E>>>::Ready(
                    Some(Err(e)),
                ),
            },
    {
        match polled {
            Poll::Pending => Poll::Pending,
            Poll::Ready(None) => Poll::Ready(None),
            Poll::Ready(Some(Ok(value))) => Poll::Ready(Some(Ok(value.into()))),
            Poll::Ready(Some(Err(error))) => Poll::Ready(Some(Err(error))),
        }
    }
}

} // verus!
