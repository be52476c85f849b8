//! `MapErrAsync`: maps the error of every failure with an asynchronous function.

use vstd::prelude::*;
use crate::poll::{Poll, Step, SizeHint};
use crate::async_iter::or_else_async::{OrElseAsync, or_else_async_on_iter, polled_none_or_pending};

verus! {

/// The future held and the step of `MapErrAsync` after the future in
/// flight answered `polled`: its output is the next failure.
pub open spec fn map_err_async_on_held<T, E2, Fut>(held: Option<Fut>, polled: Poll<E2>) -> (
    Option<Fut>,
    Step<Option<Result<T, E2>>>,
) {
    match polled {
        Poll::Pending => (held, Step::Finish(Poll::Pending)),
        Poll::Ready(y) => (None, Step::Finish(Poll::Ready(Some(Err(y))))),
    }
}

/// Yields `Err(y)` for every `Err(e)` of `iter`, where `f(e)` resolves to `y`, and passes every `Ok` on.
#[derive(Clone)]
pub struct MapErrAsync<I, F, Fut> {
    inner: OrElseAsync<I, F, Fut>,
}

impl<I, F, Fut> MapErrAsync<I, F, Fut> {
    pub closed spec fn iter(&self) -> I {
        self.inner.iter()
    }

    /// The future in flight, if any.
    pub closed spec fn held(&self) -> Option<Fut> {
        self.inner.held()
    }

    pub closed spec fn func(&self) -> F {
        self.inner.func()
    }

    pub fn new(iter: I, f: F) -> (r: Self)
        ensures
            r.iter() == iter,
            r.held() is None,
            r.func() == f,
    {
        MapErrAsync { inner: OrElseAsync::new(iter, f) }
    }

    /// The underlying async iterator, for the driver to poll.
    pub fn iter_mut(&mut self) -> (r: &mut I)
        ensures
            *r == old(self).iter(),
            final(self).iter() == *final(r),
            final(self).held() == old(self).held(),
            final(self).func() == old(self).func(),
    {
        self.inner.iter_mut()
    }

    /// The underlying async iterator, for the driver to read.
    pub fn iter_ref(&self) -> (r: &I)
        ensures
            *r == self.iter(),
    {
        self.inner.iter_ref()
    }

    /// The future in flight, for the driver to poll.
    pub fn held_mut(&mut self) -> (r: &mut Fut)
        requires
            old(self).held() is Some,
        ensures
            *r == old(self).held()->0,
            final(self).held() == Some(*final(r)),
            final(self).iter() == old(self).iter(),
            final(self).func() == old(self).func(),
    {
        self.inner.held_mut()
    }

    /// The future in flight, if any, for the driver to read.
    pub fn held_ref(&self) -> (r: Option<&Fut>)
        ensures
            r == (match self.held() {
                Some(fut) => Some(&fut),
                None => None,
            }),
    {
        self.inner.held_ref()
    }

    /// The first step of a poll: the future in flight, else the iterator.
    pub fn resume<V>(&self) -> (r: Step<Option<V>>)
        ensures
            r == (if self.held() is Some {
                Step::<Option<V>>::PollHeld
            } else {
                Step::<Option<V>>::PollIter
            }),
    {
        self.inner.resume()
    }

    /// The step to take after the underlying iterator answered `polled`:
    /// a failure starts its future, a success is passed on.
    pub fn on_iter<T, E, E2>(&mut self, polled: Poll<Option<Result<T, E>>>) -> (r: Step<
        Option<Result<T, E2>>,
    >) where F: FnMut(E) -> Fut
        requires
            old(self).held() is None,
            polled matches Poll::Ready(Some(Err(e))) ==> call_requires(old(self).func(), (e,)),
        ensures
            final(self).iter() == old(self).iter(),
            final(self).func() == old(self).func(),
            (final(self).held(), r) == or_else_async_on_iter::<T, E, E2, Fut>(polled, final(self).held()->0),
            match polled {
                Poll::Ready(Some(Err(e))) => r == Step::<Option<Result<T, E2>>>::PollHeld && (final(self).held() matches Some(fut)
                    && call_ensures(old(self).func(), (e,), fut)),
                Poll::Ready(Some(Ok(v))) => r == Step::<Option<Result<T, E2>>>::Finish(Poll::Ready(Some(Ok(v))))
                    && final(self).held() is None,
                _ => r == Step::<Option<Result<T, E2>>>::Finish(polled_none_or_pending::<E, E2, T>(polled))
                    && final(self).held() is None,
            },
    {
        self.inner.on_iter(polled)
    }

    /// The step to take after the future in flight answered `polled`:
    /// its output, wrapped, is the next item.
    pub fn on_held<T, E2>(&mut self, polled: Poll<E2>) -> (r: Step<Option<Result<T, E2>>>)
        requires
            old(self).held() is Some,
        ensures
            final(self).iter() == old(self).iter(),
            final(self).func() == old(self).func(),
            (final(self).held(), r) == map_err_async_on_held::<T, E2, Fut>(old(self).held(), polled),
            match polled {
                Poll::Pending => r == Step::<Option<Result<T, E2>>>::Finish(Poll::Pending)
                    && final(self).held() == old(self).held(),
                Poll::Ready(y) => r == Step::<Option<Result<T, E2>>>::Finish(Poll::Ready(Some(Err(y))))
                    && final(self).held() is None,
            },
    {
        match self.inner.on_held(polled) {
            Step::Finish(Poll::Ready(Some(y))) => Step::Finish(Poll::Ready(Some(Err(y)))),
            Step::Finish(Poll::Ready(None)) => vstd::pervasive::unreached(),
            Step::Finish(Poll::Pending) => Step::Finish(Poll::Pending),
            Step::PollIter => vstd::pervasive::unreached(),
            Step::PollHeld => vstd::pervasive::unreached(),
        }
    }

    /// The underlying hint, counting the item the future in flight will yield.
    pub fn size_hint(&self, iter_hint: SizeHint) -> (r: SizeHint)
        ensures
            r == crate::poll::held_hint(iter_hint, self.held() is Some),
            r == (if self.held() is Some {
                crate::poll::add_one_spec(iter_hint)
            } else {
                iter_hint
            }),
    {
        self.inner.size_hint(iter_hint)
    }

    /// Ended when the future in flight, or else the underlying iterator, has ended.
    pub fn is_terminated(&self, iter_terminated: bool, held_terminated: bool) -> (r: bool)
        ensures
            r == (if self.held() is Some {
                held_terminated
            } else {
                iter_terminated
            }),
    {
        self.inner.is_terminated(iter_terminated, held_terminated)
    }
}

} // verus!
