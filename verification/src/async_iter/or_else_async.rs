//! `OrElseAsync`: handles every error with an asynchronous fallible function.

use vstd::prelude::*;
use crate::poll::{Poll, Step, SizeHint};
use crate::async_iter::and_then_async::held_output_on_held;

verus! {

/// The future held and the step of `OrElseAsync` after the underlying
/// iterator answered `polled`, where `fut` is the future `f` returns for a
/// failure.
pub open spec fn or_else_async_on_iter<T, E, E2, Fut>(polled: Poll<Option<Result<T, E>>>, fut: Fut) -> (
    Option<Fut>,
    Step<Option<Result<T, E2>>>,
) {
    match polled {
        Poll::Ready(Some(Err(_))) => (Some(fut), Step::PollHeld),
        Poll::Ready(Some(Ok(v))) => (None, Step::Finish(Poll::Ready(Some(Ok(v))))),
        _ => (None, Step::Finish(polled_none_or_pending::<E, E2, T>(polled))),
    }
}

/// The answer passed on for a pending or ended underlying iterator.
pub open spec fn polled_none_or_pending<E, E2, T>(polled: Poll<Option<Result<T, E>>>) -> Poll<
    Option<Result<T, E2>>,
> {
    match polled {
        Poll::Pending => Poll::Pending,
        _ => Poll::Ready(None),
    }
}

/// Yields what `f(e)` resolves to for every `Err(e)` of `iter`, and passes every `Ok` on.
#[derive(Clone)]
pub struct OrElseAsync<I, F, Fut> {
    iter: I,
    state: Option<Fut>,
    f: F,
}

impl<I, F, Fut> OrElseAsync<I, F, Fut> {
    pub closed spec fn iter(&self) -> I {
        self.iter
    }

    /// The future in flight, if any.
    pub closed spec fn held(&self) -> Option<Fut> {
        self.state
    }

    pub closed spec fn func(&self) -> F {
        self.f
    }

    pub fn new(iter: I, f: F) -> (r: Self)
        ensures
            r.iter() == iter,
            r.held() is None,
            r.func() == f,
    {
        OrElseAsync { iter, state: None, f }
    }

    /// The underlying async iterator, for the driver to poll.
    pub fn iter_mut(&mut self) -> (r: &mut I)
        ensures
            *r == old(self).iter(),
            final(self).iter() == *final(r),
            final(self).held() == old(self).held(),
            final(self).func() == old(self).func(),
    {
        &mut self.iter
    }

    /// The underlying async iterator, for the driver to read.
    pub fn iter_ref(&self) -> (r: &I)
        ensures
            *r == self.iter(),
    {
        &self.iter
    }

    /// The future in flight, for the driver to poll.
    pub fn held_mut(&mut self) -> (r: &mut Fut)
        requires
            old(self).held() is Some,
        ensures
            *r == old(self).held()->0,
            final(self).held() == Some(*final(r)),
            final(self).iter() == old(self).iter(),
            final(self).func() == old(self).func(),
    {
        match &mut self.state {
            Some(fut) => fut,
            None => vstd::pervasive::unreached(),
        }
    }

    /// The future in flight, if any, for the driver to read.
    pub fn held_ref(&self) -> (r: Option<&Fut>)
        ensures
            r == (match self.held() {
                Some(fut) => Some(&fut),
                None => None,
            }),
    {
        match &self.state {
            Some(fut) => Some(fut),
            None => None,
        }
    }

    /// The first step of a poll: the future in flight, else the iterator.
    pub fn resume<V>(&self) -> (r: Step<Option<V>>)
        ensures
            r == (if self.held() is Some {
                Step::<Option<V>>::PollHeld
            } else {
                Step::<Option<V>>::PollIter
            }),
    {
        if self.state.is_some() {
            Step::PollHeld
        } else {
            Step::PollIter
        }
    }

    /// The step to take after the underlying iterator answered `polled`:
    /// a failure starts its future, a success is passed on.
    pub fn on_iter<T, E, E2>(&mut self, polled: Poll<Option<Result<T, E>>>) -> (r: Step<
        Option<Result<T, E2>>,
    >) where F: FnMut(E) -> Fut
        requires
            old(self).held() is None,
            polled matches Poll::Ready(Some(Err(e))) ==> call_requires(old(self).func(), (e,)),
        ensures
            final(self).iter() == old(self).iter(),
            final(self).func() == old(self).func(),
            (final(self).held(), r) == or_else_async_on_iter::<T, E, E2, Fut>(polled, final(self).held()->0),
            match polled {
                Poll::Ready(Some(Err(e))) => r == Step::<Option<Result<T, E2>>>::PollHeld && (final(self).held() matches Some(fut)
                    && call_ensures(old(self).func(), (e,), fut)),
                Poll::Ready(Some(Ok(v))) => r == Step::<Option<Result<T, E2>>>::Finish(Poll::Ready(Some(Ok(v))))
                    && final(self).held() is None,
                _ => r == Step::<Option<Result<T, E2>>>::Finish(polled_none_or_pending::<E, E2, T>(polled))
                    && final(self).held() is None,
            },
    {
        match polled {
            Poll::Pending => Step::Finish(Poll::Pending),
            Poll::Ready(None) => Step::Finish(Poll::Ready(None)),
            Poll::Ready(Some(Err(error))) => {
                self.state = Some((self.f)(error));
                Step::PollHeld
            },
            Poll::Ready(Some(Ok(value))) => Step::Finish(Poll::Ready(Some(Ok(value)))),
        }
    }

    /// The step to take after the future in flight answered `polled`:
    /// its output is the next item.
    pub fn on_held<V>(&mut self, polled: Poll<V>) -> (r: Step<Option<V>>)
        requires
            old(self).held() is Some,
        ensures
            final(self).iter() == old(self).iter(),
            final(self).func() == old(self).func(),
            (final(self).held(), r) == held_output_on_held(old(self).held(), polled),
            match polled {
                Poll::Pending => r == Step::<Option<V>>::Finish(Poll::Pending) && final(self).held()
                    == old(self).held(),
                Poll::Ready(y) => r == Step::<Option<V>>::Finish(Poll::Ready(Some(y)))
                    && final(self).held() is None,
            },
    {
        match polled {
            Poll::Pending => Step::Finish(Poll::Pending),
            Poll::Ready(item) => {
                self.state = None;
                Step::Finish(Poll::Ready(Some(item)))
            },
        }
    }

    /// The underlying hint, counting the item the future in flight will yield.
    pub fn size_hint(&self, iter_hint: SizeHint) -> (r: SizeHint)
        ensures
            r == crate::poll::held_hint(iter_hint, self.held() is Some),
            r == (if self.held() is Some {
                crate::poll::add_one_spec(iter_hint)
            } else {
                iter_hint
            }),
    {
        if self.state.is_some() {
            crate::poll::hint_add_one(iter_hint)
        } else {
            iter_hint
        }
    }

    /// Ended when the future in flight, or else the underlying iterator, has ended.
    pub fn is_terminated(&self, iter_terminated: bool, held_terminated: bool) -> (r: bool)
        ensures
            r == (if self.held() is Some {
                held_terminated
            } else {
                iter_terminated
            }),
    {
        if self.state.is_some() {
            held_terminated
        } else {
            iter_terminated
        }
    }
}

} // verus!
