//! `AndThenAsync`: chains an asynchronous fallible function after every success.

use vstd::prelude::*;
use crate::poll::{Poll, Step, SizeHint};

verus! {

/// The answer passed on for a pending or ended underlying iterator.
pub open spec fn polled_none_or_pending<T, U, E>(polled: Poll<Option<Result<T, E>>>) -> Poll<
    Option<Result<U, E>>,
> {
    match polled {
        Poll::Pending => Poll::Pending,
        _ => Poll::Ready(None),
    }
}

/// The first step of a poll of a combinator that may hold a future: the
/// future, else the iterator.
pub open spec fn held_resume<Fut, V>(held: Option<Fut>) -> Step<Option<V>> {
    if held is Some {
        Step::PollHeld
    } else {
        Step::PollIter
    }
}

/// The future held and the step of `AndThenAsync` after the underlying
/// iterator answered `polled`, where `fut` is the future `f` returns for a success.
pub open spec fn and_then_async_on_iter<T, U, E, Fut>(polled: Poll<Option<Result<T, E>>>, fut: Fut) -> (
    Option<Fut>,
    Step<Option<Result<U, E>>>,
) {
    match polled {
        Poll::Ready(Some(Ok(_))) => (Some(fut), Step::PollHeld),
        Poll::Ready(Some(Err(e))) => (None, Step::Finish(Poll::Ready(Some(Err(e))))),
        _ => (None, Step::Finish(polled_none_or_pending::<T, U, E>(polled))),
    }
}

/// The future held and the step after the future in flight answered
/// `polled`: its output is the next item.
pub open spec fn held_output_on_held<V, Fut>(held: Option<Fut>, polled: Poll<V>) -> (Option<Fut>, Step<Option<V>>) {
    match polled {
        Poll::Pending => (held, Step::Finish(Poll::Pending)),
        Poll::Ready(y) => (None, Step::Finish(Poll::Ready(Some(y)))),
    }
}

/// Yields what `f(v)` resolves to for every `Ok(v)` of `iter`, and passes every `Err` on.
#[derive(Clone)]
pub struct AndThenAsync<I, F, Fut> {
    iter: I,
    state: Option<Fut>,
    f: F,
}

impl<I, F, Fut> AndThenAsync<I, F, Fut> {
    pub closed spec fn iter(&self) -> I {
        self.iter
    }

    /// The future in flight, if any.
    pub closed spec fn held(&self) -> Option<Fut> {
        self.state
    }

    pub closed spec fn func(&self) -> F {
        self.f
    }

    pub fn new(iter: I, f: F) -> (r: Self)
        ensures
            r.iter() == iter,
            r.held() is None,
            r.func() == f,
    {
        AndThenAsync { iter, state: None, f }
    }

    /// The underlying async iterator, for the driver to poll.
    pub fn iter_mut(&mut self) -> (r: &mut I)
        ensures
            *r == old(self).iter(),
            final(self).iter() == *final(r),
            final(self).held() == old(self).held(),
            final(self).func() == old(self).func(),
    {
        &mut self.iter
    }

    /// The underlying async iterator, for the driver to read.
    pub fn iter_ref(&self) -> (r: &I)
        ensures
            *r == self.iter(),
    {
        &self.iter
    }

    /// The future in flight, for the driver to poll.
    pub fn held_mut(&mut self) -> (r: &mut Fut)
        requires
            old(self).held() is Some,
        ensures
            *r == old(self).held()->0,
            final(self).held() == Some(*final(r)),
            final(self).iter() == old(self).iter(),
            final(self).func() == old(self).func(),
    {
        match &mut self.state {
            Some(fut) => fut,
            None => vstd::pervasive::unreached(),
        }
    }

    /// The future in flight, if any, for the driver to read.
    pub fn held_ref(&self) -> (r: Option<&Fut>)
        ensures
            r == (match self.held() {
                Some(fut) => Some(&fut),
                None => None,
            }),
    {
        match &self.state {
            Some(fut) => Some(fut),
            None => None,
        }
    }

    /// The first step of a poll: the future in flight, else the iterator.
    pub fn resume<V>(&self) -> (r: Step<Option<V>>)
        ensures
            r == held_resume::<Fut, V>(self.held()),
    {
        if self.state.is_some() {
            Step::PollHeld
        } else {
            Step::PollIter
        }
    }

    /// The step to take after the underlying iterator answered `polled`:
    /// a success starts its future, a failure is passed on.
    pub fn on_iter<T, U, E>(&mut self, polled: Poll<Option<Result<T, E>>>) -> (r: Step<
        Option<Result<U, E>>,
    >) where F: FnMut(T) -> Fut
        requires
            old(self).held() is None,
            polled matches Poll::Ready(Some(Ok(v))) ==> call_requires(old(self).func(), (v,)),
        ensures
            final(self).iter() == old(self).iter(),
            final(self).func() == old(self).func(),
            (final(self).held(), r) == and_then_async_on_iter::<T, U, E, Fut>(
                polled,
                final(self).held()->0,
            ),
            match polled {
                Poll::Ready(Some(Ok(v))) => r == Step::<Option<Result<U, E>>>::PollHeld && (final(self).held() matches Some(fut)
                    && call_ensures(old(self).func(), (v,), fut)),
                Poll::Ready(Some(Err(e))) => r == Step::<Option<Result<U, E>>>::Finish(Poll::Ready(Some(Err(e))))
                    && final(self).held() is None,
                _ => r == Step::<Option<Result<U, E>>>::Finish(polled_none_or_pending::<T, U, E>(polled))
                    && final(self).held() is None,
            },
    {
        match polled {
            Poll::Pending => Step::Finish(Poll::Pending),
            Poll::Ready(None) => Step::Finish(Poll::Ready(None)),
            Poll::Ready(Some(Ok(value))) => {
                self.state = Some((self.f)(value));
                Step::PollHeld
            },
            Poll::Ready(Some(Err(error))) => Step::Finish(Poll::Ready(Some(Err(error)))),
        }
    }

    /// The step to take after the future in flight answered `polled`:
    /// its output is the next item.
    pub fn on_held<V>(&mut self, polled: Poll<V>) -> (r: Step<Option<V>>)
        requires
            old(self).held() is Some,
        ensures
            final(self).iter() == old(self).iter(),
            final(self).func() == old(self).func(),
            (final(self).held(), r) == held_output_on_held(old(self).held(), polled),
            match polled {
                Poll::Pending => r == Step::<Option<V>>::Finish(Poll::Pending) && final(self).held()
                    == old(self).held(),
                Poll::Ready(y) => r == Step::<Option<V>>::Finish(Poll::Ready(Some(y)))
                    && final(self).held() is None,
            },
    {
        match polled {
            Poll::Pending => Step::Finish(Poll::Pending),
            Poll::Ready(item) => {
                self.state = None;
                Step::Finish(Poll::Ready(Some(item)))
            },
        }
    }

    /// The underlying hint, counting the item the future in flight will yield.
    pub fn size_hint(&self, iter_hint: SizeHint) -> (r: SizeHint)
        ensures
            r == crate::poll::held_hint(iter_hint, self.held() is Some),
            r == (if self.held() is Some {
                crate::poll::add_one_spec(iter_hint)
            } else {
                iter_hint
            }),
    {
        if self.state.is_some() {
            crate::poll::hint_add_one(iter_hint)
        } else {
            iter_hint
        }
    }

    /// Ended when the future in flight, or else the underlying iterator, has ended.
    pub fn is_terminated(&self, iter_terminated: bool, held_terminated: bool) -> (r: bool)
        ensures
            r == (if self.held() is Some {
                held_terminated
            } else {
                iter_terminated
            }),
    {
        if self.state.is_some() {
            held_terminated
        } else {
            iter_terminated
        }
    }
}

} // verus!
