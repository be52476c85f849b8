//! `SkipWhileAsync`: drops items while an asynchronous predicate accepts
//! them, then passes everything on.

use vstd::prelude::*;
use crate::async_iter::states::PredicateState;
use crate::poll::{Poll, Step, SizeHint};

verus! {

/// The predicate of `SkipWhileAsync`, with the item waiting for its verdict.
#[derive(Clone)]
pub struct SkipState<F, T, Fut> {
    pub predicate_state: PredicateState<T, Fut>,
    pub f: F,
}

/// The first step of a poll of `SkipWhileAsync`: the verdict in flight, else the iterator.
pub open spec fn skip_while_async_resume<F, T, Fut>(skipping: Option<SkipState<F, T, Fut>>) -> Step<Option<T>> {
    if skipping matches Some(s) && s.predicate_state is Polling {
        Step::PollHeld
    } else {
        Step::PollIter
    }
}

/// The state and step of `SkipWhileAsync` after the underlying iterator
/// answered `polled`, where `fut` is the future the predicate returns for the item.
pub open spec fn skip_while_async_on_iter<F, T, Fut>(
    skipping: Option<SkipState<F, T, Fut>>,
    polled: Poll<Option<T>>,
    fut: Fut,
) -> (Option<SkipState<F, T, Fut>>, Step<Option<T>>) {
    match skipping {
        None => (None, Step::Finish(polled)),
        Some(s) => match polled {
            Poll::Ready(Some(x)) => (
                Some(SkipState { predicate_state: PredicateState::Polling { item: x, fut }, f: s.f }),
                Step::PollHeld,
            ),
            _ => (skipping, Step::Finish(polled)),
        },
    }
}

/// The state and step of `SkipWhileAsync` after the predicate's future answered `polled`.
pub open spec fn skip_while_async_on_held<F, T, Fut>(
    skipping: Option<SkipState<F, T, Fut>>,
    polled: Poll<bool>,
) -> (Option<SkipState<F, T, Fut>>, Step<Option<T>>) {
    match polled {
        Poll::Pending => (skipping, Step::Finish(Poll::Pending)),
        Poll::Ready(true) => (
            Some(SkipState { predicate_state: PredicateState::Empty, f: skipping->0.f }),
            Step::PollIter,
        ),
        Poll::Ready(false) => (
            None,
            Step::Finish(Poll::Ready(Some(skipping->0.predicate_state->item))),
        ),
    }
}

/// Skips the leading items `x` of `iter` for which the future `f(&x)`
/// resolves to `true`.
///
/// The predicate is dropped at the first item it rejects; from then on the
/// underlying answers are passed on unchanged.
#[derive(Clone)]
pub struct SkipWhileAsync<I, F, T, Fut> {
    iter: I,
    state: Option<SkipState<F, T, Fut>>,
}

impl<I, F, T, Fut> SkipWhileAsync<I, F, T, Fut> {
    pub closed spec fn iter(&self) -> I {
        self.iter
    }

    /// The predicate and its waiting item, while items are still being skipped.
    pub closed spec fn skipping(&self) -> Option<SkipState<F, T, Fut>> {
        self.state
    }

    pub fn new(iter: I, f: F) -> (r: Self)
        ensures
            r.iter() == iter,
            r.skipping() == Some(SkipState { predicate_state: PredicateState::<T, Fut>::Empty, f }),
    {
        SkipWhileAsync { iter, state: Some(SkipState { predicate_state: PredicateState::Empty, f }) }
    }

    /// The underlying async iterator, for the driver to poll.
    pub fn iter_mut(&mut self) -> (r: &mut I)
        ensures
            *r == old(self).iter(),
            final(self).iter() == *final(r),
            final(self).skipping() == old(self).skipping(),
    {
        &mut self.iter
    }

    /// The underlying async iterator, for the driver to read.
    pub fn iter_ref(&self) -> (r: &I)
        ensures
            *r == self.iter(),
    {
        &self.iter
    }

    /// Whether a verdict is in flight.
    pub open spec fn waiting(&self) -> bool {
        self.skipping() matches Some(s) && s.predicate_state is Polling
    }

    /// The first step of a poll: the verdict in flight, else the iterator.
    pub fn resume(&self) -> (r: Step<Option<T>>)
        ensures
            r == skip_while_async_resume(self.skipping()),
    {
        match &self.state {
            Some(state) => match state.predicate_state.get_future() {
                Some(_) => Step::PollHeld,
                None => Step::PollIter,
            },
            None => Step::PollIter,
        }
    }

    /// The predicate's future in flight, for the driver to poll.
    pub fn held_mut(&mut self) -> (r: &mut Fut)
        requires
            old(self).waiting(),
        ensures
            *r == old(self).skipping()->0.predicate_state->fut,
            final(self).skipping() == Some(
                SkipState {
                    predicate_state: PredicateState::Polling {
                        item: old(self).skipping()->0.predicate_state->item,
                        fut: *final(r),
                    },
                    f: old(self).skipping()->0.f,
                },
            ),
            final(self).iter() == old(self).iter(),
    {
        match &mut self.state {
            Some(state) => state.predicate_state.future_mut(),
            None => vstd::pervasive::unreached(),
        }
    }

    /// The step to take after the underlying iterator answered `polled`:
    /// once skipping is over the answer is passed on; before, an item waits
    /// for the verdict of the predicate's future.
    pub fn on_iter(&mut self, polled: Poll<Option<T>>) -> (r: Step<Option<T>>) where
        F: FnMut(&T) -> Fut,

        requires
            !old(self).waiting(),
            old(self).skipping() matches Some(s) ==> (polled matches Poll::Ready(Some(x))
                ==> call_requires(s.f, (&x,))),
        ensures
            final(self).iter() == old(self).iter(),
            (final(self).skipping(), r) == skip_while_async_on_iter(
                old(self).skipping(),
                polled,
                final(self).skipping()->0.predicate_state->fut,
            ),
            match old(self).skipping() {
                None => r == Step::Finish(polled) && final(self).skipping() is None,
                Some(s) => match polled {
                    Poll::Ready(Some(x)) => r == Step::<Option<T>>::PollHeld && final(
                        self).skipping() is Some && final(self).skipping()->0.f == s.f
                        && final(self).skipping()->0.predicate_state is Polling && final(
                        self).skipping()->0.predicate_state->item == x && call_ensures(
                        s.f,
                        (&x,),
                        final(self).skipping()->0.predicate_state->fut,
                    ),
                    _ => r == Step::Finish(polled) && final(self).skipping() == old(
                        self).skipping(),
                },
            },
    {
        match &mut self.state {
            None => Step::Finish(polled),
            Some(state) => match polled {
                Poll::Pending => Step::Finish(Poll::Pending),
                Poll::Ready(None) => Step::Finish(Poll::Ready(None)),
                Poll::Ready(Some(item)) => {
                    let fut = (state.f)(&item);
                    state.predicate_state = PredicateState::Polling { item, fut };
                    Step::PollHeld
                },
            },
        }
    }

    /// The step to take after the predicate's future answered `polled`:
    /// `true` skips the item, `false` ends skipping and yields it.
    pub fn on_held(&mut self, polled: Poll<bool>) -> (r: Step<Option<T>>)
        requires
            old(self).waiting(),
        ensures
            final(self).iter() == old(self).iter(),
            (final(self).skipping(), r) == skip_while_async_on_held(old(self).skipping(), polled),
            match polled {
                Poll::Pending => r == Step::<Option<T>>::Finish(Poll::Pending) && final(
                    self).skipping() == old(self).skipping(),
                Poll::Ready(true) => r == Step::<Option<T>>::PollIter && final(self).skipping()
                    == Some(
                    SkipState {
                        predicate_state: PredicateState::<T, Fut>::Empty,
                        f: old(self).skipping()->0.f,
                    },
                ),
                Poll::Ready(false) => r == Step::<Option<T>>::Finish(
                    Poll::Ready(Some(old(self).skipping()->0.predicate_state->item)),
                ) && final(self).skipping() is None,
            },
    {
        match polled {
            Poll::Pending => Step::Finish(Poll::Pending),
            Poll::Ready(skip) => {
                let item = match &mut self.state {
                    Some(state) => state.predicate_state.take_item(),
                    None => vstd::pervasive::unreached(),
                };
                if skip {
                    Step::PollIter
                } else {
                    self.state = None;
                    Step::Finish(Poll::Ready(Some(item)))
                }
            },
        }
    }

    /// While skipping, no item is sure to come; a waiting item may still come.
    pub fn size_hint(&self, iter_hint: SizeHint) -> (r: SizeHint)
        ensures
            r == (match self.skipping() { None => crate::poll::held_hint(iter_hint, false), Some(s) => crate::poll::at_most_hint(iter_hint, s.predicate_state is Polling) }),
            r == (match self.skipping() {
                None => iter_hint,
                Some(s) => (0usize, if s.predicate_state is Polling {
                    crate::poll::upper_plus_one(iter_hint.1)
                } else {
                    iter_hint.1
                }),
            }),
    {
        let mut candidate = iter_hint;
        if let Some(state) = &self.state {
            candidate.0 = 0;
            if state.predicate_state.get_future().is_some() {
                candidate.1 = crate::poll::upper_add_one(candidate.1);
            }
        }
        candidate
    }

    /// Ended when the verdict in flight, or else the underlying iterator, has ended.
    pub fn is_terminated(&self, iter_terminated: bool, held_terminated: bool) -> (r: bool)
        ensures
            r == (if self.waiting() {
                held_terminated
            } else {
                iter_terminated
            }),
    {
        match &self.state {
            Some(state) => match state.predicate_state.get_future() {
                Some(_) => held_terminated,
                None => iter_terminated,
            },
            None => iter_terminated,
        }
    }
}

} // verus!
