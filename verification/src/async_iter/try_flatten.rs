//! `TryFlatten`: flattens the successes of a fallible iterator of sub-iterators.

use vstd::prelude::*;
use crate::poll::{Poll, Step, SizeHint};
use crate::async_iter::flatten::{flatten_on_held_step, flatten_hint, flatten_size_hint};

verus! {

/// The step `TryFlatten` takes when the outer iterator answered `polled`.
pub open spec fn try_flatten_on_iter_step<S, T, E>(polled: Poll<Option<Result<S, E>>>) -> Step<
    Option<Result<T, E>>,
> {
    match polled {
        Poll::Pending => Step::Finish(Poll::Pending),
        Poll::Ready(None) => Step::Finish(Poll::Ready(None)),
        Poll::Ready(Some(Ok(_))) => Step::PollHeld,
        Poll::Ready(Some(Err(e))) => Step::Finish(Poll::Ready(Some(Err(e)))),
    }
}

/// Yields, in order, the items of each sub-iterator `S` of the successes
/// `Ok(S)` that `iter` yields, and every failure `Err(e)` of `iter` as an
/// item `Err(e)` of its own.
///
/// One sub-iterator is held at a time; the outer iterator is polled again
/// only once it has ended.
#[derive(Clone)]
pub struct TryFlatten<I, S> {
    sub: Option<S>,
    iter: I,
}

impl<I, S> TryFlatten<I, S> {
    pub closed spec fn iter(&self) -> I {
        self.iter
    }

    /// The sub-iterator being drained, if any.
    pub closed spec fn sub(&self) -> Option<S> {
        self.sub
    }

    pub fn new(iter: I) -> (r: Self)
        ensures
            r.iter() == iter,
            r.sub() is None,
    {
        TryFlatten { sub: None, iter }
    }

    /// The outer async iterator, for the driver to poll.
    pub fn iter_mut(&mut self) -> (r: &mut I)
        ensures
            *r == old(self).iter(),
            final(self).iter() == *final(r),
            final(self).sub() == old(self).sub(),
    {
        &mut self.iter
    }

    /// The underlying async iterator, for the driver to read.
    pub fn iter_ref(&self) -> (r: &I)
        ensures
            *r == self.iter(),
    {
        &self.iter
    }

    /// The current sub-iterator, for the driver to poll.
    pub fn held_mut(&mut self) -> (r: &mut S)
        requires
            old(self).sub() is Some,
        ensures
            *r == old(self).sub()->0,
            final(self).sub() == Some(*final(r)),
            final(self).iter() == old(self).iter(),
    {
        match &mut self.sub {
            Some(sub) => sub,
            None => vstd::pervasive::unreached(),
        }
    }

    /// The first step of a poll: the current sub-iterator, else the outer one.
    pub fn resume<T>(&self) -> (r: Step<Option<T>>)
        ensures
            r == crate::async_iter::flatten::flatten_resume::<S, T>(self.sub()),
    {
        if self.sub.is_some() {
            Step::PollHeld
        } else {
            Step::PollIter
        }
    }

    /// The step to take after the outer iterator answered `polled`: a
    /// success is held as the sub-iterator polled next, a failure is
    /// passed on.
    pub fn on_iter<T, E>(&mut self, polled: Poll<Option<Result<S, E>>>) -> (r: Step<Option<Result<T, E>>>)
        requires
            old(self).sub() is None,
        ensures
            r == try_flatten_on_iter_step::<S, T, E>(polled),
            final(self).iter() == old(self).iter(),
            final(self).sub() == (match polled {
                Poll::Ready(Some(Ok(s))) => Some(s),
                _ => None,
            }),
    {
        match polled {
            Poll::Pending => Step::Finish(Poll::Pending),
            Poll::Ready(None) => Step::Finish(Poll::Ready(None)),
            Poll::Ready(Some(Ok(sub))) => {
                self.sub = Some(sub);
                Step::PollHeld
            },
            Poll::Ready(Some(Err(error))) => Step::Finish(Poll::Ready(Some(Err(error)))),
        }
    }

    /// The step to take after the current sub-iterator answered `polled`:
    /// its items are yielded, its end drops it.
    pub fn on_held<T>(&mut self, polled: Poll<Option<T>>) -> (r: Step<Option<T>>)
        requires
            old(self).sub() is Some,
        ensures
            r == flatten_on_held_step(polled),
            final(self).iter() == old(self).iter(),
            final(self).sub() == (if polled == Poll::<Option<T>>::Ready(None) {
                None
            } else {
                old(self).sub()
            }),
    {
        match polled {
            Poll::Pending => Step::Finish(Poll::Pending),
            Poll::Ready(Some(item)) => Step::Finish(Poll::Ready(Some(item))),
            Poll::Ready(None) => {
                self.sub = None;
                Step::PollIter
            },
        }
    }

    /// The hint from the outer iterator's and, when one is held, the
    /// current sub-iterator's (`sub_hint` is not read otherwise).
    pub fn size_hint(&self, iter_hint: SizeHint, sub_hint: SizeHint) -> (r: SizeHint)
        ensures
            r == flatten_hint(
                iter_hint,
                if self.sub() is Some {
                    Some(sub_hint)
                } else {
                    None
                },
            ),
    {
        if self.sub.is_some() {
            flatten_size_hint(iter_hint, Some(sub_hint))
        } else {
            flatten_size_hint(iter_hint, None)
        }
    }

    /// Ended when the current sub-iterator, or else the outer iterator, has ended.
    pub fn is_terminated(&self, iter_terminated: bool, sub_terminated: bool) -> (r: bool)
        ensures
            r == (if self.sub() is Some {
                sub_terminated
            } else {
                iter_terminated
            }),
    {
        if self.sub.is_some() {
            sub_terminated
        } else {
            iter_terminated
        }
    }
}

} // verus!
