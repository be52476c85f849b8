//! `Flatten`: yields the items of every sub-iterator the outer iterator yields.

use vstd::prelude::*;
use crate::poll::{Poll, Step, SizeHint};

verus! {

/// The step `Flatten` takes when the outer iterator answered `polled`.
pub open spec fn flatten_on_iter_step<S, T>(polled: Poll<Option<S>>) -> Step<Option<T>> {
    match polled {
        Poll::Pending => Step::Finish(Poll::Pending),
        Poll::Ready(None) => Step::Finish(Poll::Ready(None)),
        Poll::Ready(Some(_)) => Step::PollHeld,
    }
}

/// The first step of a poll of a flattening iterator holding `sub` (or none).
pub open spec fn flatten_resume<S, T>(sub: Option<S>) -> Step<Option<T>> {
    if sub is Some {
        Step::PollHeld
    } else {
        Step::PollIter
    }
}

/// The step `Flatten` takes when the current sub-iterator answered `polled`.
pub open spec fn flatten_on_held_step<T>(polled: Poll<Option<T>>) -> Step<Option<T>> {
    match polled {
        Poll::Pending => Step::Finish(Poll::Pending),
        Poll::Ready(Some(x)) => Step::Finish(Poll::Ready(Some(x))),
        Poll::Ready(None) => Step::PollIter,
    }
}

/// The hint of a flattening iterator: what the current sub-iterator (if
/// any) may yield, unbounded above while the outer iterator may yield more.
pub open spec fn flatten_hint(iter_hint: SizeHint, sub_hint: Option<SizeHint>) -> SizeHint {
    let has_more = iter_hint.1 != Some(0usize);
    match sub_hint {
        None => (0usize, if has_more { None } else { Some(0usize) }),
        Some(h) => if has_more { (h.0, None) } else { h },
    }
}

/// Computes [`flatten_hint`].
pub fn flatten_size_hint(iter_hint: SizeHint, sub_hint: Option<SizeHint>) -> (r: SizeHint)
    ensures
        r == flatten_hint(iter_hint, sub_hint),
{
    let has_more = match iter_hint.1 {
        Some(high) => high != 0,
        None => true,
    };
    match sub_hint {
        None => (0, if has_more { None } else { Some(0) }),
        Some(h) => if has_more { (h.0, None) } else { h },
    }
}

/// Yields, in order, the items of each sub-iterator `S` that `iter` yields.
///
/// One sub-iterator is held at a time; the outer iterator is polled again
/// only once it has ended.
#[derive(Clone)]
pub struct Flatten<I, S> {
    sub: Option<S>,
    iter: I,
}

impl<I, S> Flatten<I, S> {
    pub closed spec fn iter(&self) -> I {
        self.iter
    }

    /// The sub-iterator being drained, if any.
    pub closed spec fn sub(&self) -> Option<S> {
        self.sub
    }

    pub fn new(iter: I) -> (r: Self)
        ensures
            r.iter() == iter,
            r.sub() is None,
    {
        Flatten { sub: None, iter }
    }

    /// The outer async iterator, shared.
    pub fn iter_ref(&self) -> (r: &I)
        ensures
            *r == self.iter(),
    {
        &self.iter
    }

    /// The current sub-iterator, if any, for the driver to read.
    pub fn sub_ref(&self) -> (r: Option<&S>)
        ensures
            r == (match self.sub() {
                Some(sub) => Some(&sub),
                None => None,
            }),
    {
        match &self.sub {
            Some(sub) => Some(sub),
            None => None,
        }
    }

    /// The outer async iterator, for the driver to poll.
    pub fn iter_mut(&mut self) -> (r: &mut I)
        ensures
            *r == old(self).iter(),
            final(self).iter() == *final(r),
            final(self).sub() == old(self).sub(),
    {
        &mut self.iter
    }

    /// The current sub-iterator, for the driver to poll.
    pub fn held_mut(&mut self) -> (r: &mut S)
        requires
            old(self).sub() is Some,
        ensures
            *r == old(self).sub()->0,
            final(self).sub() == Some(*final(r)),
            final(self).iter() == old(self).iter(),
    {
        match &mut self.sub {
            Some(sub) => sub,
            None => vstd::pervasive::unreached(),
        }
    }

    /// The first step of a poll: the current sub-iterator, else the outer one.
    pub fn resume<T>(&self) -> (r: Step<Option<T>>)
        ensures
            r == crate::async_iter::flatten::flatten_resume::<S, T>(self.sub()),
    {
        if self.sub.is_some() {
            Step::PollHeld
        } else {
            Step::PollIter
        }
    }

    /// The step to take after the outer iterator answered `polled`: a new
    /// sub-iterator is held and polled next.
    pub fn on_iter<T>(&mut self, polled: Poll<Option<S>>) -> (r: Step<Option<T>>)
        requires
            old(self).sub() is None,
        ensures
            r == flatten_on_iter_step::<S, T>(polled),
            final(self).iter() == old(self).iter(),
            final(self).sub() == (match polled {
                Poll::Ready(Some(s)) => Some(s),
                _ => None,
            }),
    {
        match polled {
            Poll::Pending => Step::Finish(Poll::Pending),
            Poll::Ready(None) => Step::Finish(Poll::Ready(None)),
            Poll::Ready(Some(sub)) => {
                self.sub = Some(sub);
                Step::PollHeld
            },
        }
    }

    /// The step to take after the current sub-iterator answered `polled`:
    /// its items are yielded, its end drops it.
    pub fn on_held<T>(&mut self, polled: Poll<Option<T>>) -> (r: Step<Option<T>>)
        requires
            old(self).sub() is Some,
        ensures
            r == flatten_on_held_step(polled),
            final(self).iter() == old(self).iter(),
            final(self).sub() == (if polled == Poll::<Option<T>>::Ready(None) {
                None
            } else {
                old(self).sub()
            }),
    {
        match polled {
            Poll::Pending => Step::Finish(Poll::Pending),
            Poll::Ready(Some(item)) => Step::Finish(Poll::Ready(Some(item))),
            Poll::Ready(None) => {
                self.sub = None;
                Step::PollIter
            },
        }
    }

    /// The hint from the outer iterator's and, when one is held, the
    /// current sub-iterator's (`sub_hint` is not read otherwise).
    pub fn size_hint(&self, iter_hint: SizeHint, sub_hint: SizeHint) -> (r: SizeHint)
        ensures
            r == flatten_hint(
                iter_hint,
                if self.sub() is Some {
                    Some(sub_hint)
                } else {
                    None
                },
            ),
    {
        if self.sub.is_some() {
            flatten_size_hint(iter_hint, Some(sub_hint))
        } else {
            flatten_size_hint(iter_hint, None)
        }
    }

    /// Ended when the current sub-iterator, or else the outer iterator, has ended.
    pub fn is_terminated(&self, iter_terminated: bool, sub_terminated: bool) -> (r: bool)
        ensures
            r == (if self.sub() is Some {
                sub_terminated
            } else {
                iter_terminated
            }),
    {
        if self.sub.is_some() {
            sub_terminated
        } else {
            iter_terminated
        }
    }
}

} // verus!
