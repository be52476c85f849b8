//! `Fuse`: answers `None` forever once the underlying iterator has ended.

use vstd::prelude::*;
use crate::poll::{Poll, Step, SizeHint};

verus! {

/// The first step of a poll of `Fuse`, while the underlying iterator is
/// still polled (`active`) or not.
pub open spec fn fuse_resume<T>(active: bool) -> Step<Option<T>> {
    if active {
        Step::PollIter
    } else {
        Step::Finish(Poll::Ready(None))
    }
}

/// Whether `Fuse` still polls the underlying iterator after it answered `polled`.
pub open spec fn fuse_still_active<T>(polled: Poll<Option<T>>) -> bool {
    polled != Poll::<Option<T>>::Ready(None)
}

/// Polls `iter` until it answers `None`, then drops it and answers `None`
/// from then on without polling.
#[derive(Clone)]
pub struct Fuse<I> {
    iter: Option<I>,
}

impl<I> Fuse<I> {
    /// The underlying async iterator, until it has ended.
    pub closed spec fn iter(&self) -> Option<I> {
        self.iter
    }

    pub fn new(iter: I) -> (r: Self)
        ensures
            r.iter() == Some(iter),
    {
        Fuse { iter: Some(iter) }
    }

    /// The first step of a poll: poll the underlying iterator, or answer
    /// `None` at once when it has ended.
    pub fn resume<T>(&self) -> (r: Step<Option<T>>)
        ensures
            r == fuse_resume::<T>(self.iter() is Some),
    {
        if self.iter.is_some() {
            Step::PollIter
        } else {
            Step::Finish(Poll::Ready(None))
        }
    }

    /// The underlying async iterator, for the driver to poll.
    pub fn iter_mut(&mut self) -> (r: &mut I)
        requires
            old(self).iter() is Some,
        ensures
            *r == old(self).iter()->0,
            final(self).iter() == Some(*final(r)),
    {
        match &mut self.iter {
            Some(iter) => iter,
            None => vstd::pervasive::unreached(),
        }
    }

    /// The underlying async iterator, unless it has ended, for the driver to read.
    pub fn iter_ref(&self) -> (r: Option<&I>)
        ensures
            r == (match self.iter() {
                Some(iter) => Some(&iter),
                None => None,
            }),
    {
        match &self.iter {
            Some(iter) => Some(iter),
            None => None,
        }
    }

    /// Answers one poll from the underlying answer `polled`; the end of the
    /// underlying iterator drops it.
    pub fn on_iter<T>(&mut self, polled: Poll<Option<T>>) -> (r: Poll<Option<T>>)
        requires
            old(self).iter() is Some,
        ensures
            r == polled,
            final(self).iter() == (if fuse_still_active(polled) {
                old(self).iter()
            } else {
                None
            }),
    {
        if let Poll::Ready(None) = polled {
            self.iter = None;
        }
        polled
    }

    /// Nothing comes once the underlying iterator has ended.
    pub fn size_hint(&self, iter_hint: SizeHint) -> (r: SizeHint)
        ensures
            r == (if self.iter() is Some {
                iter_hint
            } else {
                (0usize, Some(0usize))
            }),
    {
        match &self.iter {
            Some(_) => iter_hint,
            None => (0, Some(0)),
        }
    }

    /// Whether the underlying iterator has ended.
    pub fn is_terminated(&self) -> (r: bool)
        ensures
            r == (self.iter() is None),
    {
        self.iter.is_none()
    }
}

} // verus!
