//! `SkipWhile`: drops items while a predicate holds, then passes everything on.

use vstd::prelude::*;
use crate::poll::{Poll, Step, SizeHint};

verus! {

/// The step `SkipWhile` takes on the underlying answer `polled`, while still
/// skipping, given the predicate's verdict `skip` on the item it carries.
pub open spec fn skip_while_step<T>(polled: Poll<Option<T>>, skip: bool) -> Step<Option<T>> {
    match polled {
        Poll::Ready(Some(x)) => if skip {
            Step::PollIter
        } else {
            Step::Finish(Poll::Ready(Some(x)))
        },
        _ => Step::Finish(polled),
    }
}

/// Skips the leading items of `iter` for which `f` holds.
///
/// The predicate is dropped at the first item it rejects; from then on the
/// underlying answers are passed on unchanged.
#[derive(Clone)]
pub struct SkipWhile<I, F> {
    iter: I,
    state: Option<F>,
}

impl<I, F> SkipWhile<I, F> {
    pub closed spec fn iter(&self) -> I {
        self.iter
    }

    /// The predicate, while items are still being skipped.
    pub closed spec fn skipping(&self) -> Option<F> {
        self.state
    }

    pub fn new(iter: I, f: F) -> (r: Self)
        ensures
            r.iter() == iter,
            r.skipping() == Some(f),
    {
        SkipWhile { iter, state: Some(f) }
    }

    /// The underlying async iterator, for the driver to poll.
    pub fn iter_mut(&mut self) -> (r: &mut I)
        ensures
            *r == old(self).iter(),
            final(self).iter() == *final(r),
            final(self).skipping() == old(self).skipping(),
    {
        &mut self.iter
    }

    /// The underlying async iterator, for the driver to read.
    pub fn iter_ref(&self) -> (r: &I)
        ensures
            *r == self.iter(),
    {
        &self.iter
    }

    /// The step to take after the underlying iterator answered `polled`.
    pub fn on_iter<T>(&mut self, polled: Poll<Option<T>>) -> (r: Step<Option<T>>) where
        F: FnMut(&T) -> bool,

        requires
            old(self).skipping() matches Some(f) ==> (polled matches Poll::Ready(Some(x))
                ==> call_requires(f, (&x,))),
        ensures
            final(self).iter() == old(self).iter(),
            match old(self).skipping() {
                None => r == Step::Finish(polled) && final(self).skipping() is None,
                Some(f) => match polled {
                    Poll::Ready(Some(x)) => call_ensures(f, (&x,), r is PollIter) && r
                        == skip_while_step(polled, r is PollIter) && final(self).skipping()
                        == (if r is PollIter {
                        Some(f)
                    } else {
                        None
                    }),
                    _ => r == skip_while_step(polled, false) && final(self).skipping() == Some(
                        f,
                    ),
                },
            },
    {
        match &mut self.state {
            None => Step::Finish(polled),
            Some(f) => match polled {
                Poll::Pending => Step::Finish(Poll::Pending),
                Poll::Ready(None) => Step::Finish(Poll::Ready(None)),
                Poll::Ready(Some(item)) => {
                    let skip = f(&item);
                    if skip {
                        Step::PollIter
                    } else {
                        self.state = None;
                        Step::Finish(Poll::Ready(Some(item)))
                    }
                },
            },
        }
    }

    /// While skipping, no item is sure to come.
    pub fn size_hint(&self, iter_hint: SizeHint) -> (r: SizeHint)
        ensures
            r == (if self.skipping() is Some { crate::poll::at_most_hint(iter_hint, false) } else { crate::poll::held_hint(iter_hint, false) }),
            r == (if self.skipping() is Some {
                (0usize, iter_hint.1)
            } else {
                iter_hint
            }),
    {
        let mut candidate = iter_hint;
        if self.state.is_some() {
            candidate.0 = 0;
        }
        candidate
    }
}

} // verus!
