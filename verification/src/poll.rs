//! The answer of one poll, the steps a combinator asks its driver to take
//! within one poll, and the arithmetic of size hints.

use vstd::prelude::*;

verus! {

/// The answer of one poll of an asynchronous computation.
#[derive(Clone, Copy, PartialEq, Eq, Debug)]
pub enum Poll<T> {
    Ready(T),
    Pending,
}

impl<T> Poll<T> {
    pub fn is_ready(&self) -> (r: bool)
        ensures
            r == (*self is Ready),
    {
        match self {
            Poll::Ready(_) => true,
            Poll::Pending => false,
        }
    }

    pub fn is_pending(&self) -> (r: bool)
        ensures
            r == (*self is Pending),
    {
        match self {
            Poll::Ready(_) => false,
            Poll::Pending => true,
        }
    }
}

/// What the driver of a combinator does next within the current poll.
///
/// The driver owns the underlying async iterator and the executor context;
/// the combinator owns its state and decides.
#[derive(PartialEq, Eq, Debug)]
pub enum Step<R> {
    /// Poll the underlying async iterator and report its answer.
    PollIter,
    /// Poll the future (or sub-iterator) the combinator holds and report its answer.
    PollHeld,
    /// End the current poll with this answer.
    Finish(Poll<R>),
}

/// A size hint: a lower bound and an optional upper bound on the number of
/// items still to come.
pub type SizeHint = (usize, Option<usize>);

/// An upper bound raised by one; `None` (no bound) when it overflows.
pub open spec fn upper_plus_one(high: Option<usize>) -> Option<usize> {
    match high {
        Some(h) => if h + 1 <= usize::MAX {
            Some((h + 1) as usize)
        } else {
            None
        },
        None => None,
    }
}

/// A lower bound raised by one, saturating at `usize::MAX`.
pub open spec fn lower_plus_one(low: usize) -> usize {
    if low + 1 <= usize::MAX {
        (low + 1) as usize
    } else {
        usize::MAX
    }
}

/// A hint is consistent when its upper bound, if any, is not below its lower bound.
pub open spec fn hint_is_consistent(hint: SizeHint) -> bool {
    match hint.1 {
        Some(high) => hint.0 <= high,
        None => true,
    }
}

/// Raises an upper bound by one item; an overflow means no bound.
pub fn upper_add_one(high: Option<usize>) -> (r: Option<usize>)
    ensures
        r == upper_plus_one(high),
{
    match high {
        Some(h) => h.checked_add(1),
        None => None,
    }
}

/// Raises a lower bound by one item, saturating.
pub fn lower_add_one(low: usize) -> (r: usize)
    ensures
        r == lower_plus_one(low),
{
    low.saturating_add(1)
}

/// A hint that counts one more item.
pub open spec fn add_one_spec(hint: SizeHint) -> SizeHint {
    (lower_plus_one(hint.0), upper_plus_one(hint.1))
}

/// Whether the hint allows exactly `n` more items: `n` is at least its
/// lower bound and at most its upper bound, if any.
pub open spec fn hint_allows(hint: SizeHint, n: int) -> bool {
    hint.0 <= n && (hint.1 matches Some(high) ==> n <= high)
}

/// The hint of a combinator that answers one item for each underlying
/// item, counting the item it already holds if `held`.
pub open spec fn held_hint(iter_hint: SizeHint, held: bool) -> SizeHint {
    if held {
        add_one_spec(iter_hint)
    } else {
        iter_hint
    }
}

/// The hint of a combinator that answers at most one item for each
/// underlying item (and for the item it holds, if `held`): no lower bound.
pub open spec fn at_most_hint(iter_hint: SizeHint, held: bool) -> SizeHint {
    (0usize, if held {
        upper_plus_one(iter_hint.1)
    } else {
        iter_hint.1
    })
}

/// Counts one more item that a combinator already holds.
pub fn hint_add_one(hint: SizeHint) -> (r: SizeHint)
    ensures
        r == add_one_spec(hint),
        hint_is_consistent(hint) ==> hint_is_consistent(r),
{
    (lower_add_one(hint.0), upper_add_one(hint.1))
}

} // verus!
