//! What the size hints of the combinators promise: given what the hints of
//! the underlying iterators allow, a combined hint allows every number of
//! items that can still come, and (below `usize::MAX`) no other.

use vstd::prelude::*;
use crate::poll::{SizeHint, hint_allows, hint_is_consistent, held_hint, at_most_hint};
use crate::async_iter::zip::{ZipBuffer, zip_hint};
use crate::async_iter::flatten::flatten_hint;

verus! {

/// The number of items a combinator holds ahead: one if `held`.
pub open spec fn held_count(held: bool) -> int {
    if held {
        1
    } else {
        0
    }
}

/// A combinator that answers one item for each underlying item, and one
/// for the item it holds: when the underlying iterator may still yield `n`
/// items, its hint allows `n` more, plus the held one.
pub proof fn lemma_held_hint_sound(iter_hint: SizeHint, held: bool, n: int)
    requires
        hint_allows(iter_hint, n),
    ensures
        hint_allows(held_hint(iter_hint, held), n + held_count(held)),
{
}

/// ... and every count below `usize::MAX` that its hint allows is one the
/// underlying iterator may still yield, plus the held item.
pub proof fn lemma_held_hint_exact(iter_hint: SizeHint, held: bool, k: int)
    requires
        hint_allows(held_hint(iter_hint, held), k),
        k < usize::MAX,
    ensures
        hint_allows(iter_hint, k - held_count(held)),
{
}

/// A combinator that answers at most one item for each underlying item
/// (and for the item it holds): when the underlying iterator may still
/// yield `n` items, its hint allows any count from none up to `n` plus the
/// held one.
pub proof fn lemma_at_most_hint_sound(iter_hint: SizeHint, held: bool, n: int, k: int)
    requires
        hint_allows(iter_hint, n),
        0 <= k <= n + held_count(held),
    ensures
        hint_allows(at_most_hint(iter_hint, held), k),
{
}

/// ... and every count up to `usize::MAX` that its hint allows can come:
/// the underlying iterator may yield enough items for it.
pub proof fn lemma_at_most_hint_exact(iter_hint: SizeHint, held: bool, k: int)
    requires
        hint_is_consistent(iter_hint),
        hint_allows(at_most_hint(iter_hint, held), k),
        k <= usize::MAX,
    ensures
        exists|n: int| #[trigger] hint_allows(iter_hint, n) && k <= n + held_count(held),
{
    let n: int = if k - held_count(held) <= iter_hint.0 {
        iter_hint.0 as int
    } else {
        k - held_count(held)
    };
    assert(hint_allows(iter_hint, n) && k <= n + held_count(held));
}

/// The number of pairs `Zip` answers when its left side still yields `nl`
/// items and its right side `nr`, counting the item it holds ahead: the
/// fewer of the two sides' counts.
pub open spec fn zip_pairs<TA, TB>(buffer: ZipBuffer<TA, TB>, nl: int, nr: int) -> int {
    let l = nl + held_count(buffer is B);
    let r = nr + held_count(buffer is C);
    if l <= r {
        l
    } else {
        r
    }
}

/// `Zip`'s hint allows every number of pairs that can still come: whatever
/// counts the two sides' hints allow, the pairs they make are allowed. In
/// particular its lower bound is at most each side's, and its upper bound
/// at most each side's that has one.
pub proof fn lemma_zip_hint_sound<TA, TB>(
    buffer: ZipBuffer<TA, TB>,
    left_hint: SizeHint,
    right_hint: SizeHint,
    nl: int,
    nr: int,
)
    requires
        hint_allows(left_hint, nl),
        hint_allows(right_hint, nr),
    ensures
        hint_allows(zip_hint(buffer, left_hint, right_hint), zip_pairs(buffer, nl, nr)),
{
}

/// ... and every count below `usize::MAX` that `Zip`'s hint allows is the
/// number of pairs of some counts that the two sides' hints allow.
pub proof fn lemma_zip_hint_exact<TA, TB>(
    buffer: ZipBuffer<TA, TB>,
    left_hint: SizeHint,
    right_hint: SizeHint,
    k: int,
)
    requires
        hint_is_consistent(left_hint),
        hint_is_consistent(right_hint),
        hint_allows(zip_hint(buffer, left_hint, right_hint), k),
        k < usize::MAX,
    ensures
        exists|nl: int, nr: int|
            hint_allows(left_hint, nl) && hint_allows(right_hint, nr) && #[trigger] zip_pairs(
                buffer,
                nl,
                nr,
            ) == k,
{
    let hl = held_count(buffer is B);
    let hr = held_count(buffer is C);
    let nl: int = if k - hl <= left_hint.0 {
        left_hint.0 as int
    } else {
        k - hl
    };
    let nr: int = if k - hr <= right_hint.0 {
        right_hint.0 as int
    } else {
        k - hr
    };
    assert(hint_allows(left_hint, nl) && hint_allows(right_hint, nr) && zip_pairs(buffer, nl, nr)
        == k);
}

/// Whether a flattening iterator can still yield `n_sub` items of the
/// sub-iterator it holds (none if it holds none) and `later` items of the
/// sub-iterators still to come, when its outer iterator still yields
/// `n_outer` sub-iterators: the counts fit the hints, and a later item
/// needs at least one more sub-iterator, which may yield any number.
pub open spec fn flatten_counts_fit(
    iter_hint: SizeHint,
    sub_hint: Option<SizeHint>,
    n_outer: int,
    n_sub: int,
    later: int,
) -> bool {
    &&& hint_allows(iter_hint, n_outer)
    &&& match sub_hint {
        Some(h) => hint_allows(h, n_sub),
        None => n_sub == 0,
    }
    &&& 0 <= later
    &&& n_outer == 0 ==> later == 0
}

/// A flattening iterator's hint allows every number of items that can still
/// come: so it has no upper bound while it holds a sub-iterator and the
/// outer iterator may still yield another.
pub proof fn lemma_flatten_hint_sound(
    iter_hint: SizeHint,
    sub_hint: Option<SizeHint>,
    n_outer: int,
    n_sub: int,
    later: int,
)
    requires
        flatten_counts_fit(iter_hint, sub_hint, n_outer, n_sub, later),
    ensures
        hint_allows(flatten_hint(iter_hint, sub_hint), n_sub + later),
{
}

/// ... and every count that its hint allows can come, given consistent
/// hints of the outer iterator and of the sub-iterator it holds.
pub proof fn lemma_flatten_hint_exact(iter_hint: SizeHint, sub_hint: Option<SizeHint>, k: int)
    requires
        hint_is_consistent(iter_hint),
        sub_hint matches Some(h) ==> hint_is_consistent(h),
        hint_allows(flatten_hint(iter_hint, sub_hint), k),
    ensures
        exists|n_outer: int, n_sub: int, later: int|
            #[trigger] flatten_counts_fit(iter_hint, sub_hint, n_outer, n_sub, later) && n_sub
                + later == k,
{
    let n_sub: int = match sub_hint {
        Some(h) => match h.1 {
            Some(u) => if k <= u {
                k
            } else {
                u as int
            },
            None => k,
        },
        None => 0,
    };
    let later: int = k - n_sub;
    let n_outer: int = if later == 0 || iter_hint.0 >= 1 {
        iter_hint.0 as int
    } else {
        1
    };
    assert(flatten_counts_fit(iter_hint, sub_hint, n_outer, n_sub, later) && n_sub + later == k);
}

} // verus!
