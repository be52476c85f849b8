//! What the synchronous combinators answer to a driver that polls them to
//! the end, and what `Fuse` answers over any answers of its iterator.
//!
//! The underlying iterator is given by a script of its answers, as in
//! [`crate::poll_runs`]. Each `*_run` function below drives the step
//! functions that the combinators' `on_*` methods are specified by, the way
//! a poll loop does: it feeds the answers in order (a `Pending` answer ends
//! a poll, and the next one asks the iterator again), collects every item a
//! poll answers, and stops at the first answer `None`. A user function
//! enters as a spec function that gives its answer on every item. The
//! lemmas state the result in terms of `Seq`.

use vstd::prelude::*;
use crate::poll::{Poll, Step};
use crate::async_iter::filter::filter_step;
use crate::async_iter::filter_map::filter_map_step;
use crate::async_iter::take_while::take_while_answer;
use crate::async_iter::skip_while::skip_while_step;
use crate::async_iter::zip::{ZipBuffer, zip_hint};
use crate::async_iter::flatten::flatten_hint;
use crate::poll::{SizeHint, hint_is_consistent, add_one_spec};
use crate::async_iter::reduce::reduce_next;
use crate::async_iter::all::{all_step, any_step};
use crate::async_iter::try_fold::fold_step;
use crate::async_iter::fuse::{fuse_resume, fuse_still_active};
use crate::poll_runs::{
    script_items, script_ends, answered, lemma_script_ends_rest, lemma_fold_left_prepend, first_of, try_fold_left,
};
use crate::mapped_runs::first_break;
use crate::async_iter::try_fold::try_fold_step;
use crate::async_iter::try_for_each::try_for_each_step;
use core::ops::ControlFlow;

verus! {

/// The number of leading items of `s` that `p` accepts.
pub open spec fn leading_len<T>(s: Seq<T>, p: spec_fn(T) -> bool) -> nat
    decreases s.len(),
{
    if s.len() == 0 {
        0
    } else if p(s[0]) {
        1 + leading_len(s.drop_first(), p)
    } else {
        0
    }
}

/// No more leading items are accepted than there are items.
pub proof fn lemma_leading_len_bound<T>(s: Seq<T>, p: spec_fn(T) -> bool)
    ensures
        leading_len(s, p) <= s.len(),
    decreases s.len(),
{
    if s.len() > 0 {
        lemma_leading_len_bound(s.drop_first(), p);
    }
}

/// The items `Filter` answers over the script `a`, its predicate
/// answering `keep(x)` on each item `x`; a `Pending` answer ends a poll and
/// the next poll asks the iterator again.
pub open spec fn filter_run<T>(a: Seq<Poll<Option<T>>>, keep: spec_fn(T) -> bool) -> Seq<T>
    decreases a.len(),
{
    if a.len() == 0 {
        Seq::empty()
    } else {
        let rest = filter_run(a.drop_first(), keep);
        match filter_step(a[0], keep(answered(a[0]))) {
            Step::Finish(Poll::Ready(Some(y))) => seq![y] + rest,
            Step::Finish(Poll::Ready(None)) => Seq::empty(),
            _ => rest,
        }
    }
}

/// `Filter` answers exactly the items its predicate keeps, in their order,
/// and then `None`, however many times the iterator answers `Pending`.
pub proof fn lemma_filter_run<T>(a: Seq<Poll<Option<T>>>, keep: spec_fn(T) -> bool)
    ensures
        filter_run(a, keep) == script_items(a).filter(keep),
    decreases a.len(),
{
    if a.len() > 0 {
        let rest = a.drop_first();
        lemma_filter_run(rest, keep);
        match a[0] {
            Poll::Ready(Some(x)) => {
                script_items(rest).lemma_filter_prepend(x, keep);
                assert(script_items(a) == seq![x] + script_items(rest));
            },
            Poll::Ready(None) => {
                assert(script_items(a) =~= Seq::<T>::empty());
                assert(script_items(a).filter(keep) =~= Seq::<T>::empty());
            },
            Poll::Pending => {},
        }
    } else {
        assert(script_items(a).filter(keep) =~= Seq::<T>::empty());
    }
}

/// The sequence of the one item `f` maps `x` to, or the empty one.
pub open spec fn mapped_items<T, U>(x: T, f: spec_fn(T) -> Option<U>) -> Seq<U> {
    match f(x) {
        Some(y) => seq![y],
        None => Seq::empty(),
    }
}

/// Mapping an item in front of a sequence puts its image in front.
pub proof fn lemma_filter_map_prepend<T, U>(x: T, s: Seq<T>, f: spec_fn(T) -> Option<U>)
    ensures
        (seq![x] + s).filter_map(f) == mapped_items(x, f) + s.filter_map(f),
    decreases s.len(),
{
    let t = seq![x] + s;
    if s.len() == 0 {
        assert(t.drop_last() =~= Seq::<T>::empty());
        assert(t.drop_last().filter_map(f) =~= Seq::<U>::empty());
        assert(s.filter_map(f) =~= Seq::<U>::empty());
        assert(t.last() == x);
        assert(t.filter_map(f) =~= t.drop_last().filter_map(f) + mapped_items(t.last(), f));
        assert(t.filter_map(f) =~= mapped_items(x, f) + s.filter_map(f));
    } else {
        assert(t.drop_last() =~= seq![x] + s.drop_last());
        assert(t.last() == s.last());
        lemma_filter_map_prepend(x, s.drop_last(), f);
        assert(t.filter_map(f) =~= t.drop_last().filter_map(f) + mapped_items(t.last(), f));
        assert(s.filter_map(f) =~= s.drop_last().filter_map(f) + mapped_items(s.last(), f));
        assert(t.filter_map(f) =~= mapped_items(x, f) + s.filter_map(f));
    }
}

/// The items `FilterMap` answers over the script `a`, its function
/// answering `f(x)` on each item `x`.
pub open spec fn filter_map_run<T, U>(a: Seq<Poll<Option<T>>>, f: spec_fn(T) -> Option<U>) -> Seq<U>
    decreases a.len(),
{
    if a.len() == 0 {
        Seq::empty()
    } else {
        let rest = filter_map_run(a.drop_first(), f);
        match filter_map_step(a[0], f(answered(a[0]))) {
            Step::Finish(Poll::Ready(Some(y))) => seq![y] + rest,
            Step::Finish(Poll::Ready(None)) => Seq::empty(),
            _ => rest,
        }
    }
}

/// `FilterMap` answers, in order, the value of every item its function
/// maps to `Some`, and then `None`, however many times the iterator
/// answers `Pending`.
pub proof fn lemma_filter_map_run<T, U>(a: Seq<Poll<Option<T>>>, f: spec_fn(T) -> Option<U>)
    ensures
        filter_map_run(a, f) == script_items(a).filter_map(f),
    decreases a.len(),
{
    if a.len() > 0 {
        let rest = a.drop_first();
        lemma_filter_map_run(rest, f);
        match a[0] {
            Poll::Ready(Some(x)) => {
                lemma_filter_map_prepend(x, script_items(rest), f);
                assert(script_items(a) == seq![x] + script_items(rest));
                assert(filter_map_run(a, f) =~= mapped_items(x, f) + filter_map_run(rest, f));
            },
            Poll::Ready(None) => {
                assert(script_items(a) =~= Seq::<T>::empty());
                assert(script_items(a).filter_map(f) =~= Seq::<U>::empty());
            },
            Poll::Pending => {},
        }
    } else {
        assert(script_items(a).filter_map(f) =~= Seq::<U>::empty());
    }
}

/// The answer of `Fold` from the accumulator `acc` over the script `a`, its
/// getter returning `get(c)` on an accumulator `c` and leaving `rest(c)`,
/// its function answering `f(v, x)` on a value `v` and an item `x`; `None`
/// while the script has not ended.
pub open spec fn fold_run<T, X>(
    acc: T,
    a: Seq<Poll<Option<X>>>,
    get: spec_fn(T) -> T,
    rest: spec_fn(T) -> T,
    f: spec_fn(T, X) -> T,
) -> Option<T>
    decreases a.len(),
{
    if a.len() == 0 {
        None
    } else {
        let (next, step) = fold_step(acc, a[0], f(get(acc), answered(a[0])), (get(acc), rest(acc)));
        match step {
            Step::Finish(Poll::Ready(answer)) => Some(answer),
            _ => fold_run(next, a.drop_first(), get, rest, f),
        }
    }
}

/// `Fold` answers the value of the initial accumulator combined with each
/// item in turn, each time on the value the getter gives, however many
/// times the iterator answers `Pending`.
pub proof fn lemma_fold_run<T, X>(
    acc: T,
    a: Seq<Poll<Option<X>>>,
    get: spec_fn(T) -> T,
    rest: spec_fn(T) -> T,
    f: spec_fn(T, X) -> T,
    g: spec_fn(T, X) -> T,
)
    requires
        script_ends(a),
        forall|c: T, x: X| #[trigger] g(c, x) == f(get(c), x),
    ensures
        fold_run(acc, a, get, rest, f) == Some(get(script_items(a).fold_left(acc, g))),
    decreases a.len(),
{
    let tail = a.drop_first();
    match a[0] {
        Poll::Ready(Some(x)) => {
            lemma_script_ends_rest(a);
            assert(g(acc, x) == f(get(acc), x));
            lemma_fold_run(g(acc, x), tail, get, rest, f, g);
            assert(script_items(a) == seq![x] + script_items(tail));
            lemma_fold_left_prepend(x, script_items(tail), acc, g);
        },
        Poll::Ready(None) => {
            assert(script_items(a) =~= Seq::<X>::empty());
        },
        Poll::Pending => {
            lemma_script_ends_rest(a);
            lemma_fold_run(acc, tail, get, rest, f, g);
        },
    }
}

/// The answer of `All` over the script `a`, its predicate answering `p(x)`
/// on each item `x`; `None` while it has not answered.
pub open spec fn all_run<X>(a: Seq<Poll<Option<X>>>, p: spec_fn(X) -> bool) -> Option<bool>
    decreases a.len(),
{
    if a.len() == 0 {
        None
    } else {
        match all_step(a[0], p(answered(a[0]))) {
            Step::Finish(Poll::Ready(answer)) => Some(answer),
            _ => all_run(a.drop_first(), p),
        }
    }
}

/// A sequence satisfies `p` everywhere when its first item and its rest do.
pub proof fn lemma_all_prepend<X>(s: Seq<X>, p: spec_fn(X) -> bool)
    requires
        s.len() > 0,
    ensures
        s.all(p) == (p(s[0]) && s.drop_first().all(p)),
{
    if s.all(p) {
        assert forall|i: int| 0 <= i < s.drop_first().len() implies p(s.drop_first()[i]) by {
            assert(s.drop_first()[i] == s[i + 1]);
        }
    }
    if p(s[0]) && s.drop_first().all(p) {
        assert forall|i: int| 0 <= i < s.len() implies p(s[i]) by {
            if i > 0 {
                assert(s[i] == s.drop_first()[i - 1]);
            }
        }
    }
}

/// `All` answers whether the predicate accepts every item, however many
/// times the iterator answers `Pending`.
pub proof fn lemma_all_run<X>(a: Seq<Poll<Option<X>>>, p: spec_fn(X) -> bool)
    requires
        script_ends(a),
    ensures
        all_run(a, p) == Some(script_items(a).all(p)),
    decreases a.len(),
{
    let tail = a.drop_first();
    match a[0] {
        Poll::Ready(Some(x)) => {
            lemma_script_ends_rest(a);
            lemma_all_run(tail, p);
            let items = script_items(a);
            assert(items == seq![x] + script_items(tail));
            assert(items.drop_first() =~= script_items(tail));
            lemma_all_prepend(items, p);
        },
        Poll::Ready(None) => {
            assert(script_items(a) =~= Seq::<X>::empty());
        },
        Poll::Pending => {
            lemma_script_ends_rest(a);
            lemma_all_run(tail, p);
        },
    }
}

/// The answer of `Any` over the script `a`, its predicate answering `p(x)`
/// on each item `x`; `None` while it has not answered.
pub open spec fn any_run<X>(a: Seq<Poll<Option<X>>>, p: spec_fn(X) -> bool) -> Option<bool>
    decreases a.len(),
{
    if a.len() == 0 {
        None
    } else {
        match any_step(a[0], p(answered(a[0]))) {
            Step::Finish(Poll::Ready(answer)) => Some(answer),
            _ => any_run(a.drop_first(), p),
        }
    }
}

/// A sequence satisfies `p` somewhere when its first item or its rest does.
pub proof fn lemma_any_prepend<X>(s: Seq<X>, p: spec_fn(X) -> bool)
    requires
        s.len() > 0,
    ensures
        s.any(p) == (p(s[0]) || s.drop_first().any(p)),
{
    if s.any(p) {
        let i: int = choose|i: int| 0 <= i < s.len() && p(s[i]);
        if i > 0 {
            assert(s.drop_first()[i - 1] == s[i]);
        }
    }
    if s.drop_first().any(p) {
        let i: int = choose|i: int| 0 <= i < s.drop_first().len() && p(s.drop_first()[i]);
        assert(s[i + 1] == s.drop_first()[i]);
    }
}

/// `Any` answers whether the predicate accepts some item, however many
/// times the iterator answers `Pending`.
pub proof fn lemma_any_run<X>(a: Seq<Poll<Option<X>>>, p: spec_fn(X) -> bool)
    requires
        script_ends(a),
    ensures
        any_run(a, p) == Some(script_items(a).any(p)),
    decreases a.len(),
{
    let tail = a.drop_first();
    match a[0] {
        Poll::Ready(Some(x)) => {
            lemma_script_ends_rest(a);
            lemma_any_run(tail, p);
            let items = script_items(a);
            assert(items == seq![x] + script_items(tail));
            assert(items.drop_first() =~= script_items(tail));
            lemma_any_prepend(items, p);
        },
        Poll::Ready(None) => {
            assert(script_items(a) =~= Seq::<X>::empty());
        },
        Poll::Pending => {
            lemma_script_ends_rest(a);
            lemma_any_run(tail, p);
        },
    }
}

/// The items `TakeWhile` answers over the script `a` up to its first
/// `None`, its predicate answering `keep(x)` on each item `x`.
pub open spec fn take_while_run<T>(a: Seq<Poll<Option<T>>>, keep: spec_fn(T) -> bool) -> Seq<T>
    decreases a.len(),
{
    if a.len() == 0 {
        Seq::empty()
    } else {
        match take_while_answer(a[0], keep(answered(a[0]))) {
            Poll::Ready(Some(y)) => seq![y] + take_while_run(a.drop_first(), keep),
            Poll::Ready(None) => Seq::empty(),
            Poll::Pending => take_while_run(a.drop_first(), keep),
        }
    }
}

/// `TakeWhile` answers the longest prefix of items its predicate accepts,
/// however many times the iterator answers `Pending`.
pub proof fn lemma_take_while_run<T>(a: Seq<Poll<Option<T>>>, keep: spec_fn(T) -> bool)
    ensures
        take_while_run(a, keep) == script_items(a).take(leading_len(script_items(a), keep) as int),
    decreases a.len(),
{
    let items = script_items(a);
    if a.len() == 0 {
        assert(items.take(0) =~= Seq::<T>::empty());
    } else {
        let tail = a.drop_first();
        lemma_take_while_run(tail, keep);
        match a[0] {
            Poll::Ready(Some(x)) => {
                let rest_items = script_items(tail);
                assert(items == seq![x] + rest_items);
                assert(items[0] == x);
                assert(items.drop_first() =~= rest_items);
                if keep(x) {
                    lemma_leading_len_bound(rest_items, keep);
                    assert(items.take(leading_len(items, keep) as int) =~= seq![x] + rest_items.take(
                        leading_len(rest_items, keep) as int,
                    ));
                } else {
                    assert(items.take(0) =~= Seq::<T>::empty());
                }
            },
            Poll::Ready(None) => {
                assert(items =~= Seq::<T>::empty());
                assert(items.take(0) =~= Seq::<T>::empty());
            },
            Poll::Pending => {},
        }
    }
}

/// The items `SkipWhile` answers over the script `a`, starting while still
/// skipping or not, its predicate answering `skip(x)` on each item `x`.
pub open spec fn skip_while_run<T>(skipping: bool, a: Seq<Poll<Option<T>>>, skip: spec_fn(T) -> bool) -> Seq<T>
    decreases a.len(),
{
    if a.len() == 0 {
        Seq::empty()
    } else {
        let step = if skipping {
            skip_while_step(a[0], skip(answered(a[0])))
        } else {
            Step::Finish(a[0])
        };
        match step {
            Step::Finish(Poll::Ready(Some(y))) => seq![y] + skip_while_run(false, a.drop_first(), skip),
            Step::Finish(Poll::Ready(None)) => Seq::empty(),
            _ => skip_while_run(skipping, a.drop_first(), skip),
        }
    }
}

/// `SkipWhile` drops the longest prefix of items its predicate accepts and
/// answers every item after it; once it stopped skipping it answers every
/// item; both however many times the iterator answers `Pending`.
pub proof fn lemma_skip_while_run<T>(a: Seq<Poll<Option<T>>>, skip: spec_fn(T) -> bool)
    ensures
        skip_while_run(true, a, skip) == script_items(a).skip(leading_len(script_items(a), skip) as int),
        skip_while_run(false, a, skip) == script_items(a),
    decreases a.len(),
{
    let items = script_items(a);
    if a.len() == 0 {
        assert(items.skip(0) =~= Seq::<T>::empty());
    } else {
        let tail = a.drop_first();
        lemma_skip_while_run(tail, skip);
        match a[0] {
            Poll::Ready(Some(x)) => {
                let rest_items = script_items(tail);
                assert(items == seq![x] + rest_items);
                assert(items[0] == x);
                assert(items.drop_first() =~= rest_items);
                lemma_leading_len_bound(rest_items, skip);
                if skip(x) {
                    assert(items.skip(leading_len(items, skip) as int) =~= rest_items.skip(
                        leading_len(rest_items, skip) as int,
                    ));
                } else {
                    assert(items.skip(0) =~= items);
                }
            },
            Poll::Ready(None) => {
                assert(items =~= Seq::<T>::empty());
                assert(items.skip(0) =~= Seq::<T>::empty());
            },
            Poll::Pending => {},
        }
    }
}

/// What `Reduce` answers from the accumulator `acc` over the script `a`,
/// its function answering `g(c, x)` on each accumulator `c` and item `x`;
/// `None` while the script has not ended.
pub open spec fn reduce_run<T>(acc: Option<T>, a: Seq<Poll<Option<T>>>, g: spec_fn(T, T) -> T) -> Option<Option<T>>
    decreases a.len(),
{
    if a.len() == 0 {
        None
    } else {
        match a[0] {
            Poll::Ready(Some(x)) => reduce_run(reduce_next(acc, x, g(acc->0, x)), a.drop_first(), g),
            Poll::Ready(None) => Some(acc),
            Poll::Pending => reduce_run(acc, a.drop_first(), g),
        }
    }
}

/// `Reduce` answers `None` for no items, else the first item combined with
/// each next one in turn, however many times the iterator answers `Pending`.
pub proof fn lemma_reduce_run<T>(a: Seq<Poll<Option<T>>>, g: spec_fn(T, T) -> T)
    requires
        script_ends(a),
    ensures
        reduce_run(None, a, g) == Some(if script_items(a).len() == 0 {
            None
        } else {
            Some(script_items(a).drop_first().fold_left(script_items(a)[0], g))
        }),
    decreases a.len(),
{
    let tail = a.drop_first();
    match a[0] {
        Poll::Ready(Some(x)) => {
            lemma_script_ends_rest(a);
            lemma_reduce_run_from(x, tail, g);
            let items = script_items(a);
            assert(items == seq![x] + script_items(tail));
            assert(items.drop_first() =~= script_items(tail));
        },
        Poll::Ready(None) => {
            assert(script_items(a) =~= Seq::<T>::empty());
        },
        Poll::Pending => {
            lemma_script_ends_rest(a);
            lemma_reduce_run(tail, g);
        },
    }
}

/// From an accumulator `c`, `Reduce` answers `c` combined with each item in
/// turn, however many times the iterator answers `Pending`.
pub proof fn lemma_reduce_run_from<T>(c: T, a: Seq<Poll<Option<T>>>, g: spec_fn(T, T) -> T)
    requires
        script_ends(a),
    ensures
        reduce_run(Some(c), a, g) == Some(Some(script_items(a).fold_left(c, g))),
    decreases a.len(),
{
    let tail = a.drop_first();
    match a[0] {
        Poll::Ready(Some(x)) => {
            lemma_script_ends_rest(a);
            lemma_reduce_run_from(g(c, x), tail, g);
            assert(script_items(a) == seq![x] + script_items(tail));
            lemma_fold_left_prepend(x, script_items(tail), c, g);
        },
        Poll::Ready(None) => {
            assert(script_items(a) =~= Seq::<T>::empty());
        },
        Poll::Pending => {
            lemma_script_ends_rest(a);
            lemma_reduce_run_from(c, tail, g);
        },
    }
}

/// The answer of `Find` over the script `a`, its predicate answering
/// `keep(x)` on each item `x`; `None` while it has not answered.
pub open spec fn find_run<T>(a: Seq<Poll<Option<T>>>, keep: spec_fn(T) -> bool) -> Option<Option<T>>
    decreases a.len(),
{
    if a.len() == 0 {
        None
    } else {
        match filter_step(a[0], keep(answered(a[0]))) {
            Step::Finish(Poll::Ready(answer)) => Some(answer),
            _ => find_run(a.drop_first(), keep),
        }
    }
}

/// `Find` answers the first item its predicate accepts, or `None` when there
/// is none, however many times the iterator answers `Pending`.
pub proof fn lemma_find_run<T>(a: Seq<Poll<Option<T>>>, keep: spec_fn(T) -> bool)
    requires
        script_ends(a),
    ensures
        find_run(a, keep) == Some(first_of(script_items(a).filter(keep))),
    decreases a.len(),
{
    let tail = a.drop_first();
    match a[0] {
        Poll::Ready(Some(x)) => {
            lemma_script_ends_rest(a);
            lemma_find_run(tail, keep);
            script_items(tail).lemma_filter_prepend(x, keep);
            assert(script_items(a) == seq![x] + script_items(tail));
            if keep(x) {
                assert((seq![x] + script_items(tail).filter(keep))[0] == x);
            } else {
                assert(Seq::<T>::empty() + script_items(tail).filter(keep) =~= script_items(tail).filter(keep));
            }
        },
        Poll::Ready(None) => {
            assert(script_items(a) =~= Seq::<T>::empty());
            assert(script_items(a).filter(keep) =~= Seq::<T>::empty());
        },
        Poll::Pending => {
            lemma_script_ends_rest(a);
            lemma_find_run(tail, keep);
        },
    }
}

/// The answer of `FindMap` over the script `a`, its function answering
/// `f(x)` on each item `x`; `None` while it has not answered.
pub open spec fn find_map_run<T, U>(a: Seq<Poll<Option<T>>>, f: spec_fn(T) -> Option<U>) -> Option<Option<U>>
    decreases a.len(),
{
    if a.len() == 0 {
        None
    } else {
        match filter_map_step(a[0], f(answered(a[0]))) {
            Step::Finish(Poll::Ready(answer)) => Some(answer),
            _ => find_map_run(a.drop_first(), f),
        }
    }
}

/// `FindMap` answers the first value its function maps an item to, or
/// `None` when there is none, however many times the iterator answers
/// `Pending`.
pub proof fn lemma_find_map_run<T, U>(a: Seq<Poll<Option<T>>>, f: spec_fn(T) -> Option<U>)
    requires
        script_ends(a),
    ensures
        find_map_run(a, f) == Some(first_of(script_items(a).filter_map(f))),
    decreases a.len(),
{
    let tail = a.drop_first();
    match a[0] {
        Poll::Ready(Some(x)) => {
            lemma_script_ends_rest(a);
            lemma_find_map_run(tail, f);
            lemma_filter_map_prepend(x, script_items(tail), f);
            assert(script_items(a) == seq![x] + script_items(tail));
            match f(x) {
                Some(y) => {
                    assert((mapped_items(x, f) + script_items(tail).filter_map(f))[0] == y);
                },
                None => {
                    assert(mapped_items(x, f) + script_items(tail).filter_map(f) =~= script_items(tail).filter_map(f));
                },
            }
        },
        Poll::Ready(None) => {
            assert(script_items(a) =~= Seq::<T>::empty());
            assert(script_items(a).filter_map(f) =~= Seq::<U>::empty());
        },
        Poll::Pending => {
            lemma_script_ends_rest(a);
            lemma_find_map_run(tail, f);
        },
    }
}

/// The answer of `TryFold` from the accumulator `acc` over the script `a`,
/// its function answering `g(c, x)` on each accumulator `c` and item `x`;
/// `None` while it has not answered.
pub open spec fn try_fold_run<B, T, X>(acc: T, a: Seq<Poll<Option<X>>>, g: spec_fn(T, X) -> ControlFlow<B, T>) -> Option<
    ControlFlow<B, T>,
>
    decreases a.len(),
{
    if a.len() == 0 {
        None
    } else {
        let (next, step) = try_fold_step(acc, a[0], g(acc, answered(a[0])));
        match step {
            Step::Finish(Poll::Ready(answer)) => Some(answer),
            _ => try_fold_run(next, a.drop_first(), g),
        }
    }
}

/// `TryFold` answers the first `Break` of its function, else `Continue`
/// with the initial accumulator combined with each item in turn, however
/// many times the iterator answers `Pending`.
pub proof fn lemma_try_fold_run<B, T, X>(acc: T, a: Seq<Poll<Option<X>>>, g: spec_fn(T, X) -> ControlFlow<B, T>)
    requires
        script_ends(a),
    ensures
        try_fold_run(acc, a, g) == Some(try_fold_left(script_items(a), acc, g)),
    decreases a.len(),
{
    let tail = a.drop_first();
    match a[0] {
        Poll::Ready(Some(x)) => {
            lemma_script_ends_rest(a);
            let items = script_items(a);
            assert(items == seq![x] + script_items(tail));
            assert(items[0] == x);
            assert(items.drop_first() =~= script_items(tail));
            match g(acc, x) {
                ControlFlow::Continue(next) => {
                    lemma_try_fold_run(next, tail, g);
                },
                ControlFlow::Break(_) => {},
            }
        },
        Poll::Ready(None) => {
            assert(script_items(a) =~= Seq::<X>::empty());
        },
        Poll::Pending => {
            lemma_script_ends_rest(a);
            lemma_try_fold_run(acc, tail, g);
        },
    }
}

/// The answer of `TryForEach` over the script `a`, its function answering
/// `g(x)` on each item `x`; `None` while it has not answered.
pub open spec fn try_for_each_run<B, X>(a: Seq<Poll<Option<X>>>, g: spec_fn(X) -> ControlFlow<B, ()>) -> Option<
    ControlFlow<B, ()>,
>
    decreases a.len(),
{
    if a.len() == 0 {
        None
    } else {
        match try_for_each_step(a[0], g(answered(a[0]))) {
            Step::Finish(Poll::Ready(answer)) => Some(answer),
            _ => try_for_each_run(a.drop_first(), g),
        }
    }
}

/// `TryForEach` answers the first `Break` of its function, else
/// `Continue(())`, however many times the iterator answers `Pending`.
pub proof fn lemma_try_for_each_run<B, X>(a: Seq<Poll<Option<X>>>, g: spec_fn(X) -> ControlFlow<B, ()>)
    requires
        script_ends(a),
    ensures
        try_for_each_run(a, g) == Some(first_break(script_items(a), g)),
    decreases a.len(),
{
    let tail = a.drop_first();
    match a[0] {
        Poll::Ready(Some(x)) => {
            lemma_script_ends_rest(a);
            lemma_try_for_each_run(tail, g);
            let items = script_items(a);
            assert(items == seq![x] + script_items(tail));
            assert(items[0] == x);
            assert(items.drop_first() =~= script_items(tail));
        },
        Poll::Ready(None) => {
            assert(script_items(a) =~= Seq::<X>::empty());
        },
        Poll::Pending => {
            lemma_script_ends_rest(a);
            lemma_try_for_each_run(tail, g);
        },
    }
}

/// What `Fuse` answers to as many polls as `answers` has, while the
/// underlying iterator is still polled (`active`) or not, where `answers[k]`
/// is what the underlying iterator answers if polled at the `k`-th poll.
pub open spec fn fuse_run<T>(active: bool, answers: Seq<Poll<Option<T>>>) -> Seq<Poll<Option<T>>>
    decreases answers.len(),
{
    if answers.len() == 0 {
        Seq::empty()
    } else {
        match fuse_resume::<T>(active) {
            Step::Finish(answer) => seq![answer] + fuse_run(false, answers.drop_first()),
            _ => seq![answers[0]] + fuse_run(fuse_still_active(answers[0]), answers.drop_first()),
        }
    }
}

/// `Fuse` answers what the underlying iterator answers up to its first
/// `None`, and `None` to every poll after that.
pub proof fn lemma_fuse_run<T>(answers: Seq<Poll<Option<T>>>, i: int)
    requires
        0 <= i < answers.len(),
        answers[i] == Poll::<Option<T>>::Ready(None),
        forall|k: int| 0 <= k < i ==> answers[k] != Poll::<Option<T>>::Ready(None),
    ensures
        fuse_run(true, answers).len() == answers.len(),
        forall|k: int| 0 <= k <= i ==> #[trigger] fuse_run(true, answers)[k] == answers[k],
        forall|k: int| i <= k < answers.len() ==> #[trigger] fuse_run(true, answers)[k]
            == Poll::<Option<T>>::Ready(None),
    decreases i,
{
    lemma_fuse_run_len(true, answers);
    let rest = answers.drop_first();
    if i > 0 {
        assert forall|k: int| 0 <= k < i - 1 implies rest[k] != Poll::<Option<T>>::Ready(None) by {
            assert(rest[k] == answers[k + 1]);
        }
        lemma_fuse_run(rest, i - 1);
        assert(fuse_run(true, answers) == seq![answers[0]] + fuse_run(true, rest));
        assert forall|k: int| 0 <= k <= i implies #[trigger] fuse_run(true, answers)[k] == answers[k] by {
            if k > 0 {
                assert(fuse_run(true, answers)[k] == fuse_run(true, rest)[k - 1]);
            }
        }
        assert forall|k: int| i <= k < answers.len() implies #[trigger] fuse_run(true, answers)[k]
            == Poll::<Option<T>>::Ready(None) by {
            assert(fuse_run(true, answers)[k] == fuse_run(true, rest)[k - 1]);
        }
    } else {
        lemma_fuse_run_ended(rest);
        assert(fuse_run(true, answers) == seq![answers[0]] + fuse_run(false, rest));
        assert forall|k: int| i <= k < answers.len() implies #[trigger] fuse_run(true, answers)[k]
            == Poll::<Option<T>>::Ready(None) by {
            if k > 0 {
                assert(fuse_run(true, answers)[k] == fuse_run(false, rest)[k - 1]);
            }
        }
    }
}

/// A run answers once per poll.
pub proof fn lemma_fuse_run_len<T>(active: bool, answers: Seq<Poll<Option<T>>>)
    ensures
        fuse_run(active, answers).len() == answers.len(),
    decreases answers.len(),
{
    if answers.len() > 0 {
        lemma_fuse_run_len(fuse_still_active(answers[0]), answers.drop_first());
        lemma_fuse_run_len(false, answers.drop_first());
    }
}

/// An ended `Fuse` answers `None` to every poll.
pub proof fn lemma_fuse_run_ended<T>(answers: Seq<Poll<Option<T>>>)
    ensures
        forall|k: int| 0 <= k < answers.len() ==> #[trigger] fuse_run(false, answers)[k]
            == Poll::<Option<T>>::Ready(None),
    decreases answers.len(),
{
    lemma_fuse_run_len(false, answers);
    if answers.len() > 0 {
        lemma_fuse_run_ended(answers.drop_first());
        assert forall|k: int| 0 <= k < answers.len() implies #[trigger] fuse_run(false, answers)[k]
            == Poll::<Option<T>>::Ready(None) by {
            if k > 0 {
                assert(fuse_run(false, answers)[k] == fuse_run(false, answers.drop_first())[k - 1]);
            }
        }
    }
}

/// Counting one more item keeps a hint consistent: its upper bound, if
/// any, stays at least its lower bound.
pub proof fn lemma_add_one_consistent(hint: SizeHint)
    requires
        hint_is_consistent(hint),
    ensures
        hint_is_consistent(add_one_spec(hint)),
{
}

/// `Zip`'s hint is consistent whenever both sides' hints are.
pub proof fn lemma_zip_hint_consistent<TA, TB>(buffer: ZipBuffer<TA, TB>, left_hint: SizeHint, right_hint: SizeHint)
    requires
        hint_is_consistent(left_hint),
        hint_is_consistent(right_hint),
    ensures
        hint_is_consistent(zip_hint(buffer, left_hint, right_hint)),
{
    lemma_add_one_consistent(left_hint);
    lemma_add_one_consistent(right_hint);
}

/// `Flatten`'s hint is consistent whenever the current sub-iterator's is.
pub proof fn lemma_flatten_hint_consistent(iter_hint: SizeHint, sub_hint: Option<SizeHint>)
    requires
        sub_hint matches Some(h) ==> hint_is_consistent(h),
    ensures
        hint_is_consistent(flatten_hint(iter_hint, sub_hint)),
{
}

} // verus!
