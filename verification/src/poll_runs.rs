//! What the combinators answer to a driver that polls them to the end, when
//! the underlying iterators and the futures may answer `Pending`.
//!
//! An underlying iterator is given by its answers to successive polls, a
//! script: any number of `Pending` between its items, and `Ready(None)` at
//! the end. A future made for an item answers `Pending` as many times as
//! `delay` says, then its output. Each `*_run` function drives the step
//! functions that the combinators' methods are specified by, the way the
//! poll loop does: a `Pending` answer ends the poll and the next poll starts
//! with the combinator's first step again. It collects the items the
//! combinator answers and stops at its first `None`.

use vstd::prelude::*;
use crate::poll::{Poll, Step};
use crate::three_states::ThreeStates;
use crate::async_slim_map::{SlimMapStep, slim_map_on_first};
use crate::async_iter::states::PredicateState;
use crate::async_iter::filter_async::{predicate_on_iter, predicate_resume, filter_async_on_held};
use crate::async_iter::reduce_async::{ReduceHolder, reduce_on_iter, reduce_on_held, reduce_resume};
use crate::async_iter::fold_async::{fold_async_on_iter, fold_async_on_held, fold_async_resume};
use crate::async_iter::states::FoldState;
use crate::async_iter::flatten::{flatten_on_iter_step, flatten_on_held_step, flatten_resume};
use crate::async_iter::try_flatten::try_flatten_on_iter_step;
use crate::async_iter::and_then_async::{and_then_async_on_iter, held_output_on_held, held_resume};
use crate::async_iter::skip_while_async::{
    SkipState, skip_while_async_on_held, skip_while_async_on_iter, skip_while_async_resume,
};
use crate::runs::{leading_len, lemma_leading_len_bound};
use crate::async_iter::try_fold_async::{try_fold_async_on_held, try_fold_async_on_iter, try_fold_async_resume};
use core::ops::ControlFlow;
use crate::async_iter::zip::{ZipBuffer, ZipStep, zip_on_left, zip_on_right, zip_resume};
use crate::async_iter::flat_map_async::{
    FlatMapAsyncStep, flat_map_async_resume, flat_map_async_on_iter, flat_map_async_on_future, flat_map_async_on_sub,
};

verus! {

/// The items of a script: its `Ready(Some(_))` answers before its first
/// `Ready(None)`.
pub open spec fn script_items<T>(a: Seq<Poll<Option<T>>>) -> Seq<T>
    decreases a.len(),
{
    if a.len() == 0 {
        Seq::empty()
    } else {
        match a[0] {
            Poll::Ready(Some(x)) => seq![x] + script_items(a.drop_first()),
            Poll::Ready(None) => Seq::empty(),
            Poll::Pending => script_items(a.drop_first()),
        }
    }
}

/// A script that answers `Ready(None)` at some poll.
pub open spec fn script_ends<T>(a: Seq<Poll<Option<T>>>) -> bool
    decreases a.len(),
{
    a.len() > 0 && (a[0] == Poll::<Option<T>>::Ready(None) || script_ends(a.drop_first()))
}

/// The item an answer carries, if any.
pub open spec fn answered<T>(p: Poll<Option<T>>) -> T {
    p->Ready_0->Some_0
}

/// The number of `Pending` answers still due from a future made for the
/// answer `p`, or `wait` when `p` makes no future.
pub open spec fn next_wait<T>(p: Poll<Option<T>>, wait: nat, delay: spec_fn(T) -> nat) -> nat {
    match p {
        Poll::Ready(Some(x)) => delay(x),
        _ => wait,
    }
}

/// Orders the steps of a combinator whose item may wait for a verdict, so
/// that a run of steps that consumes nothing is finite.
pub open spec fn predicate_rank<T, Fut, R>(state: PredicateState<T, Fut>, step: Step<R>) -> int {
    match step {
        Step::PollIter => 0,
        Step::PollHeld => 2,
        Step::Finish(_) => if state is Polling { 3 } else { 1 },
    }
}

/// The items `FilterAsync` answers from `state`, when `step` is the step to
/// take now, over the script `a`, where `wait` counts the `Pending` answers
/// still due from the verdict in flight, the predicate returns `fut_of(x)`
/// for each item `x` and that future answers `Pending` `delay(x)` times,
/// then `keep(x)`.
pub open spec fn filter_async_run<T, Fut>(
    state: PredicateState<T, Fut>,
    step: Step<Option<T>>,
    a: Seq<Poll<Option<T>>>,
    wait: nat,
    fut_of: spec_fn(T) -> Fut,
    keep: spec_fn(T) -> bool,
    delay: spec_fn(T) -> nat,
) -> Seq<T>
    decreases a.len(), wait, predicate_rank(state, step),
{
    match step {
        Step::PollIter => if a.len() == 0 {
            Seq::empty()
        } else {
            let (next, step) = predicate_on_iter(a[0], fut_of(answered(a[0])));
            filter_async_run(next, step, a.drop_first(), next_wait(a[0], wait, delay), fut_of, keep, delay)
        },
        Step::PollHeld => if state is Polling {
            if wait > 0 {
                let (next, step) = filter_async_on_held(state, Poll::Pending);
                filter_async_run(next, step, a, (wait - 1) as nat, fut_of, keep, delay)
            } else {
                let (next, step) = filter_async_on_held(state, Poll::Ready(keep(state->item)));
                filter_async_run(next, step, a, 0, fut_of, keep, delay)
            }
        } else {
            Seq::empty()
        },
        Step::Finish(Poll::Ready(Some(y))) => seq![y] + filter_async_run(
            state,
            predicate_resume(state),
            a,
            wait,
            fut_of,
            keep,
            delay,
        ),
        Step::Finish(Poll::Pending) => filter_async_run(
            state,
            predicate_resume(state),
            a,
            wait,
            fut_of,
            keep,
            delay,
        ),
        Step::Finish(Poll::Ready(None)) => Seq::empty(),
    }
}

/// The item a waiting verdict still decides on, kept or not.
pub open spec fn waiting_kept<T, Fut>(state: PredicateState<T, Fut>, keep: spec_fn(T) -> bool) -> Seq<T> {
    match state {
        PredicateState::Polling { item, .. } => if keep(item) {
            seq![item]
        } else {
            Seq::empty()
        },
        PredicateState::Empty => Seq::empty(),
    }
}

/// A script that has not ended at its first answer ends after it.
pub proof fn lemma_script_ends_rest<T>(a: Seq<Poll<Option<T>>>)
    requires
        script_ends(a),
        a[0] != Poll::<Option<T>>::Ready(None),
    ensures
        script_ends(a.drop_first()),
{
}

/// From any state, `FilterAsync` answers the item waiting for its verdict
/// if it is kept, then the items of the rest of the script it keeps.
pub proof fn lemma_filter_async_run_from<T, Fut>(
    state: PredicateState<T, Fut>,
    a: Seq<Poll<Option<T>>>,
    wait: nat,
    fut_of: spec_fn(T) -> Fut,
    keep: spec_fn(T) -> bool,
    delay: spec_fn(T) -> nat,
)
    requires
        script_ends(a),
    ensures
        filter_async_run(state, predicate_resume(state), a, wait, fut_of, keep, delay)
            == waiting_kept(state, keep) + script_items(a).filter(keep),
    decreases a.len(), wait, if state is Polling { 1int } else { 0int },
{
    let run = filter_async_run(state, predicate_resume(state), a, wait, fut_of, keep, delay);
    match state {
        PredicateState::Empty => {
            let rest = a.drop_first();
            match a[0] {
                Poll::Pending => {
                    lemma_script_ends_rest(a);
                    lemma_filter_async_run_from(state, rest, wait, fut_of, keep, delay);
                    assert(run == filter_async_run(state, Step::Finish(Poll::Pending), rest, wait, fut_of, keep, delay));
                    assert(Seq::<T>::empty() + script_items(rest).filter(keep) =~= script_items(rest).filter(keep));
                    assert(waiting_kept(state, keep) + script_items(a).filter(keep) =~= script_items(rest).filter(keep));
                },
                Poll::Ready(None) => {
                    assert(run == filter_async_run(state, Step::Finish(Poll::Ready(None)), rest, wait, fut_of, keep, delay));
                    assert(script_items(a) =~= Seq::<T>::empty());
                    assert(script_items(a).filter(keep) =~= Seq::<T>::empty());
                    assert(run =~= waiting_kept(state, keep) + script_items(a).filter(keep));
                },
                Poll::Ready(Some(x)) => {
                    lemma_script_ends_rest(a);
                    let waiting = PredicateState::Polling { item: x, fut: fut_of(x) };
                    lemma_filter_async_run_from(waiting, rest, delay(x), fut_of, keep, delay);
                    assert(predicate_resume(waiting) == Step::<Option<T>>::PollHeld);
                    assert(run == filter_async_run(waiting, Step::PollHeld, rest, delay(x), fut_of, keep, delay));
                    assert(waiting_kept(waiting, keep) == (if keep(x) { seq![x] } else { Seq::<T>::empty() }));
                    script_items(rest).lemma_filter_prepend(x, keep);
                    assert(script_items(a) == seq![x] + script_items(rest));
                    assert(run =~= waiting_kept(state, keep) + script_items(a).filter(keep));
                },
            }
        },
        PredicateState::Polling { item, .. } => {
            if wait > 0 {
                lemma_filter_async_run_from(state, a, (wait - 1) as nat, fut_of, keep, delay);
                assert(run == filter_async_run(state, Step::Finish(Poll::Pending), a, (wait - 1) as nat, fut_of, keep, delay));
            } else {
                let empty = PredicateState::<T, Fut>::Empty;
                lemma_filter_async_run_from(empty, a, 0, fut_of, keep, delay);
                if keep(item) {
                    assert(run == filter_async_run(empty, Step::Finish(Poll::Ready(Some(item))), a, 0, fut_of, keep, delay));
                    assert(run == seq![item] + filter_async_run(empty, Step::PollIter, a, 0, fut_of, keep, delay));
                } else {
                    assert(run == filter_async_run(empty, Step::PollIter, a, 0, fut_of, keep, delay));
                }
                assert(run =~= waiting_kept(state, keep) + script_items(a).filter(keep));
            }
        },
    }
}

/// `FilterAsync` answers exactly the items whose verdict is `true`, in their
/// order, however many times the iterator and the verdicts answer `Pending`.
pub proof fn lemma_filter_async_run<T, Fut>(
    a: Seq<Poll<Option<T>>>,
    fut_of: spec_fn(T) -> Fut,
    keep: spec_fn(T) -> bool,
    delay: spec_fn(T) -> nat,
)
    requires
        script_ends(a),
    ensures
        filter_async_run(PredicateState::Empty, Step::PollIter, a, 0, fut_of, keep, delay)
            == script_items(a).filter(keep),
{
    lemma_filter_async_run_from(PredicateState::<T, Fut>::Empty, a, 0, fut_of, keep, delay);
    assert(Seq::<T>::empty() + script_items(a).filter(keep) =~= script_items(a).filter(keep));
}

/// The first item of a sequence, if any.
pub open spec fn first_of<T>(s: Seq<T>) -> Option<T> {
    if s.len() > 0 {
        Some(s[0])
    } else {
        None
    }
}

/// The answer of `FindAsync` from `state`, when `step` is the step to take
/// now, over the script `a`, with the verdicts as for [`filter_async_run`].
pub open spec fn find_async_run<T, Fut>(
    state: PredicateState<T, Fut>,
    step: Step<Option<T>>,
    a: Seq<Poll<Option<T>>>,
    wait: nat,
    fut_of: spec_fn(T) -> Fut,
    keep: spec_fn(T) -> bool,
    delay: spec_fn(T) -> nat,
) -> Option<T>
    decreases a.len(), wait, predicate_rank(state, step),
{
    match step {
        Step::PollIter => if a.len() == 0 {
            None
        } else {
            let (next, step) = predicate_on_iter(a[0], fut_of(answered(a[0])));
            find_async_run(next, step, a.drop_first(), next_wait(a[0], wait, delay), fut_of, keep, delay)
        },
        Step::PollHeld => if state is Polling {
            if wait > 0 {
                let (next, step) = filter_async_on_held(state, Poll::Pending);
                find_async_run(next, step, a, (wait - 1) as nat, fut_of, keep, delay)
            } else {
                let (next, step) = filter_async_on_held(state, Poll::Ready(keep(state->item)));
                find_async_run(next, step, a, 0, fut_of, keep, delay)
            }
        } else {
            None
        },
        Step::Finish(Poll::Ready(answer)) => answer,
        Step::Finish(Poll::Pending) => find_async_run(
            state,
            predicate_resume(state),
            a,
            wait,
            fut_of,
            keep,
            delay,
        ),
    }
}

/// From any state, `FindAsync` answers the first of the waiting item, if it
/// is kept, and the items of the rest of the script that are kept.
pub proof fn lemma_find_async_run_from<T, Fut>(
    state: PredicateState<T, Fut>,
    a: Seq<Poll<Option<T>>>,
    wait: nat,
    fut_of: spec_fn(T) -> Fut,
    keep: spec_fn(T) -> bool,
    delay: spec_fn(T) -> nat,
)
    requires
        script_ends(a),
    ensures
        find_async_run(state, predicate_resume(state), a, wait, fut_of, keep, delay)
            == first_of(waiting_kept(state, keep) + script_items(a).filter(keep)),
    decreases a.len(), wait, if state is Polling { 1int } else { 0int },
{
    let run = find_async_run(state, predicate_resume(state), a, wait, fut_of, keep, delay);
    match state {
        PredicateState::Empty => {
            let rest = a.drop_first();
            match a[0] {
                Poll::Pending => {
                    lemma_script_ends_rest(a);
                    lemma_find_async_run_from(state, rest, wait, fut_of, keep, delay);
                    assert(run == find_async_run(state, Step::Finish(Poll::Pending), rest, wait, fut_of, keep, delay));
                    assert(waiting_kept(state, keep) + script_items(a).filter(keep) =~= waiting_kept(state, keep) + script_items(rest).filter(keep));
                },
                Poll::Ready(None) => {
                    assert(run == find_async_run(state, Step::Finish(Poll::Ready(None)), rest, wait, fut_of, keep, delay));
                    assert(script_items(a) =~= Seq::<T>::empty());
                    assert(script_items(a).filter(keep) =~= Seq::<T>::empty());
                    assert(waiting_kept(state, keep) + script_items(a).filter(keep) =~= Seq::<T>::empty());
                },
                Poll::Ready(Some(x)) => {
                    lemma_script_ends_rest(a);
                    let waiting = PredicateState::Polling { item: x, fut: fut_of(x) };
                    lemma_find_async_run_from(waiting, rest, delay(x), fut_of, keep, delay);
                    assert(predicate_resume(waiting) == Step::<Option<T>>::PollHeld);
                    assert(run == find_async_run(waiting, Step::PollHeld, rest, delay(x), fut_of, keep, delay));
                    assert(waiting_kept(waiting, keep) == (if keep(x) { seq![x] } else { Seq::<T>::empty() }));
                    script_items(rest).lemma_filter_prepend(x, keep);
                    assert(script_items(a) == seq![x] + script_items(rest));
                    assert(waiting_kept(state, keep) + script_items(a).filter(keep) =~= waiting_kept(waiting, keep) + script_items(rest).filter(keep));
                },
            }
        },
        PredicateState::Polling { item, .. } => {
            if wait > 0 {
                lemma_find_async_run_from(state, a, (wait - 1) as nat, fut_of, keep, delay);
                assert(run == find_async_run(state, Step::Finish(Poll::Pending), a, (wait - 1) as nat, fut_of, keep, delay));
            } else {
                let empty = PredicateState::<T, Fut>::Empty;
                lemma_find_async_run_from(empty, a, 0, fut_of, keep, delay);
                if keep(item) {
                    assert(run == find_async_run(empty, Step::Finish(Poll::Ready(Some(item))), a, 0, fut_of, keep, delay));
                    assert((waiting_kept(state, keep) + script_items(a).filter(keep))[0] == item);
                } else {
                    assert(run == find_async_run(empty, Step::PollIter, a, 0, fut_of, keep, delay));
                    assert(waiting_kept(state, keep) + script_items(a).filter(keep) =~= waiting_kept(empty, keep) + script_items(a).filter(keep));
                }
            }
        },
    }
}

/// `FindAsync` answers the first item whose verdict is `true`, or `None`
/// when there is none, however many times the iterator and the verdicts
/// answer `Pending`.
pub proof fn lemma_find_async_run<T, Fut>(
    a: Seq<Poll<Option<T>>>,
    fut_of: spec_fn(T) -> Fut,
    keep: spec_fn(T) -> bool,
    delay: spec_fn(T) -> nat,
)
    requires
        script_ends(a),
    ensures
        find_async_run(PredicateState::Empty, Step::PollIter, a, 0, fut_of, keep, delay)
            == first_of(script_items(a).filter(keep)),
{
    lemma_find_async_run_from(PredicateState::<T, Fut>::Empty, a, 0, fut_of, keep, delay);
    assert(Seq::<T>::empty() + script_items(a).filter(keep) =~= script_items(a).filter(keep));
}

/// From any state, once the item `FindAsync` answers is within the script
/// `a`, whatever the iterator answers after `a` changes nothing.
pub proof fn lemma_find_async_run_stops_from<T, Fut>(
    state: PredicateState<T, Fut>,
    a: Seq<Poll<Option<T>>>,
    b: Seq<Poll<Option<T>>>,
    wait: nat,
    fut_of: spec_fn(T) -> Fut,
    keep: spec_fn(T) -> bool,
    delay: spec_fn(T) -> nat,
)
    requires
        (waiting_kept(state, keep) + script_items(a).filter(keep)).len() > 0,
    ensures
        find_async_run(state, predicate_resume(state), a + b, wait, fut_of, keep, delay)
            == find_async_run(state, predicate_resume(state), a, wait, fut_of, keep, delay),
    decreases a.len(), wait, if state is Polling { 1int } else { 0int },
{
    let ab = a + b;
    match state {
        PredicateState::Empty => {
            if a.len() == 0 {
                assert(script_items(a) =~= Seq::<T>::empty());
                assert(script_items(a).filter(keep) =~= Seq::<T>::empty());
                assert((waiting_kept(state, keep) + script_items(a).filter(keep)).len() == 0);
            } else {
                let rest = a.drop_first();
                assert(ab[0] == a[0]);
                assert(ab.drop_first() =~= rest + b);
                match a[0] {
                    Poll::Pending => {
                        assert(script_items(a) == script_items(rest));
                        lemma_find_async_run_stops_from(state, rest, b, wait, fut_of, keep, delay);
                        assert(find_async_run(state, Step::PollIter, ab, wait, fut_of, keep, delay)
                            == find_async_run(state, Step::Finish(Poll::Pending), rest + b, wait, fut_of, keep, delay));
                        assert(find_async_run(state, Step::PollIter, a, wait, fut_of, keep, delay)
                            == find_async_run(state, Step::Finish(Poll::Pending), rest, wait, fut_of, keep, delay));
                    },
                    Poll::Ready(None) => {
                        assert(script_items(a) =~= Seq::<T>::empty());
                        assert(script_items(a).filter(keep) =~= Seq::<T>::empty());
                        assert((waiting_kept(state, keep) + script_items(a).filter(keep)).len() == 0);
                    },
                    Poll::Ready(Some(x)) => {
                        let waiting = PredicateState::Polling { item: x, fut: fut_of(x) };
                        script_items(rest).lemma_filter_prepend(x, keep);
                        assert(script_items(a) == seq![x] + script_items(rest));
                        assert(waiting_kept(state, keep) + script_items(a).filter(keep) =~= waiting_kept(waiting, keep)
                            + script_items(rest).filter(keep));
                        lemma_find_async_run_stops_from(waiting, rest, b, delay(x), fut_of, keep, delay);
                        assert(find_async_run(state, Step::PollIter, ab, wait, fut_of, keep, delay)
                            == find_async_run(waiting, Step::PollHeld, rest + b, delay(x), fut_of, keep, delay));
                        assert(find_async_run(state, Step::PollIter, a, wait, fut_of, keep, delay)
                            == find_async_run(waiting, Step::PollHeld, rest, delay(x), fut_of, keep, delay));
                    },
                }
            }
        },
        PredicateState::Polling { item, .. } => {
            let empty = PredicateState::<T, Fut>::Empty;
            if wait > 0 {
                lemma_find_async_run_stops_from(state, a, b, (wait - 1) as nat, fut_of, keep, delay);
                assert(find_async_run(state, Step::PollHeld, ab, wait, fut_of, keep, delay)
                    == find_async_run(state, Step::Finish(Poll::Pending), ab, (wait - 1) as nat, fut_of, keep, delay));
                assert(find_async_run(state, Step::PollHeld, a, wait, fut_of, keep, delay)
                    == find_async_run(state, Step::Finish(Poll::Pending), a, (wait - 1) as nat, fut_of, keep, delay));
            } else if !keep(item) {
                assert(waiting_kept(state, keep) + script_items(a).filter(keep) =~= waiting_kept(empty, keep)
                    + script_items(a).filter(keep));
                lemma_find_async_run_stops_from(empty, a, b, 0, fut_of, keep, delay);
                assert(find_async_run(state, Step::PollHeld, ab, 0, fut_of, keep, delay)
                    == find_async_run(empty, Step::PollIter, ab, 0, fut_of, keep, delay));
                assert(find_async_run(state, Step::PollHeld, a, 0, fut_of, keep, delay)
                    == find_async_run(empty, Step::PollIter, a, 0, fut_of, keep, delay));
            } else {
                assert(find_async_run(state, Step::PollHeld, ab, 0, fut_of, keep, delay)
                    == find_async_run(empty, Step::Finish(Poll::Ready(Some(item))), ab, 0, fut_of, keep, delay));
                assert(find_async_run(state, Step::PollHeld, a, 0, fut_of, keep, delay)
                    == find_async_run(empty, Step::Finish(Poll::Ready(Some(item))), a, 0, fut_of, keep, delay));
            }
        },
    }
}

/// Once the script `a` holds the item `FindAsync` answers, the answer does
/// not depend on what the iterator answers after `a`: it is not polled past
/// that item.
pub proof fn lemma_find_async_stops<T, Fut>(
    a: Seq<Poll<Option<T>>>,
    b: Seq<Poll<Option<T>>>,
    fut_of: spec_fn(T) -> Fut,
    keep: spec_fn(T) -> bool,
    delay: spec_fn(T) -> nat,
)
    requires
        script_items(a).filter(keep).len() > 0,
    ensures
        find_async_run(PredicateState::Empty, Step::PollIter, a + b, 0, fut_of, keep, delay)
            == find_async_run(PredicateState::Empty, Step::PollIter, a, 0, fut_of, keep, delay),
{
    assert(Seq::<T>::empty() + script_items(a).filter(keep) =~= script_items(a).filter(keep));
    lemma_find_async_run_stops_from(PredicateState::<T, Fut>::Empty, a, b, 0, fut_of, keep, delay);
}

/// Folding a sequence with an item in front folds that item first.
pub proof fn lemma_fold_left_prepend<T, X>(x: X, s: Seq<X>, acc: T, g: spec_fn(T, X) -> T)
    ensures
        (seq![x] + s).fold_left(acc, g) == s.fold_left(g(acc, x), g),
{
    let t = seq![x] + s;
    t.lemma_fold_left_alt(acc, g);
    s.lemma_fold_left_alt(g(acc, x), g);
    assert(t.subrange(1, t.len() as int) =~= s);
}

/// Orders the steps of a reduction, so that a run of steps that consumes
/// nothing is finite.
pub open spec fn reduce_rank<T, Fut>(holder: ReduceHolder<T, Fut>, step: Step<Option<T>>) -> int {
    match step {
        Step::PollIter => 0,
        Step::PollHeld => 2,
        Step::Finish(_) => if holder is C { 3 } else { 1 },
    }
}

/// The number of `Pending` answers due from the future `ReduceAsync` makes
/// from `holder` for the answer `p`, or `wait` when it makes none.
pub open spec fn reduce_next_wait<T, Fut>(
    holder: ReduceHolder<T, Fut>,
    p: Poll<Option<T>>,
    wait: nat,
    delay: spec_fn(T, T) -> nat,
) -> nat {
    match p {
        Poll::Ready(Some(x)) => if holder is B {
            delay(holder->B_unpinned, x)
        } else {
            wait
        },
        _ => wait,
    }
}

/// The answer of `ReduceAsync` from `holder`, when `step` is the step to
/// take now, over the script `a`, where `wait` counts the `Pending` answers
/// still due from the future in flight, the function returns the future
/// `fut_of(acc, x)` for each accumulator and item, which answers `Pending`
/// `delay(acc, x)` times, and a future `fut` resolves to `resolve(fut)`.
pub open spec fn reduce_async_run<T, Fut>(
    holder: ReduceHolder<T, Fut>,
    step: Step<Option<T>>,
    a: Seq<Poll<Option<T>>>,
    wait: nat,
    fut_of: spec_fn(T, T) -> Fut,
    resolve: spec_fn(Fut) -> T,
    delay: spec_fn(T, T) -> nat,
) -> Option<T>
    decreases a.len(), wait, reduce_rank(holder, step),
{
    match step {
        Step::PollIter => if a.len() == 0 {
            None
        } else {
            let (next, step) = reduce_on_iter(holder, a[0], fut_of(holder->B_unpinned, answered(a[0])));
            reduce_async_run(
                next,
                step,
                a.drop_first(),
                reduce_next_wait(holder, a[0], wait, delay),
                fut_of,
                resolve,
                delay,
            )
        },
        Step::PollHeld => if holder is C {
            if wait > 0 {
                let (next, step) = reduce_on_held(holder, Poll::Pending);
                reduce_async_run(next, step, a, (wait - 1) as nat, fut_of, resolve, delay)
            } else {
                let (next, step) = reduce_on_held(holder, Poll::Ready(resolve(holder->C_pinned)));
                reduce_async_run(next, step, a, 0, fut_of, resolve, delay)
            }
        } else {
            None
        },
        Step::Finish(Poll::Ready(answer)) => answer,
        Step::Finish(Poll::Pending) => reduce_async_run(
            holder,
            reduce_resume(holder),
            a,
            wait,
            fut_of,
            resolve,
            delay,
        ),
    }
}

/// What `ReduceAsync` answers from `holder` over the items `s` still to come.
pub open spec fn reduce_expected<T, Fut>(
    holder: ReduceHolder<T, Fut>,
    s: Seq<T>,
    resolve: spec_fn(Fut) -> T,
    g: spec_fn(T, T) -> T,
) -> Option<T> {
    match holder {
        ThreeStates::A { .. } => if s.len() == 0 {
            None
        } else {
            Some(s.drop_first().fold_left(s[0], g))
        },
        ThreeStates::B { unpinned: acc, .. } => Some(s.fold_left(acc, g)),
        ThreeStates::C { pinned: fut, .. } => Some(s.fold_left(resolve(fut), g)),
    }
}

/// From any holder, `ReduceAsync` answers what [`reduce_expected`] says.
pub proof fn lemma_reduce_async_run_from<T, Fut>(
    holder: ReduceHolder<T, Fut>,
    a: Seq<Poll<Option<T>>>,
    wait: nat,
    fut_of: spec_fn(T, T) -> Fut,
    resolve: spec_fn(Fut) -> T,
    delay: spec_fn(T, T) -> nat,
    g: spec_fn(T, T) -> T,
)
    requires
        script_ends(a),
        forall|acc: T, x: T| #[trigger] resolve(fut_of(acc, x)) == g(acc, x),
    ensures
        reduce_async_run(holder, reduce_resume(holder), a, wait, fut_of, resolve, delay)
            == reduce_expected(holder, script_items(a), resolve, g),
    decreases a.len(), wait, if holder is C { 1int } else { 0int },
{
    let run = reduce_async_run(holder, reduce_resume(holder), a, wait, fut_of, resolve, delay);
    let rest = a.drop_first();
    match holder {
        ThreeStates::C { pinned: fut, .. } => {
            if wait > 0 {
                lemma_reduce_async_run_from(holder, a, (wait - 1) as nat, fut_of, resolve, delay, g);
                assert(run == reduce_async_run(holder, Step::Finish(Poll::Pending), a, (wait - 1) as nat, fut_of, resolve, delay));
            } else {
                let next = ReduceHolder::<T, Fut>::B { pinned: (), unpinned: resolve(fut) };
                lemma_reduce_async_run_from(next, a, 0, fut_of, resolve, delay, g);
                assert(run == reduce_async_run(next, Step::PollIter, a, 0, fut_of, resolve, delay));
            }
        },
        _ => {
            match a[0] {
                Poll::Pending => {
                    lemma_script_ends_rest(a);
                    lemma_reduce_async_run_from(holder, rest, wait, fut_of, resolve, delay, g);
                    assert(run == reduce_async_run(holder, Step::Finish(Poll::Pending), rest, wait, fut_of, resolve, delay));
                    assert(script_items(a) == script_items(rest));
                },
                Poll::Ready(None) => {
                    assert(script_items(a) =~= Seq::<T>::empty());
                    match holder {
                        ThreeStates::B { unpinned: acc, .. } => {
                            assert(run == reduce_async_run(
                                ReduceHolder::<T, Fut>::A { pinned: (), unpinned: () },
                                Step::Finish(Poll::Ready(Some(acc))),
                                rest,
                                wait,
                                fut_of,
                                resolve,
                                delay,
                            ));
                        },
                        _ => {
                            assert(run == reduce_async_run(holder, Step::Finish(Poll::Ready(None)), rest, wait, fut_of, resolve, delay));
                        },
                    }
                },
                Poll::Ready(Some(x)) => {
                    lemma_script_ends_rest(a);
                    assert(script_items(a) == seq![x] + script_items(rest));
                    match holder {
                        ThreeStates::B { unpinned: acc, .. } => {
                            let next = ReduceHolder::<T, Fut>::C { pinned: fut_of(acc, x), unpinned: () };
                            lemma_reduce_async_run_from(next, rest, delay(acc, x), fut_of, resolve, delay, g);
                            assert(run == reduce_async_run(next, Step::PollHeld, rest, delay(acc, x), fut_of, resolve, delay));
                            assert(resolve(fut_of(acc, x)) == g(acc, x));
                            lemma_fold_left_prepend(x, script_items(rest), acc, g);
                        },
                        _ => {
                            let next = ReduceHolder::<T, Fut>::B { pinned: (), unpinned: x };
                            lemma_reduce_async_run_from(next, rest, wait, fut_of, resolve, delay, g);
                            assert(run == reduce_async_run(next, Step::PollIter, rest, wait, fut_of, resolve, delay));
                            assert((seq![x] + script_items(rest)).drop_first() =~= script_items(rest));
                        },
                    }
                },
            }
        },
    }
}

/// `ReduceAsync` answers `None` for no items, else the first item combined
/// with each next one in turn by the outputs of the function's futures,
/// however many times the iterator and the futures answer `Pending`.
pub proof fn lemma_reduce_async_run<T, Fut>(
    a: Seq<Poll<Option<T>>>,
    fut_of: spec_fn(T, T) -> Fut,
    resolve: spec_fn(Fut) -> T,
    delay: spec_fn(T, T) -> nat,
    g: spec_fn(T, T) -> T,
)
    requires
        script_ends(a),
        forall|acc: T, x: T| #[trigger] resolve(fut_of(acc, x)) == g(acc, x),
    ensures
        ({
            let s = script_items(a);
            reduce_async_run(
                ReduceHolder::<T, Fut>::A { pinned: (), unpinned: () },
                Step::PollIter,
                a,
                0,
                fut_of,
                resolve,
                delay,
            ) == (if s.len() == 0 {
                None
            } else {
                Some(s.drop_first().fold_left(s[0], g))
            })
        }),
{
    lemma_reduce_async_run_from(
        ReduceHolder::<T, Fut>::A { pinned: (), unpinned: () },
        a,
        0,
        fut_of,
        resolve,
        delay,
        g,
    );
}

/// Orders the steps of `FoldAsync`, so that a run of steps that consumes
/// nothing is finite.
pub open spec fn fold_rank<T, Fut, R>(state: FoldState<T, Fut>, step: Step<R>) -> int {
    match step {
        Step::PollIter => 0,
        Step::PollHeld => 2,
        Step::Finish(Poll::Ready(_)) => 0,
        Step::Finish(Poll::Pending) => if state is Future { 3 } else { 1 },
    }
}

/// The number of `Pending` answers due from the future `FoldAsync` makes
/// from `state` for the answer `p`, or `wait` when it makes none.
pub open spec fn fold_next_wait<T, X, Fut>(
    state: FoldState<T, Fut>,
    p: Poll<Option<X>>,
    wait: nat,
    delay: spec_fn(T, X) -> nat,
) -> nat {
    match p {
        Poll::Ready(Some(x)) => delay(state->Accumulate_0, x),
        _ => wait,
    }
}

/// The answer of `FoldAsync` from `state`, when `step` is the step to take
/// now, over the script `a`, where the getter returns `get(acc)` on the
/// accumulator `acc` and leaves `rest(acc)` of it, and the function returns
/// `fut_of(v, x)` for a value `v` and an item `x`, which answers `Pending`
/// `delay(acc, x)` times, then `resolve` of it.
pub open spec fn fold_async_run<T, X, Fut>(
    state: FoldState<T, Fut>,
    step: Step<T>,
    a: Seq<Poll<Option<X>>>,
    wait: nat,
    get: spec_fn(T) -> T,
    rest: spec_fn(T) -> T,
    fut_of: spec_fn(T, X) -> Fut,
    resolve: spec_fn(Fut) -> T,
    delay: spec_fn(T, X) -> nat,
) -> Option<T>
    decreases a.len(), wait, fold_rank(state, step),
{
    match step {
        Step::PollIter => if a.len() == 0 {
            None
        } else {
            let acc = state->Accumulate_0;
            let (next, step) = fold_async_on_iter(state, a[0], fut_of(get(acc), answered(a[0])), (get(acc), rest(acc)));
            fold_async_run(next, step, a.drop_first(), fold_next_wait(state, a[0], wait, delay), get, rest, fut_of, resolve, delay)
        },
        Step::PollHeld => if state is Future {
            if wait > 0 {
                let (next, step) = fold_async_on_held(state, Poll::Pending);
                fold_async_run(next, step, a, (wait - 1) as nat, get, rest, fut_of, resolve, delay)
            } else {
                let (next, step) = fold_async_on_held(state, Poll::Ready(resolve(state->Future_0)));
                fold_async_run(next, step, a, 0, get, rest, fut_of, resolve, delay)
            }
        } else {
            None
        },
        Step::Finish(Poll::Ready(answer)) => Some(answer),
        Step::Finish(Poll::Pending) => fold_async_run(
            state,
            fold_async_resume(state),
            a,
            wait,
            get,
            rest,
            fut_of,
            resolve,
            delay,
        ),
    }
}

/// The accumulator `FoldAsync` continues from in `state`.
pub open spec fn fold_current<T, Fut>(state: FoldState<T, Fut>, resolve: spec_fn(Fut) -> T) -> T {
    match state {
        FoldState::Accumulate(acc) => acc,
        FoldState::Future(fut) => resolve(fut),
    }
}

/// From any state, `FoldAsync` answers the value of its current
/// accumulator folded with the items still to come.
pub proof fn lemma_fold_async_run_from<T, X, Fut>(
    state: FoldState<T, Fut>,
    a: Seq<Poll<Option<X>>>,
    wait: nat,
    get: spec_fn(T) -> T,
    rest: spec_fn(T) -> T,
    fut_of: spec_fn(T, X) -> Fut,
    resolve: spec_fn(Fut) -> T,
    delay: spec_fn(T, X) -> nat,
    g: spec_fn(T, X) -> T,
)
    requires
        script_ends(a),
        forall|acc: T, x: X| #[trigger] g(acc, x) == resolve(fut_of(get(acc), x)),
    ensures
        fold_async_run(state, fold_async_resume(state), a, wait, get, rest, fut_of, resolve, delay)
            == Some(get(script_items(a).fold_left(fold_current(state, resolve), g))),
    decreases a.len(), wait, if state is Future { 1int } else { 0int },
{
    let run = fold_async_run(state, fold_async_resume(state), a, wait, get, rest, fut_of, resolve, delay);
    let tail = a.drop_first();
    match state {
        FoldState::Future(fut) => {
            if wait > 0 {
                lemma_fold_async_run_from(state, a, (wait - 1) as nat, get, rest, fut_of, resolve, delay, g);
                assert(run == fold_async_run(state, Step::Finish(Poll::Pending), a, (wait - 1) as nat, get, rest, fut_of, resolve, delay));
            } else {
                let next = FoldState::<T, Fut>::Accumulate(resolve(fut));
                lemma_fold_async_run_from(next, a, 0, get, rest, fut_of, resolve, delay, g);
                assert(run == fold_async_run(next, Step::PollIter, a, 0, get, rest, fut_of, resolve, delay));
            }
        },
        FoldState::Accumulate(acc) => {
            match a[0] {
                Poll::Pending => {
                    lemma_script_ends_rest(a);
                    lemma_fold_async_run_from(state, tail, wait, get, rest, fut_of, resolve, delay, g);
                    assert(run == fold_async_run(state, Step::Finish(Poll::Pending), tail, wait, get, rest, fut_of, resolve, delay));
                    assert(script_items(a) == script_items(tail));
                },
                Poll::Ready(None) => {
                    assert(script_items(a) =~= Seq::<X>::empty());
                    assert(run == fold_async_run(
                        FoldState::<T, Fut>::Accumulate(rest(acc)),
                        Step::Finish(Poll::Ready(get(acc))),
                        tail,
                        wait,
                        get,
                        rest,
                        fut_of,
                        resolve,
                        delay,
                    ));
                },
                Poll::Ready(Some(x)) => {
                    lemma_script_ends_rest(a);
                    assert(script_items(a) == seq![x] + script_items(tail));
                    let next = FoldState::<T, Fut>::Future(fut_of(get(acc), x));
                    lemma_fold_async_run_from(next, tail, delay(acc, x), get, rest, fut_of, resolve, delay, g);
                    assert(run == fold_async_run(next, Step::PollHeld, tail, delay(acc, x), get, rest, fut_of, resolve, delay));
                    assert(g(acc, x) == resolve(fut_of(get(acc), x)));
                    lemma_fold_left_prepend(x, script_items(tail), acc, g);
                },
            }
        },
    }
}

/// `FoldAsync` answers the value of the initial accumulator combined with
/// each item in turn by the outputs of the function's futures, each made on
/// the value the getter gives, however many times the iterator and the
/// futures answer `Pending`.
pub proof fn lemma_fold_async_run<T, X, Fut>(
    init: T,
    a: Seq<Poll<Option<X>>>,
    get: spec_fn(T) -> T,
    rest: spec_fn(T) -> T,
    fut_of: spec_fn(T, X) -> Fut,
    resolve: spec_fn(Fut) -> T,
    delay: spec_fn(T, X) -> nat,
    g: spec_fn(T, X) -> T,
)
    requires
        script_ends(a),
        forall|acc: T, x: X| #[trigger] g(acc, x) == resolve(fut_of(get(acc), x)),
    ensures
        fold_async_run(FoldState::<T, Fut>::Accumulate(init), Step::PollIter, a, 0, get, rest, fut_of, resolve, delay)
            == Some(get(script_items(a).fold_left(init, g))),
{
    lemma_fold_async_run_from(FoldState::<T, Fut>::Accumulate(init), a, 0, get, rest, fut_of, resolve, delay, g);
}

/// The pairs of items at equal positions of `l` and `r`, as many as the
/// shorter one has.
pub open spec fn zip_pairs<TA, TB>(l: Seq<TA>, r: Seq<TB>) -> Seq<(TA, TB)> {
    Seq::new(if l.len() <= r.len() { l.len() } else { r.len() }, |i: int| (l[i], r[i]))
}

/// The items `Zip` answers from `buffer`, when `step` is the step to take
/// now, over the scripts `l` of the left and `r` of the right iterator.
pub open spec fn zip_run<TA, TB>(
    buffer: ZipBuffer<TA, TB>,
    step: ZipStep<Option<(TA, TB)>>,
    l: Seq<Poll<Option<TA>>>,
    r: Seq<Poll<Option<TB>>>,
) -> Seq<(TA, TB)>
    decreases l.len() + r.len(), if step is Finish { 1int } else { 0int },
{
    match step {
        ZipStep::PollLeft => if l.len() == 0 {
            Seq::empty()
        } else {
            let (next, step) = zip_on_left(buffer, l[0]);
            zip_run(next, step, l.drop_first(), r)
        },
        ZipStep::PollRight => if r.len() == 0 {
            Seq::empty()
        } else {
            let (next, step) = zip_on_right(buffer, r[0]);
            zip_run(next, step, l, r.drop_first())
        },
        ZipStep::Finish(Poll::Ready(Some(pair))) => seq![pair] + zip_run(
            buffer,
            zip_resume(buffer),
            l,
            r,
        ),
        ZipStep::Finish(Poll::Pending) => zip_run(buffer, zip_resume(buffer), l, r),
        ZipStep::Finish(Poll::Ready(None)) => Seq::empty(),
    }
}

/// The left item `buffer` holds ahead, if any.
pub open spec fn held_left<TA, TB>(buffer: ZipBuffer<TA, TB>) -> Seq<TA> {
    match buffer {
        ThreeStates::B { unpinned: a, .. } => seq![a],
        _ => Seq::empty(),
    }
}

/// The right item `buffer` holds ahead, if any.
pub open spec fn held_right<TA, TB>(buffer: ZipBuffer<TA, TB>) -> Seq<TB> {
    match buffer {
        ThreeStates::C { unpinned: b, .. } => seq![b],
        _ => Seq::empty(),
    }
}

/// The steps `Zip` takes from `buffer` when it asks for an item: the left
/// one while it holds no left item, the right one while it holds no right item.
pub open spec fn zip_asks<TA, TB>(buffer: ZipBuffer<TA, TB>, step: ZipStep<Option<(TA, TB)>>) -> bool {
    match buffer {
        ThreeStates::A { .. } => step is PollLeft || step is PollRight,
        ThreeStates::B { .. } => step is PollRight,
        ThreeStates::C { .. } => step is PollLeft,
    }
}

/// From any buffer and step that asks for an item, `Zip` answers the pairs
/// of the items held ahead and still to come on each side.
pub proof fn lemma_zip_run_from<TA, TB>(
    buffer: ZipBuffer<TA, TB>,
    step: ZipStep<Option<(TA, TB)>>,
    l: Seq<Poll<Option<TA>>>,
    r: Seq<Poll<Option<TB>>>,
)
    requires
        script_ends(l),
        script_ends(r),
        zip_asks(buffer, step),
    ensures
        zip_run(buffer, step, l, r) == zip_pairs(
            held_left(buffer) + script_items(l),
            held_right(buffer) + script_items(r),
        ),
    decreases l.len() + r.len(),
{
    let run = zip_run(buffer, step, l, r);
    let empty = ZipBuffer::<TA, TB>::A { pinned: (), unpinned: () };
    let ls = held_left(buffer) + script_items(l);
    let rs = held_right(buffer) + script_items(r);
    if step is PollLeft {
        let rest = l.drop_first();
        match l[0] {
            Poll::Pending => {
                lemma_script_ends_rest(l);
                assert(script_items(l) == script_items(rest));
                if buffer is A {
                    lemma_zip_run_from(buffer, ZipStep::PollRight, rest, r);
                    assert(run == zip_run(buffer, ZipStep::PollRight, rest, r));
                } else {
                    lemma_zip_run_from(buffer, ZipStep::PollLeft, rest, r);
                    assert(run == zip_run(buffer, ZipStep::Finish(Poll::Pending), rest, r));
                }
            },
            Poll::Ready(None) => {
                assert(script_items(l) =~= Seq::<TA>::empty());
                assert(run == zip_run(buffer, ZipStep::Finish(Poll::Ready(None)), rest, r));
                assert(zip_pairs(ls, rs) =~= Seq::<(TA, TB)>::empty());
            },
            Poll::Ready(Some(a)) => {
                lemma_script_ends_rest(l);
                assert(script_items(l) == seq![a] + script_items(rest));
                if buffer is A {
                    let held = ZipBuffer::<TA, TB>::B { pinned: (), unpinned: a };
                    lemma_zip_run_from(held, ZipStep::PollRight, rest, r);
                    assert(run == zip_run(held, ZipStep::PollRight, rest, r));
                    assert(ls =~= held_left(held) + script_items(rest));
                    assert(rs =~= held_right(held) + script_items(r));
                } else {
                    let b = buffer->C_unpinned;
                    lemma_zip_run_from(empty, ZipStep::PollLeft, rest, r);
                    assert(run == zip_run(empty, ZipStep::Finish(Poll::Ready(Some((a, b)))), rest, r));
                    assert(run == seq![(a, b)] + zip_run(empty, ZipStep::PollLeft, rest, r));
                    assert(zip_pairs(ls, rs) =~= seq![(a, b)] + zip_pairs(
                        held_left(empty) + script_items(rest),
                        held_right(empty) + script_items(r),
                    ));
                }
            },
        }
    } else {
        let rest = r.drop_first();
        match r[0] {
            Poll::Pending => {
                lemma_script_ends_rest(r);
                assert(script_items(r) == script_items(rest));
                lemma_zip_run_from(buffer, zip_resume(buffer), l, rest);
                assert(run == zip_run(buffer, ZipStep::Finish(Poll::Pending), l, rest));
            },
            Poll::Ready(None) => {
                assert(script_items(r) =~= Seq::<TB>::empty());
                assert(run == zip_run(buffer, ZipStep::Finish(Poll::Ready(None)), l, rest));
                assert(zip_pairs(ls, rs) =~= Seq::<(TA, TB)>::empty());
            },
            Poll::Ready(Some(b)) => {
                lemma_script_ends_rest(r);
                assert(script_items(r) == seq![b] + script_items(rest));
                if buffer is A {
                    let held = ZipBuffer::<TA, TB>::C { pinned: (), unpinned: b };
                    lemma_zip_run_from(held, ZipStep::PollLeft, l, rest);
                    assert(run == zip_run(held, ZipStep::PollLeft, l, rest));
                    assert(ls =~= held_left(held) + script_items(l));
                    assert(rs =~= held_right(held) + script_items(rest));
                } else {
                    let a = buffer->B_unpinned;
                    lemma_zip_run_from(empty, ZipStep::PollLeft, l, rest);
                    assert(run == zip_run(empty, ZipStep::Finish(Poll::Ready(Some((a, b)))), l, rest));
                    assert(run == seq![(a, b)] + zip_run(empty, ZipStep::PollLeft, l, rest));
                    assert(zip_pairs(ls, rs) =~= seq![(a, b)] + zip_pairs(
                        held_left(empty) + script_items(l),
                        held_right(empty) + script_items(rest),
                    ));
                }
            },
        }
    }
}

/// `Zip` answers the pairs of items at equal positions, as many as the
/// shorter side yields, however many times either side answers `Pending`.
pub proof fn lemma_zip_run<TA, TB>(l: Seq<Poll<Option<TA>>>, r: Seq<Poll<Option<TB>>>)
    requires
        script_ends(l),
        script_ends(r),
    ensures
        ({
            let empty = ZipBuffer::<TA, TB>::A { pinned: (), unpinned: () };
            zip_run(empty, zip_resume(empty), l, r) == zip_pairs(script_items(l), script_items(r))
        }),
{
    let empty = ZipBuffer::<TA, TB>::A { pinned: (), unpinned: () };
    lemma_zip_run_from(empty, zip_resume(empty), l, r);
    assert(held_left(empty) + script_items(l) =~= script_items(l));
    assert(held_right(empty) + script_items(r) =~= script_items(r));
}

/// A script of an iterator whose items are scripts of sub-iterators.
pub type NestedScript<T> = Seq<Poll<Option<Seq<Poll<Option<T>>>>>>;

/// The sub-iterator a flattening iterator holds after the outer iterator
/// answered `p`.
pub open spec fn sub_after_outer<T>(p: Poll<Option<Seq<Poll<Option<T>>>>>) -> Option<Seq<Poll<Option<T>>>> {
    match p {
        Poll::Ready(Some(sub)) => Some(sub),
        _ => None,
    }
}

/// The sub-iterator left after it answered its first answer.
pub open spec fn sub_after_answer<T>(sub: Seq<Poll<Option<T>>>) -> Option<Seq<Poll<Option<T>>>> {
    if sub[0] == Poll::<Option<T>>::Ready(None) {
        None
    } else {
        Some(sub.drop_first())
    }
}

/// How far a held sub-iterator still is from its end.
pub open spec fn sub_measure<T>(sub: Option<Seq<Poll<Option<T>>>>) -> nat {
    match sub {
        None => 0,
        Some(s) => s.len() + 1,
    }
}

/// Orders the steps of a flattening iterator, so that a run of steps that
/// consumes nothing is finite.
pub open spec fn flatten_rank<S, R>(sub: Option<S>, step: Step<R>) -> int {
    match step {
        Step::PollIter => 0,
        Step::PollHeld => 2,
        Step::Finish(_) => if sub is Some { 3 } else { 1 },
    }
}

/// The items `Flatten` answers while holding the sub-iterator with script
/// `sub` (or none), when `step` is the step to take now, over the outer
/// script `a`.
pub open spec fn flatten_run<T>(
    sub: Option<Seq<Poll<Option<T>>>>,
    step: Step<Option<T>>,
    a: NestedScript<T>,
) -> Seq<T>
    decreases a.len(), sub_measure(sub), flatten_rank(sub, step),
{
    match step {
        Step::PollIter => if a.len() == 0 {
            Seq::empty()
        } else {
            flatten_run(sub_after_outer(a[0]), flatten_on_iter_step(a[0]), a.drop_first())
        },
        Step::PollHeld => match sub {
            Some(s) => if s.len() == 0 {
                Seq::empty()
            } else {
                flatten_run(sub_after_answer(s), flatten_on_held_step(s[0]), a)
            },
            None => Seq::empty(),
        },
        Step::Finish(Poll::Ready(Some(x))) => seq![x] + flatten_run(sub, flatten_resume(sub), a),
        Step::Finish(Poll::Pending) => flatten_run(sub, flatten_resume(sub), a),
        Step::Finish(Poll::Ready(None)) => Seq::empty(),
    }
}

/// Every sub-iterator among the items of `a` ends.
pub open spec fn subs_end<T>(a: NestedScript<T>) -> bool {
    forall|i: int| 0 <= i < script_items(a).len() ==> script_ends(#[trigger] script_items(a)[i])
}

/// The items of what is held, or none.
pub open spec fn held_items<T>(sub: Option<Seq<Poll<Option<T>>>>) -> Seq<T> {
    match sub {
        Some(s) => script_items(s),
        None => Seq::empty(),
    }
}

/// Flattening a sequence with a sequence in front puts its items in front.
pub proof fn lemma_flatten_prepend<T>(x: Seq<T>, s: Seq<Seq<T>>)
    ensures
        (seq![x] + s).flatten() == x + s.flatten(),
{
    let t = seq![x] + s;
    assert(t.drop_first() =~= s);
}

/// From any held sub-iterator, `Flatten` answers its remaining items, then
/// the items of each next sub-iterator in turn.
pub proof fn lemma_flatten_run_from<T>(sub: Option<Seq<Poll<Option<T>>>>, a: NestedScript<T>)
    requires
        script_ends(a),
        subs_end(a),
        sub matches Some(s) ==> script_ends(s),
    ensures
        flatten_run(sub, flatten_resume(sub), a) == held_items(sub) + script_items(a).map_values(
            |s: Seq<Poll<Option<T>>>| script_items(s),
        ).flatten(),
    decreases a.len(), sub_measure(sub),
{
    let f = |s: Seq<Poll<Option<T>>>| script_items(s);
    let run = flatten_run(sub, flatten_resume(sub), a);
    match sub {
        None => {
            let rest = a.drop_first();
            match a[0] {
                Poll::Pending => {
                    lemma_script_ends_rest(a);
                    assert(script_items(a) == script_items(rest));
                    lemma_flatten_run_from(sub, rest);
                    assert(run == flatten_run(sub, Step::Finish(Poll::Pending), rest));
                },
                Poll::Ready(None) => {
                    assert(script_items(a) =~= Seq::<Seq<Poll<Option<T>>>>::empty());
                    assert(script_items(a).map_values(f) =~= Seq::<Seq<T>>::empty());
                    assert(run == flatten_run(sub, Step::Finish(Poll::Ready(None)), rest));
                    assert(held_items(sub) + script_items(a).map_values(f).flatten() =~= Seq::<T>::empty());
                },
                Poll::Ready(Some(s)) => {
                    lemma_script_ends_rest(a);
                    assert(script_items(a) == seq![s] + script_items(rest));
                    assert(script_items(a)[0] == s);
                    assert forall|i: int| 0 <= i < script_items(rest).len() implies script_ends(
                        #[trigger] script_items(rest)[i],
                    ) by {
                        assert(script_items(rest)[i] == script_items(a)[i + 1]);
                    }
                    lemma_flatten_run_from(Some(s), rest);
                    assert(run == flatten_run(Some(s), Step::PollHeld, rest));
                    assert(script_items(a).map_values(f) =~= seq![script_items(s)] + script_items(rest).map_values(f));
                    lemma_flatten_prepend(script_items(s), script_items(rest).map_values(f));
                    assert(held_items(sub) + script_items(a).map_values(f).flatten() =~= held_items(Some(s))
                        + script_items(rest).map_values(f).flatten());
                },
            }
        },
        Some(s) => {
            let rest = s.drop_first();
            match s[0] {
                Poll::Pending => {
                    lemma_script_ends_rest(s);
                    assert(script_items(s) == script_items(rest));
                    lemma_flatten_run_from(Some(rest), a);
                    assert(run == flatten_run(Some(rest), Step::Finish(Poll::Pending), a));
                },
                Poll::Ready(None) => {
                    assert(script_items(s) =~= Seq::<T>::empty());
                    lemma_flatten_run_from(None, a);
                    assert(run == flatten_run(None, Step::PollIter, a));
                    assert(held_items(sub) + script_items(a).map_values(f).flatten() =~= held_items(None::<Seq<Poll<Option<T>>>>)
                        + script_items(a).map_values(f).flatten());
                },
                Poll::Ready(Some(x)) => {
                    lemma_script_ends_rest(s);
                    assert(script_items(s) == seq![x] + script_items(rest));
                    lemma_flatten_run_from(Some(rest), a);
                    assert(run == flatten_run(Some(rest), Step::Finish(Poll::Ready(Some(x))), a));
                    assert(run == seq![x] + flatten_run(Some(rest), Step::PollHeld, a));
                    assert(held_items(sub) + script_items(a).map_values(f).flatten() =~= seq![x] + (held_items(Some(rest))
                        + script_items(a).map_values(f).flatten()));
                },
            }
        },
    }
}

/// `Flatten` answers the items of each sub-iterator in turn, however many
/// times the outer iterator and the sub-iterators answer `Pending`, and ends
/// when the outer iterator ends.
pub proof fn lemma_flatten_run<T>(a: NestedScript<T>)
    requires
        script_ends(a),
        subs_end(a),
    ensures
        flatten_run(None, Step::PollIter, a) == script_items(a).map_values(
            |s: Seq<Poll<Option<T>>>| script_items(s),
        ).flatten(),
{
    lemma_flatten_run_from(None, a);
    let f = |s: Seq<Poll<Option<T>>>| script_items(s);
    assert(held_items(None::<Seq<Poll<Option<T>>>>) + script_items(a).map_values(f).flatten()
        =~= script_items(a).map_values(f).flatten());
}

/// A script of an iterator whose items are a sub-iterator's script or a failure.
pub type FallibleNestedScript<T, E> = Seq<Poll<Option<Result<Seq<Poll<Option<Result<T, E>>>>, E>>>>;

/// The sub-iterator `TryFlatten` holds after the outer iterator answered `p`.
pub open spec fn try_sub_after_outer<T, E>(
    p: Poll<Option<Result<Seq<Poll<Option<Result<T, E>>>>, E>>>,
) -> Option<Seq<Poll<Option<Result<T, E>>>>> {
    match p {
        Poll::Ready(Some(Ok(sub))) => Some(sub),
        _ => None,
    }
}

/// The items `TryFlatten` answers while holding the sub-iterator with
/// script `sub` (or none), when `step` is the step to take now, over the
/// outer script `a`.
pub open spec fn try_flatten_run<T, E>(
    sub: Option<Seq<Poll<Option<Result<T, E>>>>>,
    step: Step<Option<Result<T, E>>>,
    a: FallibleNestedScript<T, E>,
) -> Seq<Result<T, E>>
    decreases a.len(), sub_measure(sub), flatten_rank(sub, step),
{
    match step {
        Step::PollIter => if a.len() == 0 {
            Seq::empty()
        } else {
            try_flatten_run(try_sub_after_outer(a[0]), try_flatten_on_iter_step(a[0]), a.drop_first())
        },
        Step::PollHeld => match sub {
            Some(s) => if s.len() == 0 {
                Seq::empty()
            } else {
                try_flatten_run(sub_after_answer(s), flatten_on_held_step(s[0]), a)
            },
            None => Seq::empty(),
        },
        Step::Finish(Poll::Ready(Some(x))) => seq![x] + try_flatten_run(sub, flatten_resume(sub), a),
        Step::Finish(Poll::Pending) => try_flatten_run(sub, flatten_resume(sub), a),
        Step::Finish(Poll::Ready(None)) => Seq::empty(),
    }
}

/// What one outer item contributes: the items of its sub-iterator, or the
/// failure itself.
pub open spec fn try_piece<T, E>(item: Result<Seq<Poll<Option<Result<T, E>>>>, E>) -> Seq<Result<T, E>> {
    match item {
        Ok(s) => script_items(s),
        Err(e) => seq![Err(e)],
    }
}

/// Every sub-iterator among the successes of `a` ends.
pub open spec fn try_subs_end<T, E>(a: FallibleNestedScript<T, E>) -> bool {
    forall|i: int|
        0 <= i < script_items(a).len() ==> (#[trigger] script_items(a)[i] matches Ok(s) ==> script_ends(s))
}

/// From any held sub-iterator, `TryFlatten` answers its remaining items,
/// then, for each next outer item, the items of its sub-iterator or the
/// failure.
pub proof fn lemma_try_flatten_run_from<T, E>(
    sub: Option<Seq<Poll<Option<Result<T, E>>>>>,
    a: FallibleNestedScript<T, E>,
)
    requires
        script_ends(a),
        try_subs_end(a),
        sub matches Some(s) ==> script_ends(s),
    ensures
        try_flatten_run(sub, flatten_resume(sub), a) == held_items(sub) + script_items(a).map_values(
            |x: Result<Seq<Poll<Option<Result<T, E>>>>, E>| try_piece(x),
        ).flatten(),
    decreases a.len(), sub_measure(sub),
{
    let f = |x: Result<Seq<Poll<Option<Result<T, E>>>>, E>| try_piece(x);
    let run = try_flatten_run(sub, flatten_resume(sub), a);
    let none = None::<Seq<Poll<Option<Result<T, E>>>>>;
    match sub {
        None => {
            let rest = a.drop_first();
            match a[0] {
                Poll::Pending => {
                    lemma_script_ends_rest(a);
                    assert(script_items(a) == script_items(rest));
                    lemma_try_flatten_run_from(sub, rest);
                    assert(run == try_flatten_run(sub, Step::Finish(Poll::Pending), rest));
                },
                Poll::Ready(None) => {
                    assert(script_items(a) =~= Seq::<Result<Seq<Poll<Option<Result<T, E>>>>, E>>::empty());
                    assert(script_items(a).map_values(f) =~= Seq::<Seq<Result<T, E>>>::empty());
                    assert(run == try_flatten_run(sub, Step::Finish(Poll::Ready(None)), rest));
                    assert(held_items(sub) + script_items(a).map_values(f).flatten() =~= Seq::<Result<T, E>>::empty());
                },
                Poll::Ready(Some(item)) => {
                    lemma_script_ends_rest(a);
                    assert(script_items(a) == seq![item] + script_items(rest));
                    assert(script_items(a)[0] == item);
                    assert forall|i: int| 0 <= i < script_items(rest).len() implies (
                    #[trigger] script_items(rest)[i] matches Ok(s) ==> script_ends(s)) by {
                        assert(script_items(rest)[i] == script_items(a)[i + 1]);
                    }
                    assert(script_items(a).map_values(f) =~= seq![try_piece(item)] + script_items(rest).map_values(f));
                    lemma_flatten_prepend(try_piece(item), script_items(rest).map_values(f));
                    match item {
                        Ok(s) => {
                            lemma_try_flatten_run_from(Some(s), rest);
                            assert(run == try_flatten_run(Some(s), Step::PollHeld, rest));
                            assert(held_items(sub) + script_items(a).map_values(f).flatten() =~= held_items(Some(s))
                                + script_items(rest).map_values(f).flatten());
                        },
                        Err(e) => {
                            lemma_try_flatten_run_from(none, rest);
                            assert(run == try_flatten_run(none, Step::Finish(Poll::Ready(Some(Err(e)))), rest));
                            assert(run == seq![Err(e)] + try_flatten_run(none, Step::PollIter, rest));
                            assert(held_items(sub) + script_items(a).map_values(f).flatten() =~= seq![Err(e)]
                                + (held_items(none) + script_items(rest).map_values(f).flatten()));
                        },
                    }
                },
            }
        },
        Some(s) => {
            let rest = s.drop_first();
            match s[0] {
                Poll::Pending => {
                    lemma_script_ends_rest(s);
                    assert(script_items(s) == script_items(rest));
                    lemma_try_flatten_run_from(Some(rest), a);
                    assert(run == try_flatten_run(Some(rest), Step::Finish(Poll::Pending), a));
                },
                Poll::Ready(None) => {
                    assert(script_items(s) =~= Seq::<Result<T, E>>::empty());
                    lemma_try_flatten_run_from(none, a);
                    assert(run == try_flatten_run(none, Step::PollIter, a));
                    assert(held_items(sub) + script_items(a).map_values(f).flatten() =~= held_items(none)
                        + script_items(a).map_values(f).flatten());
                },
                Poll::Ready(Some(x)) => {
                    lemma_script_ends_rest(s);
                    assert(script_items(s) == seq![x] + script_items(rest));
                    lemma_try_flatten_run_from(Some(rest), a);
                    assert(run == try_flatten_run(Some(rest), Step::Finish(Poll::Ready(Some(x))), a));
                    assert(run == seq![x] + try_flatten_run(Some(rest), Step::PollHeld, a));
                    assert(held_items(sub) + script_items(a).map_values(f).flatten() =~= seq![x] + (held_items(Some(rest))
                        + script_items(a).map_values(f).flatten()));
                },
            }
        },
    }
}

/// `TryFlatten` answers, for each outer item in turn, the items of its
/// sub-iterator when it succeeds and the failure itself when it fails,
/// however many times the iterators answer `Pending`; a failure does not
/// end the answers.
pub proof fn lemma_try_flatten_run<T, E>(a: FallibleNestedScript<T, E>)
    requires
        script_ends(a),
        try_subs_end(a),
    ensures
        try_flatten_run(None, Step::PollIter, a) == script_items(a).map_values(
            |x: Result<Seq<Poll<Option<Result<T, E>>>>, E>| try_piece(x),
        ).flatten(),
{
    lemma_try_flatten_run_from(None, a);
    let f = |x: Result<Seq<Poll<Option<Result<T, E>>>>, E>| try_piece(x);
    assert(held_items(None::<Seq<Poll<Option<Result<T, E>>>>>) + script_items(a).map_values(f).flatten()
        =~= script_items(a).map_values(f).flatten());
}

/// The nested script `FlatMap` drives: each item `x` of the outer script
/// `a` stands for the sub-iterator the function returns for it, given by
/// its script `script_of(x)`.
pub open spec fn mapped_script<X, T>(a: Seq<Poll<Option<X>>>, script_of: spec_fn(X) -> Seq<Poll<Option<T>>>) -> NestedScript<T> {
    a.map_values(
        |p: Poll<Option<X>>|
            match p {
                Poll::Ready(Some(x)) => Poll::Ready(Some(script_of(x))),
                Poll::Ready(None) => Poll::Ready(None),
                Poll::Pending => Poll::Pending,
            },
    )
}

/// Mapping a script maps its items, and keeps whether it ends.
pub proof fn lemma_mapped_script<X, T>(a: Seq<Poll<Option<X>>>, script_of: spec_fn(X) -> Seq<Poll<Option<T>>>)
    ensures
        script_items(mapped_script(a, script_of)) == script_items(a).map_values(script_of),
        script_ends(mapped_script(a, script_of)) == script_ends(a),
    decreases a.len(),
{
    let m = mapped_script(a, script_of);
    if a.len() == 0 {
        assert(script_items(a).map_values(script_of) =~= Seq::<Seq<Poll<Option<T>>>>::empty());
    } else {
        let rest = a.drop_first();
        lemma_mapped_script(rest, script_of);
        assert(m.drop_first() =~= mapped_script(rest, script_of));
        match a[0] {
            Poll::Ready(Some(x)) => {
                assert(script_items(a) == seq![x] + script_items(rest));
                assert(script_items(a).map_values(script_of) =~= seq![script_of(x)] + script_items(rest).map_values(
                    script_of,
                ));
            },
            Poll::Ready(None) => {
                assert(script_items(a) =~= Seq::<X>::empty());
                assert(script_items(m) =~= Seq::<Seq<Poll<Option<T>>>>::empty());
                assert(script_items(a).map_values(script_of) =~= Seq::<Seq<Poll<Option<T>>>>::empty());
            },
            Poll::Pending => {},
        }
    }
}

/// `FlatMap` takes the steps of `Flatten` over the outer items mapped to
/// their sub-iterators; driven to the end it answers, in order, the items
/// of the sub-iterator of each outer item, however many times the outer
/// iterator and the sub-iterators answer `Pending`.
pub proof fn lemma_flat_map_run<X, T>(a: Seq<Poll<Option<X>>>, script_of: spec_fn(X) -> Seq<Poll<Option<T>>>)
    requires
        script_ends(a),
        forall|x: X| #[trigger] script_ends(script_of(x)),
    ensures
        flatten_run(None, Step::PollIter, mapped_script(a, script_of)) == script_items(a).map_values(
            |x: X| script_items(script_of(x)),
        ).flatten(),
{
    let m = mapped_script(a, script_of);
    lemma_mapped_script(a, script_of);
    assert forall|i: int| 0 <= i < script_items(m).len() implies script_ends(#[trigger] script_items(m)[i]) by {
        assert(script_items(m)[i] == script_of(script_items(a)[i]));
    }
    lemma_flatten_run(m);
    let f = |s: Seq<Poll<Option<T>>>| script_items(s);
    assert(script_items(m).map_values(f) =~= script_items(a).map_values(|x: X| script_items(script_of(x))));
}

/// How far `FlatMapAsync` holding the future `fut` and the sub-iterator
/// with script `sub` (each or none) still is from asking the outer
/// iterator again.
pub open spec fn flat_map_measure<Fut, T>(
    fut: Option<Fut>,
    sub: Option<Seq<Poll<Option<T>>>>,
    resolve: spec_fn(Fut) -> Seq<Poll<Option<T>>>,
) -> nat {
    match fut {
        Some(f) => resolve(f).len() + 2,
        None => sub_measure(sub),
    }
}

/// Orders the steps of `FlatMapAsync`, so that a run of steps that consumes
/// nothing is finite.
pub open spec fn flat_map_rank<Fut, S, R>(fut: Option<Fut>, sub: Option<S>, step: FlatMapAsyncStep<R>) -> int {
    match step {
        FlatMapAsyncStep::PollIter => 0,
        FlatMapAsyncStep::PollFuture => 2,
        FlatMapAsyncStep::PollSub => 2,
        FlatMapAsyncStep::Finish(_) => if sub is Some || fut is Some { 3 } else { 1 },
    }
}

/// The items `FlatMapAsync` answers while holding the future `fut` and the
/// sub-iterator with script `sub` (each or none), when `step` is the step
/// to take now, over the outer script `a`, where `wait` counts the
/// `Pending` answers still due from the future in flight, the function
/// returns `fut_of(x)` for an item `x`, which answers `Pending` `delay(x)`
/// times, and a future `f` resolves to the sub-iterator with script
/// `resolve(f)`.
pub open spec fn flat_map_async_run<X, T, Fut>(
    fut: Option<Fut>,
    sub: Option<Seq<Poll<Option<T>>>>,
    step: FlatMapAsyncStep<Option<T>>,
    a: Seq<Poll<Option<X>>>,
    wait: nat,
    fut_of: spec_fn(X) -> Fut,
    resolve: spec_fn(Fut) -> Seq<Poll<Option<T>>>,
    delay: spec_fn(X) -> nat,
) -> Seq<T>
    decreases a.len(), flat_map_measure(fut, sub, resolve), wait, flat_map_rank(fut, sub, step),
{
    match step {
        FlatMapAsyncStep::PollIter => if a.len() == 0 {
            Seq::empty()
        } else {
            let (next, step) = flat_map_async_on_iter::<X, Fut, T>(a[0], fut_of(answered(a[0])));
            flat_map_async_run(next, sub, step, a.drop_first(), next_wait(a[0], wait, delay), fut_of, resolve, delay)
        },
        FlatMapAsyncStep::PollFuture => match fut {
            Some(f) => if wait > 0 {
                let (next, next_sub, step) = flat_map_async_on_future::<Fut, Seq<Poll<Option<T>>>, T>(
                    fut,
                    Poll::Pending,
                );
                flat_map_async_run(next, next_sub, step, a, (wait - 1) as nat, fut_of, resolve, delay)
            } else {
                let (next, next_sub, step) = flat_map_async_on_future::<Fut, Seq<Poll<Option<T>>>, T>(
                    fut,
                    Poll::Ready(resolve(f)),
                );
                flat_map_async_run(next, next_sub, step, a, 0, fut_of, resolve, delay)
            },
            None => Seq::empty(),
        },
        FlatMapAsyncStep::PollSub => match sub {
            Some(s) => if s.len() == 0 || fut is Some {
                Seq::empty()
            } else {
                let step = flat_map_async_on_sub(sub, s[0]).1;
                flat_map_async_run(fut, sub_after_answer(s), step, a, wait, fut_of, resolve, delay)
            },
            None => Seq::empty(),
        },
        FlatMapAsyncStep::Finish(Poll::Ready(Some(y))) => seq![y] + flat_map_async_run(
            fut,
            sub,
            flat_map_async_resume(fut, sub),
            a,
            wait,
            fut_of,
            resolve,
            delay,
        ),
        FlatMapAsyncStep::Finish(Poll::Pending) => flat_map_async_run(
            fut,
            sub,
            flat_map_async_resume(fut, sub),
            a,
            wait,
            fut_of,
            resolve,
            delay,
        ),
        FlatMapAsyncStep::Finish(Poll::Ready(None)) => Seq::empty(),
    }
}

/// The items of what `FlatMapAsync` holds: the sub-iterator the future
/// resolves to, or the sub-iterator, or none.
pub open spec fn flat_map_held_items<Fut, T>(
    fut: Option<Fut>,
    sub: Option<Seq<Poll<Option<T>>>>,
    resolve: spec_fn(Fut) -> Seq<Poll<Option<T>>>,
) -> Seq<T> {
    match fut {
        Some(f) => script_items(resolve(f)),
        None => held_items(sub),
    }
}

/// From any state that holds at most one of a future and a sub-iterator,
/// `FlatMapAsync` answers the items of what it holds, then those of the
/// sub-iterator each item of the rest of the script resolves to.
pub proof fn lemma_flat_map_async_run_from<X, T, Fut>(
    fut: Option<Fut>,
    sub: Option<Seq<Poll<Option<T>>>>,
    a: Seq<Poll<Option<X>>>,
    wait: nat,
    fut_of: spec_fn(X) -> Fut,
    resolve: spec_fn(Fut) -> Seq<Poll<Option<T>>>,
    delay: spec_fn(X) -> nat,
)
    requires
        script_ends(a),
        forall|f: Fut| #[trigger] script_ends(resolve(f)),
        sub matches Some(s) ==> script_ends(s),
        sub is Some ==> fut is None,
    ensures
        flat_map_async_run(fut, sub, flat_map_async_resume(fut, sub), a, wait, fut_of, resolve, delay)
            == flat_map_held_items(fut, sub, resolve) + script_items(a).map_values(
            |x: X| script_items(resolve(fut_of(x))),
        ).flatten(),
    decreases a.len(), flat_map_measure(fut, sub, resolve), wait,
{
    let g = |x: X| script_items(resolve(fut_of(x)));
    let run = flat_map_async_run(fut, sub, flat_map_async_resume(fut, sub), a, wait, fut_of, resolve, delay);
    let none_f = None::<Fut>;
    let none_s = None::<Seq<Poll<Option<T>>>>;
    match sub {
        Some(s) => {
            let rest = s.drop_first();
            match s[0] {
                Poll::Pending => {
                    lemma_script_ends_rest(s);
                    assert(script_items(s) == script_items(rest));
                    lemma_flat_map_async_run_from(none_f, Some(rest), a, wait, fut_of, resolve, delay);
                    assert(run == flat_map_async_run(none_f, Some(rest), FlatMapAsyncStep::Finish(Poll::Pending), a, wait, fut_of, resolve, delay));
                },
                Poll::Ready(None) => {
                    assert(script_items(s) =~= Seq::<T>::empty());
                    lemma_flat_map_async_run_from(none_f, none_s, a, wait, fut_of, resolve, delay);
                    assert(run == flat_map_async_run(none_f, none_s, FlatMapAsyncStep::PollIter, a, wait, fut_of, resolve, delay));
                    assert(flat_map_held_items(fut, sub, resolve) + script_items(a).map_values(g).flatten()
                        =~= script_items(a).map_values(g).flatten());
                },
                Poll::Ready(Some(y)) => {
                    lemma_script_ends_rest(s);
                    assert(script_items(s) == seq![y] + script_items(rest));
                    lemma_flat_map_async_run_from(none_f, Some(rest), a, wait, fut_of, resolve, delay);
                    assert(run == flat_map_async_run(none_f, Some(rest), FlatMapAsyncStep::Finish(Poll::Ready(Some(y))), a, wait, fut_of, resolve, delay));
                    assert(run == seq![y] + flat_map_async_run(none_f, Some(rest), FlatMapAsyncStep::PollSub, a, wait, fut_of, resolve, delay));
                    assert(flat_map_held_items(fut, sub, resolve) + script_items(a).map_values(g).flatten() =~= seq![y]
                        + (flat_map_held_items(none_f, Some(rest), resolve) + script_items(a).map_values(g).flatten()));
                },
            }
        },
        None => match fut {
            Some(f) => {
                if wait > 0 {
                    lemma_flat_map_async_run_from(fut, sub, a, (wait - 1) as nat, fut_of, resolve, delay);
                    assert(run == flat_map_async_run(fut, none_s, FlatMapAsyncStep::Finish(Poll::Pending), a, (wait - 1) as nat, fut_of, resolve, delay));
                } else {
                    lemma_flat_map_async_run_from(none_f, Some(resolve(f)), a, 0, fut_of, resolve, delay);
                    assert(run == flat_map_async_run(none_f, Some(resolve(f)), FlatMapAsyncStep::PollSub, a, 0, fut_of, resolve, delay));
                }
            },
            None => {
                let rest = a.drop_first();
                match a[0] {
                    Poll::Pending => {
                        lemma_script_ends_rest(a);
                        assert(script_items(a) == script_items(rest));
                        lemma_flat_map_async_run_from(fut, sub, rest, wait, fut_of, resolve, delay);
                        assert(run == flat_map_async_run(fut, sub, FlatMapAsyncStep::Finish(Poll::Pending), rest, wait, fut_of, resolve, delay));
                    },
                    Poll::Ready(None) => {
                        assert(script_items(a) =~= Seq::<X>::empty());
                        assert(script_items(a).map_values(g) =~= Seq::<Seq<T>>::empty());
                        assert(run == flat_map_async_run(fut, sub, FlatMapAsyncStep::Finish(Poll::Ready(None)), rest, wait, fut_of, resolve, delay));
                        assert(flat_map_held_items(fut, sub, resolve) + script_items(a).map_values(g).flatten() =~= Seq::<T>::empty());
                    },
                    Poll::Ready(Some(x)) => {
                        lemma_script_ends_rest(a);
                        assert(script_items(a) == seq![x] + script_items(rest));
                        let next = Some(fut_of(x));
                        lemma_flat_map_async_run_from(next, sub, rest, delay(x), fut_of, resolve, delay);
                        assert(run == flat_map_async_run(next, sub, FlatMapAsyncStep::PollFuture, rest, delay(x), fut_of, resolve, delay));
                        assert(script_items(a).map_values(g) =~= seq![g(x)] + script_items(rest).map_values(g));
                        lemma_flatten_prepend(g(x), script_items(rest).map_values(g));
                        assert(flat_map_held_items(fut, sub, resolve) + script_items(a).map_values(g).flatten() =~= flat_map_held_items(
                            next,
                            sub,
                            resolve,
                        ) + script_items(rest).map_values(g).flatten());
                    },
                }
            },
        },
    }
}

/// `FlatMapAsync` answers, in order, the items of the sub-iterator that the
/// future made for each item resolves to, however many times the outer
/// iterator, the futures and the sub-iterators answer `Pending`.
pub proof fn lemma_flat_map_async_run<X, T, Fut>(
    a: Seq<Poll<Option<X>>>,
    fut_of: spec_fn(X) -> Fut,
    resolve: spec_fn(Fut) -> Seq<Poll<Option<T>>>,
    delay: spec_fn(X) -> nat,
)
    requires
        script_ends(a),
        forall|f: Fut| #[trigger] script_ends(resolve(f)),
    ensures
        flat_map_async_run(None, None, FlatMapAsyncStep::PollIter, a, 0, fut_of, resolve, delay) == script_items(
            a,
        ).map_values(|x: X| script_items(resolve(fut_of(x)))).flatten(),
{
    lemma_flat_map_async_run_from(None::<Fut>, None::<Seq<Poll<Option<T>>>>, a, 0, fut_of, resolve, delay);
    let g = |x: X| script_items(resolve(fut_of(x)));
    assert(flat_map_held_items(None::<Fut>, None::<Seq<Poll<Option<T>>>>, resolve) + script_items(a).map_values(g).flatten()
        =~= script_items(a).map_values(g).flatten());
}

/// Orders the steps of a combinator that may hold a future, so that a run
/// of steps that consumes nothing is finite.
pub open spec fn held_rank<Fut, R>(held: Option<Fut>, step: Step<R>) -> int {
    match step {
        Step::PollIter => 0,
        Step::PollHeld => 2,
        Step::Finish(_) => if held is Some { 3 } else { 1 },
    }
}

/// The value a success answer carries.
pub open spec fn success<T, E>(p: Poll<Option<Result<T, E>>>) -> T {
    p->Ready_0->Some_0->Ok_0
}

/// The item `AndThenAsync` answers for the underlying item `x`, when the
/// future `fut_of(v)` made for a success `Ok(v)` resolves to `resolve(fut_of(v))`.
pub open spec fn and_then_item<T, U, E, Fut>(
    x: Result<T, E>,
    fut_of: spec_fn(T) -> Fut,
    resolve: spec_fn(Fut) -> Result<U, E>,
) -> Result<U, E> {
    match x {
        Ok(v) => resolve(fut_of(v)),
        Err(e) => Err(e),
    }
}

/// The items `AndThenAsync` answers while holding `held`, when `step` is the
/// step to take now, over the script `a`, where `wait` counts the `Pending`
/// answers still due from the future in flight, `f` returns `fut_of(v)` for
/// a success `Ok(v)`, which answers `Pending` `delay(v)` times, and a future
/// `fut` resolves to `resolve(fut)`.
pub open spec fn and_then_async_run<T, U, E, Fut>(
    held: Option<Fut>,
    step: Step<Option<Result<U, E>>>,
    a: Seq<Poll<Option<Result<T, E>>>>,
    wait: nat,
    fut_of: spec_fn(T) -> Fut,
    resolve: spec_fn(Fut) -> Result<U, E>,
    delay: spec_fn(T) -> nat,
) -> Seq<Result<U, E>>
    decreases a.len(), wait, held_rank(held, step),
{
    match step {
        Step::PollIter => if a.len() == 0 {
            Seq::empty()
        } else {
            let (next, step) = and_then_async_on_iter::<T, U, E, Fut>(a[0], fut_of(success(a[0])));
            let w: nat = match a[0] {
                Poll::Ready(Some(Ok(v))) => delay(v),
                _ => wait,
            };
            and_then_async_run(next, step, a.drop_first(), w, fut_of, resolve, delay)
        },
        Step::PollHeld => match held {
            Some(fut) => if wait > 0 {
                let (next, step) = held_output_on_held(held, Poll::<Result<U, E>>::Pending);
                and_then_async_run(next, step, a, (wait - 1) as nat, fut_of, resolve, delay)
            } else {
                let (next, step) = held_output_on_held(held, Poll::Ready(resolve(fut)));
                and_then_async_run(next, step, a, 0, fut_of, resolve, delay)
            },
            None => Seq::empty(),
        },
        Step::Finish(Poll::Ready(Some(y))) => seq![y] + and_then_async_run(
            held,
            held_resume(held),
            a,
            wait,
            fut_of,
            resolve,
            delay,
        ),
        Step::Finish(Poll::Pending) => and_then_async_run(
            held,
            held_resume(held),
            a,
            wait,
            fut_of,
            resolve,
            delay,
        ),
        Step::Finish(Poll::Ready(None)) => Seq::empty(),
    }
}

/// The output of the future held, if any.
pub open spec fn held_output<Fut, V>(held: Option<Fut>, resolve: spec_fn(Fut) -> V) -> Seq<V> {
    match held {
        Some(fut) => seq![resolve(fut)],
        None => Seq::empty(),
    }
}

/// From any state, `AndThenAsync` answers the output of the future held,
/// then an item for each item of the rest of the script.
pub proof fn lemma_and_then_async_run_from<T, U, E, Fut>(
    held: Option<Fut>,
    a: Seq<Poll<Option<Result<T, E>>>>,
    wait: nat,
    fut_of: spec_fn(T) -> Fut,
    resolve: spec_fn(Fut) -> Result<U, E>,
    delay: spec_fn(T) -> nat,
)
    requires
        script_ends(a),
    ensures
        and_then_async_run(held, held_resume(held), a, wait, fut_of, resolve, delay) == held_output(
            held,
            resolve,
        ) + script_items(a).map_values(|x: Result<T, E>| and_then_item(x, fut_of, resolve)),
    decreases a.len(), wait, if held is Some { 1int } else { 0int },
{
    let m = |x: Result<T, E>| and_then_item(x, fut_of, resolve);
    let run = and_then_async_run(held, held_resume(held), a, wait, fut_of, resolve, delay);
    let none = None::<Fut>;
    match held {
        Some(fut) => {
            if wait > 0 {
                lemma_and_then_async_run_from(held, a, (wait - 1) as nat, fut_of, resolve, delay);
                assert(run == and_then_async_run(held, Step::Finish(Poll::Pending), a, (wait - 1) as nat, fut_of, resolve, delay));
            } else {
                lemma_and_then_async_run_from(none, a, 0, fut_of, resolve, delay);
                assert(run == and_then_async_run(none, Step::Finish(Poll::Ready(Some(resolve(fut)))), a, 0, fut_of, resolve, delay));
                assert(run == seq![resolve(fut)] + and_then_async_run(none, Step::PollIter, a, 0, fut_of, resolve, delay));
                assert(held_output(none, resolve) + script_items(a).map_values(m) =~= script_items(a).map_values(m));
            }
        },
        None => {
            let rest = a.drop_first();
            match a[0] {
                Poll::Pending => {
                    lemma_script_ends_rest(a);
                    assert(script_items(a) == script_items(rest));
                    lemma_and_then_async_run_from(held, rest, wait, fut_of, resolve, delay);
                    assert(run == and_then_async_run(held, Step::Finish(Poll::Pending), rest, wait, fut_of, resolve, delay));
                },
                Poll::Ready(None) => {
                    assert(script_items(a) =~= Seq::<Result<T, E>>::empty());
                    assert(run == and_then_async_run(held, Step::Finish(Poll::Ready(None)), rest, wait, fut_of, resolve, delay));
                    assert(held_output(held, resolve) + script_items(a).map_values(m) =~= Seq::<Result<U, E>>::empty());
                },
                Poll::Ready(Some(x)) => {
                    lemma_script_ends_rest(a);
                    assert(script_items(a) == seq![x] + script_items(rest));
                    assert(script_items(a).map_values(m) =~= seq![m(x)] + script_items(rest).map_values(m));
                    match x {
                        Ok(v) => {
                            let next = Some(fut_of(v));
                            lemma_and_then_async_run_from(next, rest, delay(v), fut_of, resolve, delay);
                            assert(run == and_then_async_run(next, Step::PollHeld, rest, delay(v), fut_of, resolve, delay));
                            assert(held_output(held, resolve) + script_items(a).map_values(m) =~= held_output(next, resolve)
                                + script_items(rest).map_values(m));
                        },
                        Err(e) => {
                            lemma_and_then_async_run_from(none, rest, wait, fut_of, resolve, delay);
                            assert(run == and_then_async_run(none, Step::Finish(Poll::Ready(Some(Err(e)))), rest, wait, fut_of, resolve, delay));
                            assert(run == seq![Err(e)] + and_then_async_run(none, Step::PollIter, rest, wait, fut_of, resolve, delay));
                            assert(held_output(held, resolve) + script_items(a).map_values(m) =~= seq![Err(e)]
                                + (held_output(none, resolve) + script_items(rest).map_values(m)));
                        },
                    }
                },
            }
        },
    }
}

/// `AndThenAsync` answers, for each item in turn, what the future made for a
/// success resolves to, and each failure unchanged, however many times the
/// iterator and the futures answer `Pending`.
pub proof fn lemma_and_then_async_run<T, U, E, Fut>(
    a: Seq<Poll<Option<Result<T, E>>>>,
    fut_of: spec_fn(T) -> Fut,
    resolve: spec_fn(Fut) -> Result<U, E>,
    delay: spec_fn(T) -> nat,
)
    requires
        script_ends(a),
    ensures
        and_then_async_run(None, Step::PollIter, a, 0, fut_of, resolve, delay) == script_items(
            a,
        ).map_values(|x: Result<T, E>| and_then_item(x, fut_of, resolve)),
{
    lemma_and_then_async_run_from(None::<Fut>, a, 0, fut_of, resolve, delay);
    let m = |x: Result<T, E>| and_then_item(x, fut_of, resolve);
    assert(held_output(None::<Fut>, resolve) + script_items(a).map_values(m) =~= script_items(a).map_values(m));
}

/// Orders the steps of `SkipWhileAsync`, so that a run of steps that
/// consumes nothing is finite.
pub open spec fn skip_rank<F, T, Fut, R>(skipping: Option<SkipState<F, T, Fut>>, step: Step<R>) -> int {
    match step {
        Step::PollIter => 0,
        Step::PollHeld => 2,
        Step::Finish(_) => if skip_while_async_resume(skipping) is PollHeld { 3 } else { 1 },
    }
}

/// The items `SkipWhileAsync` answers from `skipping`, when `step` is the
/// step to take now, over the script `a`, with the verdicts as for
/// [`filter_async_run`], `skip` giving each verdict.
pub open spec fn skip_while_async_run<F, T, Fut>(
    skipping: Option<SkipState<F, T, Fut>>,
    step: Step<Option<T>>,
    a: Seq<Poll<Option<T>>>,
    wait: nat,
    fut_of: spec_fn(T) -> Fut,
    skip: spec_fn(T) -> bool,
    delay: spec_fn(T) -> nat,
) -> Seq<T>
    decreases a.len(), wait, skip_rank(skipping, step),
{
    match step {
        Step::PollIter => if a.len() == 0 {
            Seq::empty()
        } else {
            let (next, step) = skip_while_async_on_iter(skipping, a[0], fut_of(answered(a[0])));
            let w: nat = if skipping is Some { next_wait(a[0], wait, delay) } else { wait };
            skip_while_async_run(next, step, a.drop_first(), w, fut_of, skip, delay)
        },
        Step::PollHeld => if skip_while_async_resume(skipping) is PollHeld {
            if wait > 0 {
                let (next, step) = skip_while_async_on_held(skipping, Poll::Pending);
                skip_while_async_run(next, step, a, (wait - 1) as nat, fut_of, skip, delay)
            } else {
                let verdict = skip(skipping->0.predicate_state->item);
                let (next, step) = skip_while_async_on_held(skipping, Poll::Ready(verdict));
                skip_while_async_run(next, step, a, 0, fut_of, skip, delay)
            }
        } else {
            Seq::empty()
        },
        Step::Finish(Poll::Ready(Some(y))) => seq![y] + skip_while_async_run(
            skipping,
            skip_while_async_resume(skipping),
            a,
            wait,
            fut_of,
            skip,
            delay,
        ),
        Step::Finish(Poll::Pending) => skip_while_async_run(
            skipping,
            skip_while_async_resume(skipping),
            a,
            wait,
            fut_of,
            skip,
            delay,
        ),
        Step::Finish(Poll::Ready(None)) => Seq::empty(),
    }
}

/// What `SkipWhileAsync` answers from `skipping` over the items `s` still to
/// come: everything once it stopped skipping; else the items after the
/// skipped prefix, the waiting item first when it is not skipped.
pub open spec fn skip_while_expected<F, T, Fut>(
    skipping: Option<SkipState<F, T, Fut>>,
    s: Seq<T>,
    skip: spec_fn(T) -> bool,
) -> Seq<T> {
    match skipping {
        None => s,
        Some(st) => match st.predicate_state {
            PredicateState::Polling { item, .. } => if skip(item) {
                s.skip(leading_len(s, skip) as int)
            } else {
                seq![item] + s
            },
            PredicateState::Empty => s.skip(leading_len(s, skip) as int),
        },
    }
}

/// From any state, `SkipWhileAsync` answers what [`skip_while_expected`] says.
pub proof fn lemma_skip_while_async_run_from<F, T, Fut>(
    skipping: Option<SkipState<F, T, Fut>>,
    a: Seq<Poll<Option<T>>>,
    wait: nat,
    fut_of: spec_fn(T) -> Fut,
    skip: spec_fn(T) -> bool,
    delay: spec_fn(T) -> nat,
)
    requires
        script_ends(a),
    ensures
        skip_while_async_run(skipping, skip_while_async_resume(skipping), a, wait, fut_of, skip, delay)
            == skip_while_expected(skipping, script_items(a), skip),
    decreases a.len(), wait, if skip_while_async_resume(skipping) is PollHeld { 1int } else { 0int },
{
    let run = skip_while_async_run(skipping, skip_while_async_resume(skipping), a, wait, fut_of, skip, delay);
    let rest = a.drop_first();
    if skip_while_async_resume(skipping) is PollHeld {
        let st = skipping->0;
        let item = st.predicate_state->item;
        if wait > 0 {
            lemma_skip_while_async_run_from(skipping, a, (wait - 1) as nat, fut_of, skip, delay);
            assert(run == skip_while_async_run(skipping, Step::Finish(Poll::Pending), a, (wait - 1) as nat, fut_of, skip, delay));
        } else if skip(item) {
            let next = Some(SkipState { predicate_state: PredicateState::<T, Fut>::Empty, f: st.f });
            lemma_skip_while_async_run_from(next, a, 0, fut_of, skip, delay);
            assert(run == skip_while_async_run(next, Step::PollIter, a, 0, fut_of, skip, delay));
        } else {
            let none = None::<SkipState<F, T, Fut>>;
            lemma_skip_while_async_run_from(none, a, 0, fut_of, skip, delay);
            assert(run == skip_while_async_run(none, Step::Finish(Poll::Ready(Some(item))), a, 0, fut_of, skip, delay));
            assert(run == seq![item] + skip_while_async_run(none, Step::PollIter, a, 0, fut_of, skip, delay));
        }
    } else {
        match a[0] {
            Poll::Pending => {
                lemma_script_ends_rest(a);
                assert(script_items(a) == script_items(rest));
                lemma_skip_while_async_run_from(skipping, rest, wait, fut_of, skip, delay);
                assert(run == skip_while_async_run(skipping, Step::Finish(Poll::Pending), rest, wait, fut_of, skip, delay));
            },
            Poll::Ready(None) => {
                assert(script_items(a) =~= Seq::<T>::empty());
                assert(run == skip_while_async_run(skipping, Step::Finish(Poll::Ready(None)), rest, wait, fut_of, skip, delay));
                assert(script_items(a).skip(0) =~= Seq::<T>::empty());
            },
            Poll::Ready(Some(x)) => {
                lemma_script_ends_rest(a);
                let items = script_items(a);
                let later = script_items(rest);
                assert(items == seq![x] + later);
                assert(items[0] == x);
                assert(items.drop_first() =~= later);
                match skipping {
                    None => {
                        lemma_skip_while_async_run_from(skipping, rest, wait, fut_of, skip, delay);
                        assert(run == skip_while_async_run(skipping, Step::Finish(Poll::Ready(Some(x))), rest, wait, fut_of, skip, delay));
                    },
                    Some(st) => {
                        let next = Some(SkipState {
                            predicate_state: PredicateState::Polling { item: x, fut: fut_of(x) },
                            f: st.f,
                        });
                        lemma_skip_while_async_run_from(next, rest, delay(x), fut_of, skip, delay);
                        assert(run == skip_while_async_run(next, Step::PollHeld, rest, delay(x), fut_of, skip, delay));
                        lemma_leading_len_bound(later, skip);
                        if skip(x) {
                            assert(items.skip(leading_len(items, skip) as int) =~= later.skip(
                                leading_len(later, skip) as int,
                            ));
                        } else {
                            assert(items.skip(leading_len(items, skip) as int) =~= items);
                        }
                    },
                }
            },
        }
    }
}

/// `SkipWhileAsync` drops the longest prefix of items whose verdict is
/// `true` and answers every item after it, however many times the iterator
/// and the verdicts answer `Pending`.
pub proof fn lemma_skip_while_async_run<F, T, Fut>(
    f: F,
    a: Seq<Poll<Option<T>>>,
    fut_of: spec_fn(T) -> Fut,
    skip: spec_fn(T) -> bool,
    delay: spec_fn(T) -> nat,
)
    requires
        script_ends(a),
    ensures
        ({
            let start = Some(SkipState { predicate_state: PredicateState::<T, Fut>::Empty, f });
            let s = script_items(a);
            skip_while_async_run(start, Step::PollIter, a, 0, fut_of, skip, delay) == s.skip(
                leading_len(s, skip) as int,
            )
        }),
{
    let start = Some(SkipState { predicate_state: PredicateState::<T, Fut>::Empty, f });
    lemma_skip_while_async_run_from(start, a, 0, fut_of, skip, delay);
}

/// The initial accumulator combined with the items in turn by `g`, up to
/// the first `Break`, which is the answer; else the last accumulator.
pub open spec fn try_fold_left<T, X, B>(s: Seq<X>, acc: T, g: spec_fn(T, X) -> ControlFlow<B, T>) -> ControlFlow<B, T>
    decreases s.len(),
{
    if s.len() == 0 {
        ControlFlow::Continue(acc)
    } else {
        match g(acc, s[0]) {
            ControlFlow::Continue(next) => try_fold_left(s.drop_first(), next, g),
            ControlFlow::Break(b) => ControlFlow::Break(b),
        }
    }
}

/// The answer of `TryFoldAsync` from `state`, when `step` is the step to
/// take now, over the script `a`, with the futures as for [`fold_async_run`].
pub open spec fn try_fold_async_run<B, T, X, Fut>(
    state: FoldState<T, Fut>,
    step: Step<ControlFlow<B, T>>,
    a: Seq<Poll<Option<X>>>,
    wait: nat,
    get: spec_fn(T) -> T,
    rest: spec_fn(T) -> T,
    fut_of: spec_fn(T, X) -> Fut,
    resolve: spec_fn(Fut) -> ControlFlow<B, T>,
    delay: spec_fn(T, X) -> nat,
) -> Option<ControlFlow<B, T>>
    decreases a.len(), wait, fold_rank(state, step),
{
    match step {
        Step::PollIter => if a.len() == 0 {
            None
        } else {
            let acc = state->Accumulate_0;
            let (next, step) = try_fold_async_on_iter::<B, T, X, Fut>(
                state,
                a[0],
                fut_of(get(acc), answered(a[0])),
                (get(acc), rest(acc)),
            );
            try_fold_async_run(next, step, a.drop_first(), fold_next_wait(state, a[0], wait, delay), get, rest, fut_of, resolve, delay)
        },
        Step::PollHeld => if state is Future {
            if wait > 0 {
                let (next, step) = try_fold_async_on_held(state, Poll::Pending);
                try_fold_async_run(next, step, a, (wait - 1) as nat, get, rest, fut_of, resolve, delay)
            } else {
                let (next, step) = try_fold_async_on_held(state, Poll::Ready(resolve(state->Future_0)));
                try_fold_async_run(next, step, a, 0, get, rest, fut_of, resolve, delay)
            }
        } else {
            None
        },
        Step::Finish(Poll::Ready(answer)) => Some(answer),
        Step::Finish(Poll::Pending) => try_fold_async_run(
            state,
            try_fold_async_resume(state),
            a,
            wait,
            get,
            rest,
            fut_of,
            resolve,
            delay,
        ),
    }
}

/// The answer made from the outcome `c` of a fold: the value the getter
/// gives of the last accumulator, or the `Break`.
pub open spec fn with_value<B, T>(c: ControlFlow<B, T>, get: spec_fn(T) -> T) -> ControlFlow<B, T> {
    match c {
        ControlFlow::Continue(acc) => ControlFlow::Continue(get(acc)),
        ControlFlow::Break(b) => ControlFlow::Break(b),
    }
}

/// What `TryFoldAsync` answers from `state` over the items `s` still to come.
pub open spec fn try_fold_expected<B, T, X, Fut>(
    state: FoldState<T, Fut>,
    s: Seq<X>,
    get: spec_fn(T) -> T,
    resolve: spec_fn(Fut) -> ControlFlow<B, T>,
    g: spec_fn(T, X) -> ControlFlow<B, T>,
) -> ControlFlow<B, T> {
    match state {
        FoldState::Accumulate(acc) => with_value(try_fold_left(s, acc, g), get),
        FoldState::Future(fut) => match resolve(fut) {
            ControlFlow::Continue(acc) => with_value(try_fold_left(s, acc, g), get),
            ControlFlow::Break(b) => ControlFlow::Break(b),
        },
    }
}

/// From any state, `TryFoldAsync` answers what [`try_fold_expected`] says.
pub proof fn lemma_try_fold_async_run_from<B, T, X, Fut>(
    state: FoldState<T, Fut>,
    a: Seq<Poll<Option<X>>>,
    wait: nat,
    get: spec_fn(T) -> T,
    rest: spec_fn(T) -> T,
    fut_of: spec_fn(T, X) -> Fut,
    resolve: spec_fn(Fut) -> ControlFlow<B, T>,
    delay: spec_fn(T, X) -> nat,
    g: spec_fn(T, X) -> ControlFlow<B, T>,
)
    requires
        script_ends(a),
        forall|acc: T, x: X| #[trigger] g(acc, x) == resolve(fut_of(get(acc), x)),
    ensures
        try_fold_async_run(state, try_fold_async_resume(state), a, wait, get, rest, fut_of, resolve, delay)
            == Some(try_fold_expected(state, script_items(a), get, resolve, g)),
    decreases a.len(), wait, if state is Future { 1int } else { 0int },
{
    let run = try_fold_async_run(state, try_fold_async_resume(state), a, wait, get, rest, fut_of, resolve, delay);
    let tail = a.drop_first();
    match state {
        FoldState::Future(fut) => {
            if wait > 0 {
                lemma_try_fold_async_run_from(state, a, (wait - 1) as nat, get, rest, fut_of, resolve, delay, g);
                assert(run == try_fold_async_run(state, Step::Finish(Poll::Pending), a, (wait - 1) as nat, get, rest, fut_of, resolve, delay));
            } else {
                match resolve(fut) {
                    ControlFlow::Continue(acc) => {
                        let next = FoldState::<T, Fut>::Accumulate(acc);
                        lemma_try_fold_async_run_from(next, a, 0, get, rest, fut_of, resolve, delay, g);
                        assert(run == try_fold_async_run(next, Step::PollIter, a, 0, get, rest, fut_of, resolve, delay));
                    },
                    ControlFlow::Break(b) => {
                        assert(run == try_fold_async_run(state, Step::Finish(Poll::Ready(ControlFlow::Break(b))), a, 0, get, rest, fut_of, resolve, delay));
                    },
                }
            }
        },
        FoldState::Accumulate(acc) => {
            match a[0] {
                Poll::Pending => {
                    lemma_script_ends_rest(a);
                    lemma_try_fold_async_run_from(state, tail, wait, get, rest, fut_of, resolve, delay, g);
                    assert(run == try_fold_async_run(state, Step::Finish(Poll::Pending), tail, wait, get, rest, fut_of, resolve, delay));
                    assert(script_items(a) == script_items(tail));
                },
                Poll::Ready(None) => {
                    assert(script_items(a) =~= Seq::<X>::empty());
                    assert(run == try_fold_async_run(
                        FoldState::<T, Fut>::Accumulate(rest(acc)),
                        Step::Finish(Poll::Ready(ControlFlow::Continue(get(acc)))),
                        tail,
                        wait,
                        get,
                        rest,
                        fut_of,
                        resolve,
                        delay,
                    ));
                },
                Poll::Ready(Some(x)) => {
                    lemma_script_ends_rest(a);
                    let items = script_items(a);
                    assert(items == seq![x] + script_items(tail));
                    assert(items[0] == x);
                    assert(items.drop_first() =~= script_items(tail));
                    let next = FoldState::<T, Fut>::Future(fut_of(get(acc), x));
                    lemma_try_fold_async_run_from(next, tail, delay(acc, x), get, rest, fut_of, resolve, delay, g);
                    assert(run == try_fold_async_run(next, Step::PollHeld, tail, delay(acc, x), get, rest, fut_of, resolve, delay));
                    assert(g(acc, x) == resolve(fut_of(get(acc), x)));
                },
            }
        },
    }
}

/// `TryFoldAsync` answers the first `Break` the outputs of the function's
/// futures give, else `Continue` with the value of the initial accumulator
/// combined with each item in turn, each future made on the value the
/// getter gives, however many times the iterator and the futures answer
/// `Pending`.
pub proof fn lemma_try_fold_async_run<B, T, X, Fut>(
    init: T,
    a: Seq<Poll<Option<X>>>,
    get: spec_fn(T) -> T,
    rest: spec_fn(T) -> T,
    fut_of: spec_fn(T, X) -> Fut,
    resolve: spec_fn(Fut) -> ControlFlow<B, T>,
    delay: spec_fn(T, X) -> nat,
    g: spec_fn(T, X) -> ControlFlow<B, T>,
)
    requires
        script_ends(a),
        forall|acc: T, x: X| #[trigger] g(acc, x) == resolve(fut_of(get(acc), x)),
    ensures
        try_fold_async_run(FoldState::<T, Fut>::Accumulate(init), Step::PollIter, a, 0, get, rest, fut_of, resolve, delay)
            == Some(with_value(try_fold_left(script_items(a), init, g), get)),
{
    lemma_try_fold_async_run_from(FoldState::<T, Fut>::Accumulate(init), a, 0, get, rest, fut_of, resolve, delay, g);
}

/// From any state, once the `Break` of `TryFoldAsync` comes from the items
/// of the script `a`, whatever the iterator answers after `a` changes nothing.
pub proof fn lemma_try_fold_async_run_stops_from<B, T, X, Fut>(
    state: FoldState<T, Fut>,
    a: Seq<Poll<Option<X>>>,
    b: Seq<Poll<Option<X>>>,
    wait: nat,
    get: spec_fn(T) -> T,
    rest: spec_fn(T) -> T,
    fut_of: spec_fn(T, X) -> Fut,
    resolve: spec_fn(Fut) -> ControlFlow<B, T>,
    delay: spec_fn(T, X) -> nat,
    g: spec_fn(T, X) -> ControlFlow<B, T>,
)
    requires
        forall|acc: T, x: X| #[trigger] g(acc, x) == resolve(fut_of(get(acc), x)),
        try_fold_expected(state, script_items(a), get, resolve, g) is Break,
    ensures
        try_fold_async_run(state, try_fold_async_resume(state), a + b, wait, get, rest, fut_of, resolve, delay)
            == try_fold_async_run(state, try_fold_async_resume(state), a, wait, get, rest, fut_of, resolve, delay),
    decreases a.len(), wait, if state is Future { 1int } else { 0int },
{
    let ab = a + b;
    match state {
        FoldState::Future(fut) => {
            if wait > 0 {
                lemma_try_fold_async_run_stops_from(state, a, b, (wait - 1) as nat, get, rest, fut_of, resolve, delay, g);
                assert(try_fold_async_run(state, Step::PollHeld, ab, wait, get, rest, fut_of, resolve, delay)
                    == try_fold_async_run(state, Step::Finish(Poll::Pending), ab, (wait - 1) as nat, get, rest, fut_of, resolve, delay));
                assert(try_fold_async_run(state, Step::PollHeld, a, wait, get, rest, fut_of, resolve, delay)
                    == try_fold_async_run(state, Step::Finish(Poll::Pending), a, (wait - 1) as nat, get, rest, fut_of, resolve, delay));
            } else {
                match resolve(fut) {
                    ControlFlow::Continue(acc) => {
                        let next = FoldState::<T, Fut>::Accumulate(acc);
                        lemma_try_fold_async_run_stops_from(next, a, b, 0, get, rest, fut_of, resolve, delay, g);
                        assert(try_fold_async_run(state, Step::PollHeld, ab, 0, get, rest, fut_of, resolve, delay)
                            == try_fold_async_run(next, Step::PollIter, ab, 0, get, rest, fut_of, resolve, delay));
                        assert(try_fold_async_run(state, Step::PollHeld, a, 0, get, rest, fut_of, resolve, delay)
                            == try_fold_async_run(next, Step::PollIter, a, 0, get, rest, fut_of, resolve, delay));
                    },
                    ControlFlow::Break(c) => {
                        assert(try_fold_async_run(state, Step::PollHeld, ab, 0, get, rest, fut_of, resolve, delay)
                            == try_fold_async_run(state, Step::Finish(Poll::Ready(ControlFlow::Break(c))), ab, 0, get, rest, fut_of, resolve, delay));
                        assert(try_fold_async_run(state, Step::PollHeld, a, 0, get, rest, fut_of, resolve, delay)
                            == try_fold_async_run(state, Step::Finish(Poll::Ready(ControlFlow::Break(c))), a, 0, get, rest, fut_of, resolve, delay));
                    },
                }
            }
        },
        FoldState::Accumulate(acc) => {
            if a.len() == 0 {
                assert(script_items(a) =~= Seq::<X>::empty());
            } else {
                let tail = a.drop_first();
                assert(ab[0] == a[0]);
                assert(ab.drop_first() =~= tail + b);
                match a[0] {
                    Poll::Pending => {
                        assert(script_items(a) == script_items(tail));
                        lemma_try_fold_async_run_stops_from(state, tail, b, wait, get, rest, fut_of, resolve, delay, g);
                        assert(try_fold_async_run(state, Step::PollIter, ab, wait, get, rest, fut_of, resolve, delay)
                            == try_fold_async_run(state, Step::Finish(Poll::Pending), tail + b, wait, get, rest, fut_of, resolve, delay));
                        assert(try_fold_async_run(state, Step::PollIter, a, wait, get, rest, fut_of, resolve, delay)
                            == try_fold_async_run(state, Step::Finish(Poll::Pending), tail, wait, get, rest, fut_of, resolve, delay));
                    },
                    Poll::Ready(None) => {
                        assert(script_items(a) =~= Seq::<X>::empty());
                    },
                    Poll::Ready(Some(x)) => {
                        let items = script_items(a);
                        assert(items == seq![x] + script_items(tail));
                        assert(items[0] == x);
                        assert(items.drop_first() =~= script_items(tail));
                        assert(g(acc, x) == resolve(fut_of(get(acc), x)));
                        let next = FoldState::<T, Fut>::Future(fut_of(get(acc), x));
                        lemma_try_fold_async_run_stops_from(next, tail, b, delay(acc, x), get, rest, fut_of, resolve, delay, g);
                        assert(try_fold_async_run(state, Step::PollIter, ab, wait, get, rest, fut_of, resolve, delay)
                            == try_fold_async_run(next, Step::PollHeld, tail + b, delay(acc, x), get, rest, fut_of, resolve, delay));
                        assert(try_fold_async_run(state, Step::PollIter, a, wait, get, rest, fut_of, resolve, delay)
                            == try_fold_async_run(next, Step::PollHeld, tail, delay(acc, x), get, rest, fut_of, resolve, delay));
                    },
                }
            }
        },
    }
}

/// Once the items of the script `a` make `TryFoldAsync` break, its answer
/// does not depend on what the iterator answers after `a`: it is not polled
/// past the item whose future breaks.
pub proof fn lemma_try_fold_async_stops<B, T, X, Fut>(
    init: T,
    a: Seq<Poll<Option<X>>>,
    b: Seq<Poll<Option<X>>>,
    get: spec_fn(T) -> T,
    rest: spec_fn(T) -> T,
    fut_of: spec_fn(T, X) -> Fut,
    resolve: spec_fn(Fut) -> ControlFlow<B, T>,
    delay: spec_fn(T, X) -> nat,
    g: spec_fn(T, X) -> ControlFlow<B, T>,
)
    requires
        forall|acc: T, x: X| #[trigger] g(acc, x) == resolve(fut_of(get(acc), x)),
        try_fold_left(script_items(a), init, g) is Break,
    ensures
        try_fold_async_run(FoldState::<T, Fut>::Accumulate(init), Step::PollIter, a + b, 0, get, rest, fut_of, resolve, delay)
            == try_fold_async_run(FoldState::<T, Fut>::Accumulate(init), Step::PollIter, a, 0, get, rest, fut_of, resolve, delay),
{
    lemma_try_fold_async_run_stops_from(FoldState::<T, Fut>::Accumulate(init), a, b, 0, get, rest, fut_of, resolve, delay, g);
}



/// The answer of an `AsyncSlimMap` holding the second future `second` (or
/// still the first), when `step` is the step to take now, where the first
/// future answers `Pending` `wait1` more times and then `x`, the function
/// returns `second_of(x)` for it, and that future answers `Pending` `wait2`
/// times and then `resolve` of it.
pub open spec fn slim_map_run<X, U, V>(
    second: Option<U>,
    step: SlimMapStep<V>,
    wait1: nat,
    wait2: nat,
    x: X,
    second_of: spec_fn(X) -> U,
    resolve: spec_fn(U) -> V,
) -> V
    decreases wait1, wait2, (match step {
        SlimMapStep::PollFirst => 1int,
        SlimMapStep::PollSecond => 0,
        SlimMapStep::Finish(_) => 2,
    }),
{
    match step {
        SlimMapStep::PollFirst => if second is Some {
            arbitrary()
        } else if wait1 > 0 {
            slim_map_run(second, slim_map_on_first::<X, V>(Poll::Pending), (wait1 - 1) as nat, wait2, x, second_of, resolve)
        } else {
            slim_map_run(Some(second_of(x)), slim_map_on_first::<X, V>(Poll::Ready(x)), 0, wait2, x, second_of, resolve)
        },
        SlimMapStep::PollSecond => match second {
            Some(u) => if wait1 > 0 {
                arbitrary()
            } else if wait2 > 0 {
                slim_map_run(second, SlimMapStep::Finish(Poll::Pending), 0, (wait2 - 1) as nat, x, second_of, resolve)
            } else {
                resolve(u)
            },
            None => arbitrary(),
        },
        SlimMapStep::Finish(Poll::Ready(v)) => v,
        SlimMapStep::Finish(Poll::Pending) => slim_map_run(
            second,
            if second is Some {
                SlimMapStep::PollSecond
            } else {
                SlimMapStep::PollFirst
            },
            wait1,
            wait2,
            x,
            second_of,
            resolve,
        ),
    }
}

/// An `AsyncSlimMap` answers what the second future, made by the function
/// for the first future's output, resolves to, however many times either
/// future answers `Pending`.
pub proof fn lemma_slim_map_run<X, U, V>(
    wait1: nat,
    wait2: nat,
    x: X,
    second_of: spec_fn(X) -> U,
    resolve: spec_fn(U) -> V,
)
    ensures
        slim_map_run(None, SlimMapStep::PollFirst, wait1, wait2, x, second_of, resolve) == resolve(second_of(x)),
    decreases wait1, wait2,
{
    let none = None::<U>;
    if wait1 > 0 {
        lemma_slim_map_run((wait1 - 1) as nat, wait2, x, second_of, resolve);
        assert(slim_map_run(none, SlimMapStep::PollFirst, wait1, wait2, x, second_of, resolve) == slim_map_run(
            none,
            SlimMapStep::Finish(Poll::Pending),
            (wait1 - 1) as nat,
            wait2,
            x,
            second_of,
            resolve,
        ));
    } else {
        lemma_slim_map_second(Some(second_of(x)), wait2, x, second_of, resolve);
        assert(slim_map_run(none, SlimMapStep::PollFirst, 0, wait2, x, second_of, resolve) == slim_map_run(
            Some(second_of(x)),
            SlimMapStep::PollSecond,
            0,
            wait2,
            x,
            second_of,
            resolve,
        ));
    }
}

/// Once it holds the second future, an `AsyncSlimMap` answers what it
/// resolves to.
pub proof fn lemma_slim_map_second<X, U, V>(
    second: Option<U>,
    wait2: nat,
    x: X,
    second_of: spec_fn(X) -> U,
    resolve: spec_fn(U) -> V,
)
    requires
        second is Some,
    ensures
        slim_map_run(second, SlimMapStep::PollSecond, 0, wait2, x, second_of, resolve) == resolve(second->0),
    decreases wait2,
{
    if wait2 > 0 {
        lemma_slim_map_second(second, (wait2 - 1) as nat, x, second_of, resolve);
        assert(slim_map_run(second, SlimMapStep::PollSecond, 0, wait2, x, second_of, resolve) == slim_map_run(
            second,
            SlimMapStep::Finish(Poll::Pending),
            0,
            (wait2 - 1) as nat,
            x,
            second_of,
            resolve,
        ));
    }
}

} // verus!
