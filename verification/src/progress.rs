//! Progress within one poll: a combinator ends a poll with `Pending` only
//! when something it polled in that poll answered `Pending`. An answer
//! `Pending` registers the task's waker, so a poll that ends with `Pending`
//! after `Ready` answers only would never be woken again.
//!
//! Each lemma below speaks of the step functions the combinators' methods
//! are specified by: whatever the state, a step that follows a `Ready`
//! answer never ends the poll with `Pending`.

use vstd::prelude::*;
use crate::poll::{Poll, Step};
use crate::three_states::ThreeStates;
use crate::async_iter::filter::filter_step;
use crate::async_iter::filter_map::filter_map_step;
use crate::async_iter::skip_while::skip_while_step;
use crate::async_iter::take_while::take_while_answer;
use crate::async_iter::all::{all_step, any_step};
use crate::async_iter::try_fold::{fold_step, try_fold_step};
use crate::async_iter::try_for_each::try_for_each_step;
use crate::async_iter::reduce::reduce_step;
use crate::async_iter::states::{FoldState, PredicateState, each_on_iter};
use crate::async_iter::filter_async::{predicate_on_iter, filter_async_on_held};
use crate::async_iter::take_while_async::take_while_async_on_held;
use crate::async_iter::skip_while_async::{SkipState, skip_while_async_on_iter, skip_while_async_on_held};
use crate::async_iter::reduce_async::{ReduceHolder, reduce_on_iter, reduce_on_held};
use crate::async_iter::fold_async::{fold_async_on_iter, fold_async_on_held};
use crate::async_iter::try_fold_async::{try_fold_async_on_iter, try_fold_async_on_held};
use crate::async_iter::all_async::all_async_on_held;
use crate::async_iter::any_async::any_async_on_held;
use crate::async_iter::for_each_async::for_each_async_on_held;
use crate::async_iter::try_for_each_async::try_for_each_async_on_held;
use crate::async_iter::map_async::held_on_iter;
use crate::async_iter::and_then_async::{held_output_on_held, and_then_async_on_iter};
use crate::async_iter::map_while_async::held_item_on_held;
use crate::async_iter::filter_map_async::filter_map_async_on_held;
use crate::async_iter::or_else_async::or_else_async_on_iter;
use crate::async_iter::map_ok_async::map_ok_async_on_held;
use crate::async_iter::map_err_async::map_err_async_on_held;
use crate::async_iter::flatten::{flatten_on_iter_step, flatten_on_held_step};
use crate::async_iter::try_flatten::try_flatten_on_iter_step;
use crate::async_iter::flat_map_async::{FlatMapAsyncStep, flat_map_async_on_iter, flat_map_async_on_future, flat_map_async_on_sub};
use crate::async_iter::zip::{ZipBuffer, ZipStep, zip_on_left, zip_on_right};
use crate::async_slim_map::{SlimMapStep, slim_map_on_first};
use core::ops::ControlFlow;
use crate::async_iter::reduce_async::reduce_resume;
use crate::async_iter::filter_async::predicate_resume;
use crate::poll_runs::{
    script_items, script_ends, answered, reduce_rank, predicate_rank, reduce_expected, first_of, waiting_kept,
    lemma_fold_left_prepend,
};

verus! {

/// The synchronous combinators end a poll with `Pending` only when the
/// underlying iterator answered `Pending`; after an item they answer it or
/// ask the iterator again within the same poll.
pub proof fn lemma_sync_steps_pending_only_after_pending<T, U, B, X>(
    polled: Poll<Option<T>>,
    verdict: bool,
    mapped: Option<U>,
    acc: T,
    next: T,
    got: (T, T),
    flow: ControlFlow<B, T>,
    unit_flow: ControlFlow<B, ()>,
    partial: Option<T>,
)
    ensures
        filter_step(polled, verdict) matches Step::Finish(Poll::Pending) ==> polled is Pending,
        filter_map_step(polled, mapped) matches Step::Finish(Poll::Pending) ==> polled is Pending,
        skip_while_step(polled, verdict) matches Step::Finish(Poll::Pending) ==> polled is Pending,
        take_while_answer(polled, verdict) is Pending ==> polled is Pending,
        all_step(polled, verdict) matches Step::Finish(Poll::Pending) ==> polled is Pending,
        any_step(polled, verdict) matches Step::Finish(Poll::Pending) ==> polled is Pending,
        fold_step(acc, polled, next, got).1 matches Step::Finish(Poll::Pending) ==> polled is Pending,
        try_fold_step(acc, polled, flow).1 matches Step::Finish(Poll::Pending) ==> polled is Pending,
        try_for_each_step(polled, unit_flow) matches Step::Finish(Poll::Pending) ==> polled is Pending,
        reduce_step(partial, polled, acc).1 matches Step::Finish(Poll::Pending) ==> polled is Pending,
{
}

/// `FilterAsync`, `FindAsync` and `TakeWhileAsync` end a poll with
/// `Pending` only when the iterator or the predicate's future answered
/// `Pending`: a rejected item makes `FilterAsync` and `FindAsync` ask the
/// iterator again within the same poll.
pub proof fn lemma_predicate_steps_pending_only_after_pending<T, Fut>(
    state: PredicateState<T, Fut>,
    polled: Poll<Option<T>>,
    fut: Fut,
    verdict: Poll<bool>,
)
    ensures
        predicate_on_iter(polled, fut).1 matches Step::Finish(Poll::Pending) ==> polled is Pending,
        filter_async_on_held(state, verdict).1 matches Step::Finish(Poll::Pending) ==> verdict is Pending,
        take_while_async_on_held(state, verdict).1 matches Step::Finish(Poll::Pending) ==> verdict is Pending,
        verdict == Poll::Ready(false) ==> filter_async_on_held(state, verdict).1 == Step::<Option<T>>::PollIter,
{
}

/// `SkipWhileAsync` ends a poll with `Pending` only when the iterator or the
/// predicate's future answered `Pending`.
pub proof fn lemma_skip_while_async_pending_only_after_pending<F, T, Fut>(
    skipping: Option<SkipState<F, T, Fut>>,
    polled: Poll<Option<T>>,
    fut: Fut,
    verdict: Poll<bool>,
)
    ensures
        skip_while_async_on_iter(skipping, polled, fut).1 matches Step::Finish(Poll::Pending) ==> polled is Pending,
        skip_while_async_on_held(skipping, verdict).1 matches Step::Finish(Poll::Pending) ==> verdict is Pending,
{
}

/// `ReduceAsync` ends a poll with `Pending` only when the iterator or the
/// combining future answered `Pending`: a resolved future makes it ask the
/// iterator again within the same poll.
pub proof fn lemma_reduce_async_pending_only_after_pending<T, Fut>(
    holder: ReduceHolder<T, Fut>,
    polled: Poll<Option<T>>,
    fut: Fut,
    resolved: Poll<T>,
)
    ensures
        reduce_on_iter(holder, polled, fut).1 matches Step::Finish(Poll::Pending) ==> polled is Pending,
        reduce_on_held(holder, resolved).1 matches Step::Finish(Poll::Pending) ==> resolved is Pending,
        resolved is Ready ==> reduce_on_held(holder, resolved).1 == Step::<Option<T>>::PollIter,
{
}

/// The folds over futures end a poll with `Pending` only when the iterator
/// or the future in flight answered `Pending`.
pub proof fn lemma_async_folds_pending_only_after_pending<T, X, Fut, B, R>(
    state: FoldState<T, Fut>,
    unit_state: FoldState<(), Fut>,
    polled: Poll<Option<X>>,
    fut: Fut,
    got: (T, T),
    resolved: Poll<T>,
    flow: Poll<ControlFlow<B, T>>,
    verdict: Poll<bool>,
    done: Poll<()>,
    unit_flow: Poll<ControlFlow<B, ()>>,
    end: R,
)
    ensures
        fold_async_on_iter(state, polled, fut, got).1 matches Step::Finish(Poll::Pending) ==> polled is Pending,
        fold_async_on_held(state, resolved).1 matches Step::Finish(Poll::Pending) ==> resolved is Pending,
        try_fold_async_on_iter::<B, T, X, Fut>(state, polled, fut, got).1 matches Step::Finish(Poll::Pending)
            ==> polled is Pending,
        try_fold_async_on_held(state, flow).1 matches Step::Finish(Poll::Pending) ==> flow is Pending,
        each_on_iter(unit_state, polled, fut, end).1 matches Step::Finish(Poll::Pending) ==> polled is Pending,
        all_async_on_held(unit_state, verdict).1 matches Step::Finish(Poll::Pending) ==> verdict is Pending,
        any_async_on_held(unit_state, verdict).1 matches Step::Finish(Poll::Pending) ==> verdict is Pending,
        for_each_async_on_held(unit_state, done).1 matches Step::Finish(Poll::Pending) ==> done is Pending,
        try_for_each_async_on_held(unit_state, unit_flow).1 matches Step::Finish(Poll::Pending) ==> unit_flow is Pending,
{
}

/// The combinators that await one future per item end a poll with
/// `Pending` only when the iterator or the future in flight answered
/// `Pending`.
pub proof fn lemma_held_steps_pending_only_after_pending<T, U, E, E2, Fut>(
    held: Option<Fut>,
    polled: Poll<Option<T>>,
    polled_result: Poll<Option<Result<T, E>>>,
    fut: Fut,
    output: Poll<U>,
    maybe: Poll<Option<U>>,
    success: Poll<U>,
    failure: Poll<E2>,
)
    ensures
        held_on_iter::<T, U, Fut>(polled, fut).1 matches Step::Finish(Poll::Pending) ==> polled is Pending,
        held_output_on_held(held, output).1 matches Step::Finish(Poll::Pending) ==> output is Pending,
        held_item_on_held(held, maybe).1 matches Step::Finish(Poll::Pending) ==> maybe is Pending,
        filter_map_async_on_held(held, maybe).1 matches Step::Finish(Poll::Pending) ==> maybe is Pending,
        and_then_async_on_iter::<T, U, E, Fut>(polled_result, fut).1 matches Step::Finish(Poll::Pending)
            ==> polled_result is Pending,
        or_else_async_on_iter::<T, E, E2, Fut>(polled_result, fut).1 matches Step::Finish(Poll::Pending)
            ==> polled_result is Pending,
        map_ok_async_on_held::<U, E, Fut>(held, success).1 matches Step::Finish(Poll::Pending) ==> success is Pending,
        map_err_async_on_held::<T, E2, Fut>(held, failure).1 matches Step::Finish(Poll::Pending) ==> failure is Pending,
{
}

/// The flattening combinators end a poll with `Pending` only when the
/// outer iterator, the future in flight or the current sub-iterator
/// answered `Pending`.
pub proof fn lemma_flatten_steps_pending_only_after_pending<S, T, E, Fut>(
    outer: Poll<Option<S>>,
    outer_result: Poll<Option<Result<S, E>>>,
    inner: Poll<Option<T>>,
    fut: Option<Fut>,
    new_fut: Fut,
    sub: Option<S>,
    resolved: Poll<S>,
)
    ensures
        flatten_on_iter_step::<S, T>(outer) matches Step::Finish(Poll::Pending) ==> outer is Pending,
        flatten_on_held_step(inner) matches Step::Finish(Poll::Pending) ==> inner is Pending,
        try_flatten_on_iter_step::<S, T, E>(outer_result) matches Step::Finish(Poll::Pending) ==> outer_result is Pending,
        flat_map_async_on_iter::<S, Fut, T>(outer, new_fut).1 matches FlatMapAsyncStep::Finish(Poll::Pending)
            ==> outer is Pending,
        flat_map_async_on_future::<Fut, S, T>(fut, resolved).2 matches FlatMapAsyncStep::Finish(Poll::Pending)
            ==> resolved is Pending,
        flat_map_async_on_sub(sub, inner).1 matches FlatMapAsyncStep::Finish(Poll::Pending) ==> inner is Pending,
{
}

/// `Zip` ends a poll with `Pending` only when a side it polled answered
/// `Pending`, and `AsyncSlimMap` only when the first future did.
pub proof fn lemma_zip_and_slim_map_pending_only_after_pending<TA, TB, X, V>(
    buffer: ZipBuffer<TA, TB>,
    left: Poll<Option<TA>>,
    right: Poll<Option<TB>>,
    first: Poll<X>,
)
    ensures
        zip_on_left(buffer, left).1 matches ZipStep::Finish(Poll::Pending) ==> left is Pending,
        zip_on_right(buffer, right).1 matches ZipStep::Finish(Poll::Pending) ==> right is Pending,
        slim_map_on_first::<X, V>(first) matches SlimMapStep::Finish(Poll::Pending) ==> first is Pending,
{
}


/// A script none of whose answers is `Pending`.
pub open spec fn all_ready<T>(a: Seq<Poll<Option<T>>>) -> bool {
    forall|i: int| 0 <= i < a.len() ==> !(#[trigger] a[i] is Pending)
}

/// What follows the first answer of a script with no `Pending` has none either.
pub proof fn lemma_all_ready_rest<T>(a: Seq<Poll<Option<T>>>)
    requires
        all_ready(a),
        a.len() > 0,
    ensures
        all_ready(a.drop_first()),
        !(a[0] is Pending),
{
    assert forall|i: int| 0 <= i < a.drop_first().len() implies !(#[trigger] a.drop_first()[i] is Pending) by {
        assert(a.drop_first()[i] == a[i + 1]);
    }
}

/// The answer of one poll of `ReduceAsync` from `holder`, when `step` is
/// the step to take now, where the iterator answers the script `a` and each
/// future `fut_of(acc, x)` made by the function is ready at once with
/// `resolve` of it. The poll ends at the first `Finish`; `Pending` also
/// when the script runs out.
pub open spec fn reduce_async_poll<T, Fut>(
    holder: ReduceHolder<T, Fut>,
    step: Step<Option<T>>,
    a: Seq<Poll<Option<T>>>,
    fut_of: spec_fn(T, T) -> Fut,
    resolve: spec_fn(Fut) -> T,
) -> Poll<Option<T>>
    decreases a.len(), reduce_rank(holder, step),
{
    match step {
        Step::PollIter => if a.len() == 0 {
            Poll::Pending
        } else {
            let (next, step) = reduce_on_iter(holder, a[0], fut_of(holder->B_unpinned, answered(a[0])));
            reduce_async_poll(next, step, a.drop_first(), fut_of, resolve)
        },
        Step::PollHeld => if holder is C {
            let (next, step) = reduce_on_held(holder, Poll::Ready(resolve(holder->C_pinned)));
            reduce_async_poll(next, step, a, fut_of, resolve)
        } else {
            Poll::Pending
        },
        Step::Finish(answer) => answer,
    }
}

/// From any holder, when the iterator and the futures are all ready at
/// once, one poll of `ReduceAsync` answers the whole reduction.
pub proof fn lemma_reduce_async_poll_from<T, Fut>(
    holder: ReduceHolder<T, Fut>,
    a: Seq<Poll<Option<T>>>,
    fut_of: spec_fn(T, T) -> Fut,
    resolve: spec_fn(Fut) -> T,
    g: spec_fn(T, T) -> T,
)
    requires
        script_ends(a),
        all_ready(a),
        forall|acc: T, x: T| #[trigger] resolve(fut_of(acc, x)) == g(acc, x),
    ensures
        reduce_async_poll(holder, reduce_resume(holder), a, fut_of, resolve) == Poll::Ready(
            reduce_expected(holder, script_items(a), resolve, g),
        ),
    decreases a.len(), if holder is C { 1int } else { 0int },
{
    let answer = reduce_async_poll(holder, reduce_resume(holder), a, fut_of, resolve);
    let rest = a.drop_first();
    match holder {
        ThreeStates::C { pinned: fut, .. } => {
            let next = ReduceHolder::<T, Fut>::B { pinned: (), unpinned: resolve(fut) };
            lemma_reduce_async_poll_from(next, a, fut_of, resolve, g);
            assert(answer == reduce_async_poll(next, Step::PollIter, a, fut_of, resolve));
        },
        _ => {
            lemma_all_ready_rest(a);
            match a[0] {
                Poll::Ready(None) => {
                    assert(script_items(a) =~= Seq::<T>::empty());
                    match holder {
                        ThreeStates::B { unpinned: acc, .. } => {
                            assert(answer == reduce_async_poll(
                                ReduceHolder::<T, Fut>::A { pinned: (), unpinned: () },
                                Step::Finish(Poll::Ready(Some(acc))),
                                rest,
                                fut_of,
                                resolve,
                            ));
                            assert(Seq::<T>::empty().fold_left(acc, g) == acc);
                        },
                        _ => {
                            assert(answer == reduce_async_poll(holder, Step::Finish(Poll::Ready(None)), rest, fut_of, resolve));
                        },
                    }
                },
                Poll::Ready(Some(x)) => {
                    assert(script_ends(rest));
                    assert(script_items(a) == seq![x] + script_items(rest));
                    match holder {
                        ThreeStates::B { unpinned: acc, .. } => {
                            let next = ReduceHolder::<T, Fut>::C { pinned: fut_of(acc, x), unpinned: () };
                            lemma_reduce_async_poll_from(next, rest, fut_of, resolve, g);
                            assert(answer == reduce_async_poll(next, Step::PollHeld, rest, fut_of, resolve));
                            assert(resolve(fut_of(acc, x)) == g(acc, x));
                            lemma_fold_left_prepend(x, script_items(rest), acc, g);
                        },
                        _ => {
                            let next = ReduceHolder::<T, Fut>::B { pinned: (), unpinned: x };
                            lemma_reduce_async_poll_from(next, rest, fut_of, resolve, g);
                            assert(answer == reduce_async_poll(next, Step::PollIter, rest, fut_of, resolve));
                            assert((seq![x] + script_items(rest)).drop_first() =~= script_items(rest));
                        },
                    }
                },
                Poll::Pending => {},
            }
        },
    }
}

/// When the iterator and the combining futures are all ready at once, the
/// first poll of `ReduceAsync` answers `Ready`: `None` for no items, else
/// the first item combined with each next one in turn.
pub proof fn lemma_reduce_async_one_poll<T, Fut>(
    a: Seq<Poll<Option<T>>>,
    fut_of: spec_fn(T, T) -> Fut,
    resolve: spec_fn(Fut) -> T,
    g: spec_fn(T, T) -> T,
)
    requires
        script_ends(a),
        all_ready(a),
        forall|acc: T, x: T| #[trigger] resolve(fut_of(acc, x)) == g(acc, x),
    ensures
        reduce_async_poll(ThreeStates::A { pinned: (), unpinned: () }, Step::PollIter, a, fut_of, resolve)
            == Poll::Ready(if script_items(a).len() == 0 {
            None
        } else {
            Some(script_items(a).drop_first().fold_left(script_items(a)[0], g))
        }),
{
    lemma_reduce_async_poll_from(ReduceHolder::<T, Fut>::A { pinned: (), unpinned: () }, a, fut_of, resolve, g);
}

/// The answer of one poll of `FilterAsync` from `state`, when `step` is the
/// step to take now, where the iterator answers the script `a` and each
/// verdict is ready at once with `keep` of the item.
pub open spec fn filter_async_poll<T, Fut>(
    state: PredicateState<T, Fut>,
    step: Step<Option<T>>,
    a: Seq<Poll<Option<T>>>,
    fut_of: spec_fn(T) -> Fut,
    keep: spec_fn(T) -> bool,
) -> Poll<Option<T>>
    decreases a.len(), predicate_rank(state, step),
{
    match step {
        Step::PollIter => if a.len() == 0 {
            Poll::Pending
        } else {
            let (next, step) = predicate_on_iter(a[0], fut_of(answered(a[0])));
            filter_async_poll(next, step, a.drop_first(), fut_of, keep)
        },
        Step::PollHeld => if state is Polling {
            let (next, step) = filter_async_on_held(state, Poll::Ready(keep(state->item)));
            filter_async_poll(next, step, a, fut_of, keep)
        } else {
            Poll::Pending
        },
        Step::Finish(answer) => answer,
    }
}

/// From any state, when the iterator and the verdicts are all ready at
/// once, one poll of `FilterAsync` answers the next kept item, or `None`.
pub proof fn lemma_filter_async_poll_from<T, Fut>(
    state: PredicateState<T, Fut>,
    a: Seq<Poll<Option<T>>>,
    fut_of: spec_fn(T) -> Fut,
    keep: spec_fn(T) -> bool,
)
    requires
        script_ends(a),
        all_ready(a),
    ensures
        filter_async_poll(state, predicate_resume(state), a, fut_of, keep) == Poll::Ready(
            first_of(waiting_kept(state, keep) + script_items(a).filter(keep)),
        ),
    decreases a.len(), if state is Polling { 1int } else { 0int },
{
    let answer = filter_async_poll(state, predicate_resume(state), a, fut_of, keep);
    let empty = PredicateState::<T, Fut>::Empty;
    match state {
        PredicateState::Polling { item, .. } => {
            if keep(item) {
                assert(answer == filter_async_poll(empty, Step::Finish(Poll::Ready(Some(item))), a, fut_of, keep));
                assert((waiting_kept(state, keep) + script_items(a).filter(keep))[0] == item);
            } else {
                lemma_filter_async_poll_from(empty, a, fut_of, keep);
                assert(answer == filter_async_poll(empty, Step::PollIter, a, fut_of, keep));
                assert(waiting_kept(state, keep) + script_items(a).filter(keep) =~= waiting_kept(empty, keep)
                    + script_items(a).filter(keep));
            }
        },
        PredicateState::Empty => {
            lemma_all_ready_rest(a);
            let rest = a.drop_first();
            match a[0] {
                Poll::Ready(None) => {
                    assert(script_items(a) =~= Seq::<T>::empty());
                    assert(script_items(a).filter(keep) =~= Seq::<T>::empty());
                    assert(waiting_kept(state, keep) + script_items(a).filter(keep) =~= Seq::<T>::empty());
                    assert(answer == filter_async_poll(state, Step::Finish(Poll::Ready(None)), rest, fut_of, keep));
                },
                Poll::Ready(Some(x)) => {
                    assert(script_ends(rest));
                    let waiting = PredicateState::Polling { item: x, fut: fut_of(x) };
                    lemma_filter_async_poll_from(waiting, rest, fut_of, keep);
                    assert(answer == filter_async_poll(waiting, Step::PollHeld, rest, fut_of, keep));
                    script_items(rest).lemma_filter_prepend(x, keep);
                    assert(script_items(a) == seq![x] + script_items(rest));
                    assert(waiting_kept(state, keep) + script_items(a).filter(keep) =~= waiting_kept(waiting, keep)
                        + script_items(rest).filter(keep));
                },
                Poll::Pending => {},
            }
        },
    }
}

/// When the iterator and the verdicts are all ready at once, the first poll
/// of `FilterAsync` answers `Ready` with the first item whose verdict is
/// `true`, or `None` when there is none: rejected items never end a poll.
pub proof fn lemma_filter_async_one_poll<T, Fut>(
    a: Seq<Poll<Option<T>>>,
    fut_of: spec_fn(T) -> Fut,
    keep: spec_fn(T) -> bool,
)
    requires
        script_ends(a),
        all_ready(a),
    ensures
        filter_async_poll(PredicateState::Empty, Step::PollIter, a, fut_of, keep) == Poll::Ready(
            first_of(script_items(a).filter(keep)),
        ),
{
    lemma_filter_async_poll_from(PredicateState::<T, Fut>::Empty, a, fut_of, keep);
    assert(Seq::<T>::empty() + script_items(a).filter(keep) =~= script_items(a).filter(keep));
}

/// The answer of one poll of `Fold` from the accumulator `acc`, where the
/// iterator answers the script `a`, the getter returns `get(c)` on an
/// accumulator `c` and leaves `rest(c)`, and the function answers `f(v, x)`.
pub open spec fn fold_poll<T, X>(
    acc: T,
    a: Seq<Poll<Option<X>>>,
    get: spec_fn(T) -> T,
    rest: spec_fn(T) -> T,
    f: spec_fn(T, X) -> T,
) -> Poll<T>
    decreases a.len(),
{
    if a.len() == 0 {
        Poll::Pending
    } else {
        let (next, step) = fold_step(acc, a[0], f(get(acc), answered(a[0])), (get(acc), rest(acc)));
        match step {
            Step::Finish(answer) => answer,
            _ => fold_poll(next, a.drop_first(), get, rest, f),
        }
    }
}

/// When the iterator answers all its items at once, the first poll of
/// `Fold` answers `Ready` with the value the getter gives of the initial
/// accumulator combined with each item in turn.
pub proof fn lemma_fold_one_poll<T, X>(
    acc: T,
    a: Seq<Poll<Option<X>>>,
    get: spec_fn(T) -> T,
    rest: spec_fn(T) -> T,
    f: spec_fn(T, X) -> T,
    g: spec_fn(T, X) -> T,
)
    requires
        script_ends(a),
        all_ready(a),
        forall|c: T, x: X| #[trigger] g(c, x) == f(get(c), x),
    ensures
        fold_poll(acc, a, get, rest, f) == Poll::Ready(get(script_items(a).fold_left(acc, g))),
    decreases a.len(),
{
    lemma_all_ready_rest(a);
    let tail = a.drop_first();
    match a[0] {
        Poll::Ready(Some(x)) => {
            assert(script_ends(tail));
            assert(g(acc, x) == f(get(acc), x));
            lemma_fold_one_poll(g(acc, x), tail, get, rest, f, g);
            assert(script_items(a) == seq![x] + script_items(tail));
            lemma_fold_left_prepend(x, script_items(tail), acc, g);
        },
        Poll::Ready(None) => {
            assert(script_items(a) =~= Seq::<X>::empty());
        },
        Poll::Pending => {},
    }
}

} // verus!
