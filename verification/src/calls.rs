//! Which arguments the combinators hand to the user's function when a
//! driver polls them to the end, with scripts, delays and steps as in
//! [`crate::poll_runs`].
//!
//! Each `*_calls` function follows its combinator's run step by step and
//! collects, in order, the argument of every call the combinator makes: a
//! call is made exactly when the step function that answers the underlying
//! iterator starts a new future from the function. The lemmas state that
//! the function is called once for each item it is owed, in order, and
//! never after the item that decides the answer.

use vstd::prelude::*;
use crate::poll::{Poll, Step};
use crate::async_iter::states::PredicateState;
use crate::async_iter::filter_async::{predicate_on_iter, predicate_resume, filter_async_on_held};
use crate::poll_runs::{
    script_items, script_ends, answered, next_wait, predicate_rank, lemma_script_ends_rest, skip_rank, reduce_rank,
    reduce_next_wait, fold_rank, fold_next_wait, held_rank, success,
};
use crate::three_states::ThreeStates;
use crate::async_iter::skip_while_async::{
    SkipState, skip_while_async_on_held, skip_while_async_on_iter, skip_while_async_resume,
};
use crate::async_iter::reduce_async::{ReduceHolder, reduce_on_iter, reduce_on_held, reduce_resume};
use crate::async_iter::states::FoldState;
use crate::async_iter::fold_async::{fold_async_on_iter, fold_async_on_held, fold_async_resume};
use crate::async_iter::try_fold_async::{try_fold_async_on_held, try_fold_async_on_iter, try_fold_async_resume};
use crate::async_iter::and_then_async::{and_then_async_on_iter, held_output_on_held, held_resume};
use core::ops::ControlFlow;

verus! {

/// The items of `s` up to and including the first that `p` accepts; all of
/// them when `p` accepts none.
pub open spec fn through_first<T>(s: Seq<T>, p: spec_fn(T) -> bool) -> Seq<T>
    decreases s.len(),
{
    if s.len() == 0 {
        Seq::empty()
    } else if p(s[0]) {
        seq![s[0]]
    } else {
        seq![s[0]] + through_first(s.drop_first(), p)
    }
}

/// The items `FilterAsync` hands to its predicate from `state`, when `step`
/// is the step to take now, over the script `a`, with the verdicts as for
/// [`crate::poll_runs::filter_async_run`].
pub open spec fn filter_async_calls<T, Fut>(
    state: PredicateState<T, Fut>,
    step: Step<Option<T>>,
    a: Seq<Poll<Option<T>>>,
    wait: nat,
    fut_of: spec_fn(T) -> Fut,
    keep: spec_fn(T) -> bool,
    delay: spec_fn(T) -> nat,
) -> Seq<T>
    decreases a.len(), wait, predicate_rank(state, step),
{
    match step {
        Step::PollIter => if a.len() == 0 {
            Seq::empty()
        } else {
            let (next, step) = predicate_on_iter(a[0], fut_of(answered(a[0])));
            let made = if next is Polling {
                seq![answered(a[0])]
            } else {
                Seq::empty()
            };
            made + filter_async_calls(next, step, a.drop_first(), next_wait(a[0], wait, delay), fut_of, keep, delay)
        },
        Step::PollHeld => if state is Polling {
            if wait > 0 {
                let (next, step) = filter_async_on_held(state, Poll::Pending);
                filter_async_calls(next, step, a, (wait - 1) as nat, fut_of, keep, delay)
            } else {
                let (next, step) = filter_async_on_held(state, Poll::Ready(keep(state->item)));
                filter_async_calls(next, step, a, 0, fut_of, keep, delay)
            }
        } else {
            Seq::empty()
        },
        Step::Finish(Poll::Ready(None)) => Seq::empty(),
        Step::Finish(_) => filter_async_calls(state, predicate_resume(state), a, wait, fut_of, keep, delay),
    }
}

/// From any state, `FilterAsync` calls its predicate once on each item
/// still to come, in order.
pub proof fn lemma_filter_async_calls_from<T, Fut>(
    state: PredicateState<T, Fut>,
    a: Seq<Poll<Option<T>>>,
    wait: nat,
    fut_of: spec_fn(T) -> Fut,
    keep: spec_fn(T) -> bool,
    delay: spec_fn(T) -> nat,
)
    requires
        script_ends(a),
    ensures
        filter_async_calls(state, predicate_resume(state), a, wait, fut_of, keep, delay) == script_items(a),
    decreases a.len(), wait, if state is Polling { 1int } else { 0int },
{
    let calls = filter_async_calls(state, predicate_resume(state), a, wait, fut_of, keep, delay);
    let empty = PredicateState::<T, Fut>::Empty;
    match state {
        PredicateState::Polling { item, .. } => {
            if wait > 0 {
                lemma_filter_async_calls_from(state, a, (wait - 1) as nat, fut_of, keep, delay);
                assert(calls == filter_async_calls(state, Step::Finish(Poll::Pending), a, (wait - 1) as nat, fut_of, keep, delay));
            } else {
                lemma_filter_async_calls_from(empty, a, 0, fut_of, keep, delay);
                if keep(item) {
                    assert(calls == filter_async_calls(empty, Step::Finish(Poll::Ready(Some(item))), a, 0, fut_of, keep, delay));
                } else {
                    assert(calls == filter_async_calls(empty, Step::PollIter, a, 0, fut_of, keep, delay));
                }
            }
        },
        PredicateState::Empty => {
            let rest = a.drop_first();
            match a[0] {
                Poll::Pending => {
                    lemma_script_ends_rest(a);
                    lemma_filter_async_calls_from(state, rest, wait, fut_of, keep, delay);
                    assert(calls =~= filter_async_calls(state, Step::Finish(Poll::Pending), rest, wait, fut_of, keep, delay));
                },
                Poll::Ready(None) => {
                    assert(calls =~= filter_async_calls(state, Step::Finish(Poll::Ready(None)), rest, wait, fut_of, keep, delay));
                    assert(script_items(a) =~= Seq::<T>::empty());
                },
                Poll::Ready(Some(x)) => {
                    lemma_script_ends_rest(a);
                    let waiting = PredicateState::Polling { item: x, fut: fut_of(x) };
                    lemma_filter_async_calls_from(waiting, rest, delay(x), fut_of, keep, delay);
                    assert(calls == seq![x] + filter_async_calls(waiting, Step::PollHeld, rest, delay(x), fut_of, keep, delay));
                    assert(script_items(a) == seq![x] + script_items(rest));
                },
            }
        },
    }
}

/// `FilterAsync` calls its predicate exactly once on each item, in order,
/// however many times the iterator and the verdicts answer `Pending`.
pub proof fn lemma_filter_async_calls<T, Fut>(
    a: Seq<Poll<Option<T>>>,
    fut_of: spec_fn(T) -> Fut,
    keep: spec_fn(T) -> bool,
    delay: spec_fn(T) -> nat,
)
    requires
        script_ends(a),
    ensures
        filter_async_calls(PredicateState::Empty, Step::PollIter, a, 0, fut_of, keep, delay) == script_items(a),
{
    lemma_filter_async_calls_from(PredicateState::<T, Fut>::Empty, a, 0, fut_of, keep, delay);
}

/// The items `FindAsync` hands to its predicate from `state`, when `step`
/// is the step to take now, over the script `a`, with the verdicts as for
/// [`crate::poll_runs::find_async_run`].
pub open spec fn find_async_calls<T, Fut>(
    state: PredicateState<T, Fut>,
    step: Step<Option<T>>,
    a: Seq<Poll<Option<T>>>,
    wait: nat,
    fut_of: spec_fn(T) -> Fut,
    keep: spec_fn(T) -> bool,
    delay: spec_fn(T) -> nat,
) -> Seq<T>
    decreases a.len(), wait, predicate_rank(state, step),
{
    match step {
        Step::PollIter => if a.len() == 0 {
            Seq::empty()
        } else {
            let (next, step) = predicate_on_iter(a[0], fut_of(answered(a[0])));
            let made = if next is Polling {
                seq![answered(a[0])]
            } else {
                Seq::empty()
            };
            made + find_async_calls(next, step, a.drop_first(), next_wait(a[0], wait, delay), fut_of, keep, delay)
        },
        Step::PollHeld => if state is Polling {
            if wait > 0 {
                let (next, step) = filter_async_on_held(state, Poll::Pending);
                find_async_calls(next, step, a, (wait - 1) as nat, fut_of, keep, delay)
            } else {
                let (next, step) = filter_async_on_held(state, Poll::Ready(keep(state->item)));
                find_async_calls(next, step, a, 0, fut_of, keep, delay)
            }
        } else {
            Seq::empty()
        },
        Step::Finish(Poll::Ready(_)) => Seq::empty(),
        Step::Finish(Poll::Pending) => find_async_calls(state, predicate_resume(state), a, wait, fut_of, keep, delay),
    }
}

/// The items a predicate waiting in `state` is still owed over the items
/// `s`: none once the waiting item is accepted, else those up to and
/// including the first accepted one.
pub open spec fn find_calls_expected<T, Fut>(state: PredicateState<T, Fut>, s: Seq<T>, keep: spec_fn(T) -> bool) -> Seq<T> {
    match state {
        PredicateState::Polling { item, .. } => if keep(item) {
            Seq::empty()
        } else {
            through_first(s, keep)
        },
        PredicateState::Empty => through_first(s, keep),
    }
}

/// From any state, `FindAsync` calls its predicate on the items still to
/// come up to and including the first it accepts, once each, in order.
pub proof fn lemma_find_async_calls_from<T, Fut>(
    state: PredicateState<T, Fut>,
    a: Seq<Poll<Option<T>>>,
    wait: nat,
    fut_of: spec_fn(T) -> Fut,
    keep: spec_fn(T) -> bool,
    delay: spec_fn(T) -> nat,
)
    requires
        script_ends(a),
    ensures
        find_async_calls(state, predicate_resume(state), a, wait, fut_of, keep, delay) == find_calls_expected(
            state,
            script_items(a),
            keep,
        ),
    decreases a.len(), wait, if state is Polling { 1int } else { 0int },
{
    let calls = find_async_calls(state, predicate_resume(state), a, wait, fut_of, keep, delay);
    let empty = PredicateState::<T, Fut>::Empty;
    match state {
        PredicateState::Polling { item, .. } => {
            if wait > 0 {
                lemma_find_async_calls_from(state, a, (wait - 1) as nat, fut_of, keep, delay);
                assert(calls == find_async_calls(state, Step::Finish(Poll::Pending), a, (wait - 1) as nat, fut_of, keep, delay));
            } else if keep(item) {
                assert(calls == find_async_calls(empty, Step::Finish(Poll::Ready(Some(item))), a, 0, fut_of, keep, delay));
            } else {
                lemma_find_async_calls_from(empty, a, 0, fut_of, keep, delay);
                assert(calls == find_async_calls(empty, Step::PollIter, a, 0, fut_of, keep, delay));
            }
        },
        PredicateState::Empty => {
            let rest = a.drop_first();
            match a[0] {
                Poll::Pending => {
                    lemma_script_ends_rest(a);
                    lemma_find_async_calls_from(state, rest, wait, fut_of, keep, delay);
                    assert(calls =~= find_async_calls(state, Step::Finish(Poll::Pending), rest, wait, fut_of, keep, delay));
                    assert(script_items(a) == script_items(rest));
                },
                Poll::Ready(None) => {
                    assert(calls =~= find_async_calls(state, Step::Finish(Poll::Ready(None)), rest, wait, fut_of, keep, delay));
                    assert(script_items(a) =~= Seq::<T>::empty());
                },
                Poll::Ready(Some(x)) => {
                    lemma_script_ends_rest(a);
                    let items = script_items(a);
                    assert(items == seq![x] + script_items(rest));
                    assert(items[0] == x);
                    assert(items.drop_first() =~= script_items(rest));
                    let waiting = PredicateState::Polling { item: x, fut: fut_of(x) };
                    lemma_find_async_calls_from(waiting, rest, delay(x), fut_of, keep, delay);
                    assert(calls == seq![x] + find_async_calls(waiting, Step::PollHeld, rest, delay(x), fut_of, keep, delay));
                    if keep(x) {
                        assert(seq![x] + Seq::<T>::empty() =~= seq![x]);
                    }
                },
            }
        },
    }
}

/// `FindAsync` calls its predicate on the items up to and including the
/// first it accepts (on all of them when it accepts none), once each, in
/// order, and never on a later item, however many times the iterator and
/// the verdicts answer `Pending`.
pub proof fn lemma_find_async_calls<T, Fut>(
    a: Seq<Poll<Option<T>>>,
    fut_of: spec_fn(T) -> Fut,
    keep: spec_fn(T) -> bool,
    delay: spec_fn(T) -> nat,
)
    requires
        script_ends(a),
    ensures
        find_async_calls(PredicateState::Empty, Step::PollIter, a, 0, fut_of, keep, delay) == through_first(
            script_items(a),
            keep,
        ),
{
    lemma_find_async_calls_from(PredicateState::<T, Fut>::Empty, a, 0, fut_of, keep, delay);
}

/// The items `SkipWhileAsync` hands to its predicate from `skipping`, when
/// `step` is the step to take now, over the script `a`, with the verdicts as
/// for [`crate::poll_runs::skip_while_async_run`].
pub open spec fn skip_while_async_calls<F, T, Fut>(
    skipping: Option<SkipState<F, T, Fut>>,
    step: Step<Option<T>>,
    a: Seq<Poll<Option<T>>>,
    wait: nat,
    fut_of: spec_fn(T) -> Fut,
    skip: spec_fn(T) -> bool,
    delay: spec_fn(T) -> nat,
) -> Seq<T>
    decreases a.len(), wait, skip_rank(skipping, step),
{
    match step {
        Step::PollIter => if a.len() == 0 {
            Seq::empty()
        } else {
            let (next, step) = skip_while_async_on_iter(skipping, a[0], fut_of(answered(a[0])));
            let w: nat = if skipping is Some { next_wait(a[0], wait, delay) } else { wait };
            let made = if skip_while_async_resume(next) is PollHeld {
                seq![answered(a[0])]
            } else {
                Seq::empty()
            };
            made + skip_while_async_calls(next, step, a.drop_first(), w, fut_of, skip, delay)
        },
        Step::PollHeld => if skip_while_async_resume(skipping) is PollHeld {
            if wait > 0 {
                let (next, step) = skip_while_async_on_held(skipping, Poll::Pending);
                skip_while_async_calls(next, step, a, (wait - 1) as nat, fut_of, skip, delay)
            } else {
                let verdict = skip(skipping->0.predicate_state->item);
                let (next, step) = skip_while_async_on_held(skipping, Poll::Ready(verdict));
                skip_while_async_calls(next, step, a, 0, fut_of, skip, delay)
            }
        } else {
            Seq::empty()
        },
        Step::Finish(Poll::Ready(None)) => Seq::empty(),
        Step::Finish(_) => skip_while_async_calls(
            skipping,
            skip_while_async_resume(skipping),
            a,
            wait,
            fut_of,
            skip,
            delay,
        ),
    }
}

/// The items a `SkipWhileAsync` in `skipping` still owes its predicate over
/// the items `s`: none once it stopped skipping, else those up to and
/// including the first it does not skip.
pub open spec fn skip_calls_expected<F, T, Fut>(
    skipping: Option<SkipState<F, T, Fut>>,
    s: Seq<T>,
    skip: spec_fn(T) -> bool,
) -> Seq<T> {
    match skipping {
        None => Seq::empty(),
        Some(st) => match st.predicate_state {
            PredicateState::Polling { item, .. } => if skip(item) {
                through_first(s, |x: T| !skip(x))
            } else {
                Seq::empty()
            },
            PredicateState::Empty => through_first(s, |x: T| !skip(x)),
        },
    }
}

/// From any state, `SkipWhileAsync` calls its predicate on the items still
/// to come up to and including the first it does not skip, once each, in
/// order, and never after it.
pub proof fn lemma_skip_while_async_calls_from<F, T, Fut>(
    skipping: Option<SkipState<F, T, Fut>>,
    a: Seq<Poll<Option<T>>>,
    wait: nat,
    fut_of: spec_fn(T) -> Fut,
    skip: spec_fn(T) -> bool,
    delay: spec_fn(T) -> nat,
)
    requires
        script_ends(a),
    ensures
        skip_while_async_calls(skipping, skip_while_async_resume(skipping), a, wait, fut_of, skip, delay)
            == skip_calls_expected(skipping, script_items(a), skip),
    decreases a.len(), wait, if skip_while_async_resume(skipping) is PollHeld { 1int } else { 0int },
{
    let calls = skip_while_async_calls(skipping, skip_while_async_resume(skipping), a, wait, fut_of, skip, delay);
    let rest = a.drop_first();
    let none = None::<SkipState<F, T, Fut>>;
    if skip_while_async_resume(skipping) is PollHeld {
        let st = skipping->0;
        let item = st.predicate_state->item;
        if wait > 0 {
            lemma_skip_while_async_calls_from(skipping, a, (wait - 1) as nat, fut_of, skip, delay);
            assert(calls == skip_while_async_calls(skipping, Step::Finish(Poll::Pending), a, (wait - 1) as nat, fut_of, skip, delay));
        } else if skip(item) {
            let next = Some(SkipState { predicate_state: PredicateState::<T, Fut>::Empty, f: st.f });
            lemma_skip_while_async_calls_from(next, a, 0, fut_of, skip, delay);
            assert(calls == skip_while_async_calls(next, Step::PollIter, a, 0, fut_of, skip, delay));
        } else {
            lemma_skip_while_async_calls_from(none, a, 0, fut_of, skip, delay);
            assert(calls == skip_while_async_calls(none, Step::Finish(Poll::Ready(Some(item))), a, 0, fut_of, skip, delay));
        }
    } else {
        match a[0] {
            Poll::Pending => {
                lemma_script_ends_rest(a);
                assert(script_items(a) == script_items(rest));
                lemma_skip_while_async_calls_from(skipping, rest, wait, fut_of, skip, delay);
                assert(calls =~= skip_while_async_calls(skipping, Step::Finish(Poll::Pending), rest, wait, fut_of, skip, delay));
            },
            Poll::Ready(None) => {
                assert(script_items(a) =~= Seq::<T>::empty());
                assert(calls =~= skip_while_async_calls(skipping, Step::Finish(Poll::Ready(None)), rest, wait, fut_of, skip, delay));
            },
            Poll::Ready(Some(x)) => {
                lemma_script_ends_rest(a);
                let items = script_items(a);
                assert(items == seq![x] + script_items(rest));
                assert(items[0] == x);
                assert(items.drop_first() =~= script_items(rest));
                match skipping {
                    None => {
                        lemma_skip_while_async_calls_from(skipping, rest, wait, fut_of, skip, delay);
                        assert(calls =~= skip_while_async_calls(skipping, Step::Finish(Poll::Ready(Some(x))), rest, wait, fut_of, skip, delay));
                    },
                    Some(st) => {
                        let next = Some(SkipState {
                            predicate_state: PredicateState::Polling { item: x, fut: fut_of(x) },
                            f: st.f,
                        });
                        lemma_skip_while_async_calls_from(next, rest, delay(x), fut_of, skip, delay);
                        assert(calls == seq![x] + skip_while_async_calls(next, Step::PollHeld, rest, delay(x), fut_of, skip, delay));
                        if !skip(x) {
                            assert(seq![x] + Seq::<T>::empty() =~= seq![x]);
                        }
                    },
                }
            },
        }
    }
}

/// `SkipWhileAsync` calls its predicate on the items up to and including
/// the first it does not skip (on all of them when it skips every one),
/// once each, in order, and never again after the first `false`, however
/// many times the iterator and the verdicts answer `Pending`.
pub proof fn lemma_skip_while_async_calls<F, T, Fut>(
    f: F,
    a: Seq<Poll<Option<T>>>,
    fut_of: spec_fn(T) -> Fut,
    skip: spec_fn(T) -> bool,
    delay: spec_fn(T) -> nat,
)
    requires
        script_ends(a),
    ensures
        skip_while_async_calls(
            Some(SkipState { predicate_state: PredicateState::<T, Fut>::Empty, f }),
            Step::PollIter,
            a,
            0,
            fut_of,
            skip,
            delay,
        ) == through_first(script_items(a), |x: T| !skip(x)),
{
    lemma_skip_while_async_calls_from(
        Some(SkipState { predicate_state: PredicateState::<T, Fut>::Empty, f }),
        a,
        0,
        fut_of,
        skip,
        delay,
    );
}

/// The pairs of accumulator and item handed to the function when the items
/// `s` are folded into `acc` by `g`.
pub open spec fn fold_args<T, X>(s: Seq<X>, acc: T, g: spec_fn(T, X) -> T) -> Seq<(T, X)>
    decreases s.len(),
{
    if s.len() == 0 {
        Seq::empty()
    } else {
        seq![(acc, s[0])] + fold_args(s.drop_first(), g(acc, s[0]), g)
    }
}

/// The items `ReduceAsync` hands to its function, with the accumulator, from
/// `holder`, when `step` is the step to take now, over the script `a`, with
/// the futures as for [`crate::poll_runs::reduce_async_run`].
pub open spec fn reduce_async_calls<T, Fut>(
    holder: ReduceHolder<T, Fut>,
    step: Step<Option<T>>,
    a: Seq<Poll<Option<T>>>,
    wait: nat,
    fut_of: spec_fn(T, T) -> Fut,
    resolve: spec_fn(Fut) -> T,
    delay: spec_fn(T, T) -> nat,
) -> Seq<(T, T)>
    decreases a.len(), wait, reduce_rank(holder, step),
{
    match step {
        Step::PollIter => if a.len() == 0 {
            Seq::empty()
        } else {
            let (next, step) = reduce_on_iter(holder, a[0], fut_of(holder->B_unpinned, answered(a[0])));
            let made = if next is C {
                seq![(holder->B_unpinned, answered(a[0]))]
            } else {
                Seq::empty()
            };
            made + reduce_async_calls(
                next,
                step,
                a.drop_first(),
                reduce_next_wait(holder, a[0], wait, delay),
                fut_of,
                resolve,
                delay,
            )
        },
        Step::PollHeld => if holder is C {
            if wait > 0 {
                let (next, step) = reduce_on_held(holder, Poll::Pending);
                reduce_async_calls(next, step, a, (wait - 1) as nat, fut_of, resolve, delay)
            } else {
                let (next, step) = reduce_on_held(holder, Poll::Ready(resolve(holder->C_pinned)));
                reduce_async_calls(next, step, a, 0, fut_of, resolve, delay)
            }
        } else {
            Seq::empty()
        },
        Step::Finish(Poll::Ready(_)) => Seq::empty(),
        Step::Finish(Poll::Pending) => reduce_async_calls(holder, reduce_resume(holder), a, wait, fut_of, resolve, delay),
    }
}

/// What `ReduceAsync` still hands its function from `holder` over the items
/// `s`.
pub open spec fn reduce_calls_expected<T, Fut>(
    holder: ReduceHolder<T, Fut>,
    s: Seq<T>,
    resolve: spec_fn(Fut) -> T,
    g: spec_fn(T, T) -> T,
) -> Seq<(T, T)> {
    match holder {
        ThreeStates::A { .. } => if s.len() == 0 {
            Seq::empty()
        } else {
            fold_args(s.drop_first(), s[0], g)
        },
        ThreeStates::B { unpinned: acc, .. } => fold_args(s, acc, g),
        ThreeStates::C { pinned: fut, .. } => fold_args(s, resolve(fut), g),
    }
}

/// From any holder, `ReduceAsync` hands its function what
/// [`reduce_calls_expected`] says.
pub proof fn lemma_reduce_async_calls_from<T, Fut>(
    holder: ReduceHolder<T, Fut>,
    a: Seq<Poll<Option<T>>>,
    wait: nat,
    fut_of: spec_fn(T, T) -> Fut,
    resolve: spec_fn(Fut) -> T,
    delay: spec_fn(T, T) -> nat,
    g: spec_fn(T, T) -> T,
)
    requires
        script_ends(a),
        forall|acc: T, x: T| #[trigger] resolve(fut_of(acc, x)) == g(acc, x),
    ensures
        reduce_async_calls(holder, reduce_resume(holder), a, wait, fut_of, resolve, delay)
            == reduce_calls_expected(holder, script_items(a), resolve, g),
    decreases a.len(), wait, if holder is C { 1int } else { 0int },
{
    let calls = reduce_async_calls(holder, reduce_resume(holder), a, wait, fut_of, resolve, delay);
    let rest = a.drop_first();
    match holder {
        ThreeStates::C { pinned: fut, .. } => {
            if wait > 0 {
                lemma_reduce_async_calls_from(holder, a, (wait - 1) as nat, fut_of, resolve, delay, g);
                assert(calls == reduce_async_calls(holder, Step::Finish(Poll::Pending), a, (wait - 1) as nat, fut_of, resolve, delay));
            } else {
                let next = ReduceHolder::<T, Fut>::B { pinned: (), unpinned: resolve(fut) };
                lemma_reduce_async_calls_from(next, a, 0, fut_of, resolve, delay, g);
                assert(calls == reduce_async_calls(next, Step::PollIter, a, 0, fut_of, resolve, delay));
            }
        },
        _ => {
            match a[0] {
                Poll::Pending => {
                    lemma_script_ends_rest(a);
                    lemma_reduce_async_calls_from(holder, rest, wait, fut_of, resolve, delay, g);
                    assert(calls =~= reduce_async_calls(holder, Step::Finish(Poll::Pending), rest, wait, fut_of, resolve, delay));
                    assert(script_items(a) == script_items(rest));
                },
                Poll::Ready(None) => {
                    assert(script_items(a) =~= Seq::<T>::empty());
                    match holder {
                        ThreeStates::B { unpinned: acc, .. } => {
                            assert(calls =~= reduce_async_calls(
                                ReduceHolder::<T, Fut>::A { pinned: (), unpinned: () },
                                Step::Finish(Poll::Ready(Some(acc))),
                                rest,
                                wait,
                                fut_of,
                                resolve,
                                delay,
                            ));
                        },
                        _ => {
                            assert(calls =~= reduce_async_calls(holder, Step::Finish(Poll::Ready(None)), rest, wait, fut_of, resolve, delay));
                        },
                    }
                },
                Poll::Ready(Some(x)) => {
                    lemma_script_ends_rest(a);
                    let items = script_items(a);
                    assert(items == seq![x] + script_items(rest));
                    assert(items[0] == x);
                    assert(items.drop_first() =~= script_items(rest));
                    match holder {
                        ThreeStates::B { unpinned: acc, .. } => {
                            let next = ReduceHolder::<T, Fut>::C { pinned: fut_of(acc, x), unpinned: () };
                            lemma_reduce_async_calls_from(next, rest, delay(acc, x), fut_of, resolve, delay, g);
                            assert(calls == seq![(acc, x)] + reduce_async_calls(next, Step::PollHeld, rest, delay(acc, x), fut_of, resolve, delay));
                            assert(resolve(fut_of(acc, x)) == g(acc, x));
                        },
                        _ => {
                            let next = ReduceHolder::<T, Fut>::B { pinned: (), unpinned: x };
                            lemma_reduce_async_calls_from(next, rest, wait, fut_of, resolve, delay, g);
                            assert(calls =~= reduce_async_calls(next, Step::PollIter, rest, wait, fut_of, resolve, delay));
                        },
                    }
                },
            }
        },
    }
}

/// `ReduceAsync` hands its function nothing for no items, else, for each
/// item after the first, the accumulator so far and that item, once each,
/// in order (so one call fewer than there are items), however many times
/// the iterator and the futures answer `Pending`.
pub proof fn lemma_reduce_async_calls<T, Fut>(
    a: Seq<Poll<Option<T>>>,
    fut_of: spec_fn(T, T) -> Fut,
    resolve: spec_fn(Fut) -> T,
    delay: spec_fn(T, T) -> nat,
    g: spec_fn(T, T) -> T,
)
    requires
        script_ends(a),
        forall|acc: T, x: T| #[trigger] resolve(fut_of(acc, x)) == g(acc, x),
    ensures
        reduce_async_calls(ThreeStates::A { pinned: (), unpinned: () }, Step::PollIter, a, 0, fut_of, resolve, delay)
            == (if script_items(a).len() == 0 {
            Seq::empty()
        } else {
            fold_args(script_items(a).drop_first(), script_items(a)[0], g)
        }),
        reduce_async_calls(ThreeStates::A { pinned: (), unpinned: () }, Step::PollIter, a, 0, fut_of, resolve, delay).len()
            == (if script_items(a).len() == 0 {
            0
        } else {
            script_items(a).len() - 1
        }),
{
    lemma_reduce_async_calls_from(ReduceHolder::<T, Fut>::A { pinned: (), unpinned: () }, a, 0, fut_of, resolve, delay, g);
    if script_items(a).len() > 0 {
        lemma_fold_args_len(script_items(a).drop_first(), script_items(a)[0], g);
    }
}

/// A fold's function is handed one argument pair per item.
pub proof fn lemma_fold_args_len<T, X>(s: Seq<X>, acc: T, g: spec_fn(T, X) -> T)
    ensures
        fold_args(s, acc, g).len() == s.len(),
    decreases s.len(),
{
    if s.len() > 0 {
        lemma_fold_args_len(s.drop_first(), g(acc, s[0]), g);
    }
}



/// The pairs of the value the getter gives of the accumulator and the item
/// handed to the function when the items `s` are folded into `acc` by `g`.
pub open spec fn fold_value_args<T, X>(s: Seq<X>, acc: T, g: spec_fn(T, X) -> T, get: spec_fn(T) -> T) -> Seq<(T, X)>
    decreases s.len(),
{
    if s.len() == 0 {
        Seq::empty()
    } else {
        seq![(get(acc), s[0])] + fold_value_args(s.drop_first(), g(acc, s[0]), g, get)
    }
}

/// The arguments `FoldAsync` hands to its function from `state`, when
/// `step` is the step to take now, over the script `a`, with the getter and
/// the futures as for [`crate::poll_runs::fold_async_run`].
pub open spec fn fold_async_calls<T, X, Fut>(
    state: FoldState<T, Fut>,
    step: Step<T>,
    a: Seq<Poll<Option<X>>>,
    wait: nat,
    get: spec_fn(T) -> T,
    rest: spec_fn(T) -> T,
    fut_of: spec_fn(T, X) -> Fut,
    resolve: spec_fn(Fut) -> T,
    delay: spec_fn(T, X) -> nat,
) -> Seq<(T, X)>
    decreases a.len(), wait, fold_rank(state, step),
{
    match step {
        Step::PollIter => if a.len() == 0 {
            Seq::empty()
        } else {
            let acc = state->Accumulate_0;
            let (next, step) = fold_async_on_iter(state, a[0], fut_of(get(acc), answered(a[0])), (get(acc), rest(acc)));
            let made = if next is Future {
                seq![(get(acc), answered(a[0]))]
            } else {
                Seq::empty()
            };
            made + fold_async_calls(next, step, a.drop_first(), fold_next_wait(state, a[0], wait, delay), get, rest, fut_of, resolve, delay)
        },
        Step::PollHeld => if state is Future {
            if wait > 0 {
                let (next, step) = fold_async_on_held(state, Poll::Pending);
                fold_async_calls(next, step, a, (wait - 1) as nat, get, rest, fut_of, resolve, delay)
            } else {
                let (next, step) = fold_async_on_held(state, Poll::Ready(resolve(state->Future_0)));
                fold_async_calls(next, step, a, 0, get, rest, fut_of, resolve, delay)
            }
        } else {
            Seq::empty()
        },
        Step::Finish(Poll::Ready(_)) => Seq::empty(),
        Step::Finish(Poll::Pending) => fold_async_calls(state, fold_async_resume(state), a, wait, get, rest, fut_of, resolve, delay),
    }
}

/// The accumulator `FoldAsync` continues from in `state`.
pub open spec fn fold_state_acc<T, Fut>(state: FoldState<T, Fut>, resolve: spec_fn(Fut) -> T) -> T {
    match state {
        FoldState::Accumulate(acc) => acc,
        FoldState::Future(fut) => resolve(fut),
    }
}

/// From any state, `FoldAsync` hands its function the value of each
/// accumulator with the next item, once each, in order.
pub proof fn lemma_fold_async_calls_from<T, X, Fut>(
    state: FoldState<T, Fut>,
    a: Seq<Poll<Option<X>>>,
    wait: nat,
    get: spec_fn(T) -> T,
    rest: spec_fn(T) -> T,
    fut_of: spec_fn(T, X) -> Fut,
    resolve: spec_fn(Fut) -> T,
    delay: spec_fn(T, X) -> nat,
    g: spec_fn(T, X) -> T,
)
    requires
        script_ends(a),
        forall|acc: T, x: X| #[trigger] g(acc, x) == resolve(fut_of(get(acc), x)),
    ensures
        fold_async_calls(state, fold_async_resume(state), a, wait, get, rest, fut_of, resolve, delay) == fold_value_args(
            script_items(a),
            fold_state_acc(state, resolve),
            g,
            get,
        ),
    decreases a.len(), wait, if state is Future { 1int } else { 0int },
{
    let calls = fold_async_calls(state, fold_async_resume(state), a, wait, get, rest, fut_of, resolve, delay);
    let tail = a.drop_first();
    match state {
        FoldState::Future(fut) => {
            if wait > 0 {
                lemma_fold_async_calls_from(state, a, (wait - 1) as nat, get, rest, fut_of, resolve, delay, g);
                assert(calls == fold_async_calls(state, Step::Finish(Poll::Pending), a, (wait - 1) as nat, get, rest, fut_of, resolve, delay));
            } else {
                let next = FoldState::<T, Fut>::Accumulate(resolve(fut));
                lemma_fold_async_calls_from(next, a, 0, get, rest, fut_of, resolve, delay, g);
                assert(calls == fold_async_calls(next, Step::PollIter, a, 0, get, rest, fut_of, resolve, delay));
            }
        },
        FoldState::Accumulate(acc) => {
            match a[0] {
                Poll::Pending => {
                    lemma_script_ends_rest(a);
                    lemma_fold_async_calls_from(state, tail, wait, get, rest, fut_of, resolve, delay, g);
                    assert(calls =~= fold_async_calls(state, Step::Finish(Poll::Pending), tail, wait, get, rest, fut_of, resolve, delay));
                    assert(script_items(a) == script_items(tail));
                },
                Poll::Ready(None) => {
                    assert(script_items(a) =~= Seq::<X>::empty());
                    assert(calls =~= fold_async_calls(
                        FoldState::<T, Fut>::Accumulate(rest(acc)),
                        Step::Finish(Poll::Ready(get(acc))),
                        tail,
                        wait,
                        get, rest, fut_of, resolve, delay,
                    ));
                },
                Poll::Ready(Some(x)) => {
                    lemma_script_ends_rest(a);
                    let items = script_items(a);
                    assert(items == seq![x] + script_items(tail));
                    assert(items[0] == x);
                    assert(items.drop_first() =~= script_items(tail));
                    let next = FoldState::<T, Fut>::Future(fut_of(get(acc), x));
                    lemma_fold_async_calls_from(next, tail, delay(acc, x), get, rest, fut_of, resolve, delay, g);
                    assert(calls == seq![(get(acc), x)] + fold_async_calls(next, Step::PollHeld, tail, delay(acc, x), get, rest, fut_of, resolve, delay));
                    assert(g(acc, x) == resolve(fut_of(get(acc), x)));
                },
            }
        },
    }
}

/// `FoldAsync` hands its function, for each item in turn, the value the
/// getter gives of the accumulator so far and that item: once per item, in
/// order, however many times the iterator and the futures answer `Pending`.
pub proof fn lemma_fold_async_calls<T, X, Fut>(
    init: T,
    a: Seq<Poll<Option<X>>>,
    get: spec_fn(T) -> T,
    rest: spec_fn(T) -> T,
    fut_of: spec_fn(T, X) -> Fut,
    resolve: spec_fn(Fut) -> T,
    delay: spec_fn(T, X) -> nat,
    g: spec_fn(T, X) -> T,
)
    requires
        script_ends(a),
        forall|acc: T, x: X| #[trigger] g(acc, x) == resolve(fut_of(get(acc), x)),
    ensures
        fold_async_calls(FoldState::<T, Fut>::Accumulate(init), Step::PollIter, a, 0, get, rest, fut_of, resolve, delay) == fold_value_args(
            script_items(a),
            init,
            g,
            get,
        ),
        fold_value_args(script_items(a), init, g, get).len() == script_items(a).len(),
{
    lemma_fold_async_calls_from(FoldState::<T, Fut>::Accumulate(init), a, 0, get, rest, fut_of, resolve, delay, g);
    lemma_fold_value_args_len(script_items(a), init, g, get);
}

/// A fold's function is handed one argument pair per item.
pub proof fn lemma_fold_value_args_len<T, X>(s: Seq<X>, acc: T, g: spec_fn(T, X) -> T, get: spec_fn(T) -> T)
    ensures
        fold_value_args(s, acc, g, get).len() == s.len(),
    decreases s.len(),
{
    if s.len() > 0 {
        lemma_fold_value_args_len(s.drop_first(), g(acc, s[0]), g, get);
    }
}

/// The pairs of the value the getter gives of the accumulator and the item
/// handed to the function when the items `s` are folded into `acc` by `g`
/// up to and including the first that breaks.
pub open spec fn try_fold_value_args<B, T, X>(
    s: Seq<X>,
    acc: T,
    g: spec_fn(T, X) -> ControlFlow<B, T>,
    get: spec_fn(T) -> T,
) -> Seq<(T, X)>
    decreases s.len(),
{
    if s.len() == 0 {
        Seq::empty()
    } else {
        seq![(get(acc), s[0])] + match g(acc, s[0]) {
            ControlFlow::Continue(next) => try_fold_value_args(s.drop_first(), next, g, get),
            ControlFlow::Break(_) => Seq::empty(),
        }
    }
}

/// The arguments `TryFoldAsync` hands to its function from `state`, when
/// `step` is the step to take now, over the script `a`, with the getter and
/// the futures as for [`crate::poll_runs::try_fold_async_run`].
pub open spec fn try_fold_async_calls<B, T, X, Fut>(
    state: FoldState<T, Fut>,
    step: Step<ControlFlow<B, T>>,
    a: Seq<Poll<Option<X>>>,
    wait: nat,
    get: spec_fn(T) -> T,
    rest: spec_fn(T) -> T,
    fut_of: spec_fn(T, X) -> Fut,
    resolve: spec_fn(Fut) -> ControlFlow<B, T>,
    delay: spec_fn(T, X) -> nat,
) -> Seq<(T, X)>
    decreases a.len(), wait, fold_rank(state, step),
{
    match step {
        Step::PollIter => if a.len() == 0 {
            Seq::empty()
        } else {
            let acc = state->Accumulate_0;
            let (next, step) = try_fold_async_on_iter::<B, T, X, Fut>(
                state,
                a[0],
                fut_of(get(acc), answered(a[0])),
                (get(acc), rest(acc)),
            );
            let made = if next is Future {
                seq![(get(acc), answered(a[0]))]
            } else {
                Seq::empty()
            };
            made + try_fold_async_calls(next, step, a.drop_first(), fold_next_wait(state, a[0], wait, delay), get, rest, fut_of, resolve, delay)
        },
        Step::PollHeld => if state is Future {
            if wait > 0 {
                let (next, step) = try_fold_async_on_held(state, Poll::Pending);
                try_fold_async_calls(next, step, a, (wait - 1) as nat, get, rest, fut_of, resolve, delay)
            } else {
                let (next, step) = try_fold_async_on_held(state, Poll::Ready(resolve(state->Future_0)));
                try_fold_async_calls(next, step, a, 0, get, rest, fut_of, resolve, delay)
            }
        } else {
            Seq::empty()
        },
        Step::Finish(Poll::Ready(_)) => Seq::empty(),
        Step::Finish(Poll::Pending) => try_fold_async_calls(state, try_fold_async_resume(state), a, wait, get, rest, fut_of, resolve, delay),
    }
}

/// What `TryFoldAsync` still hands its function from `state` over the items `s`.
pub open spec fn try_fold_calls_expected<B, T, X, Fut>(
    state: FoldState<T, Fut>,
    s: Seq<X>,
    get: spec_fn(T) -> T,
    resolve: spec_fn(Fut) -> ControlFlow<B, T>,
    g: spec_fn(T, X) -> ControlFlow<B, T>,
) -> Seq<(T, X)> {
    match state {
        FoldState::Accumulate(acc) => try_fold_value_args(s, acc, g, get),
        FoldState::Future(fut) => match resolve(fut) {
            ControlFlow::Continue(acc) => try_fold_value_args(s, acc, g, get),
            ControlFlow::Break(_) => Seq::empty(),
        },
    }
}

/// From any state, `TryFoldAsync` hands its function what
/// [`try_fold_calls_expected`] says.
pub proof fn lemma_try_fold_async_calls_from<B, T, X, Fut>(
    state: FoldState<T, Fut>,
    a: Seq<Poll<Option<X>>>,
    wait: nat,
    get: spec_fn(T) -> T,
    rest: spec_fn(T) -> T,
    fut_of: spec_fn(T, X) -> Fut,
    resolve: spec_fn(Fut) -> ControlFlow<B, T>,
    delay: spec_fn(T, X) -> nat,
    g: spec_fn(T, X) -> ControlFlow<B, T>,
)
    requires
        script_ends(a),
        forall|acc: T, x: X| #[trigger] g(acc, x) == resolve(fut_of(get(acc), x)),
    ensures
        try_fold_async_calls(state, try_fold_async_resume(state), a, wait, get, rest, fut_of, resolve, delay)
            == try_fold_calls_expected(state, script_items(a), get, resolve, g),
    decreases a.len(), wait, if state is Future { 1int } else { 0int },
{
    let calls = try_fold_async_calls(state, try_fold_async_resume(state), a, wait, get, rest, fut_of, resolve, delay);
    let tail = a.drop_first();
    match state {
        FoldState::Future(fut) => {
            if wait > 0 {
                lemma_try_fold_async_calls_from(state, a, (wait - 1) as nat, get, rest, fut_of, resolve, delay, g);
                assert(calls == try_fold_async_calls(state, Step::Finish(Poll::Pending), a, (wait - 1) as nat, get, rest, fut_of, resolve, delay));
            } else {
                match resolve(fut) {
                    ControlFlow::Continue(acc) => {
                        let next = FoldState::<T, Fut>::Accumulate(acc);
                        lemma_try_fold_async_calls_from(next, a, 0, get, rest, fut_of, resolve, delay, g);
                        assert(calls == try_fold_async_calls(next, Step::PollIter, a, 0, get, rest, fut_of, resolve, delay));
                    },
                    ControlFlow::Break(b) => {
                        assert(calls == try_fold_async_calls(state, Step::Finish(Poll::Ready(ControlFlow::Break(b))), a, 0, get, rest, fut_of, resolve, delay));
                    },
                }
            }
        },
        FoldState::Accumulate(acc) => {
            match a[0] {
                Poll::Pending => {
                    lemma_script_ends_rest(a);
                    lemma_try_fold_async_calls_from(state, tail, wait, get, rest, fut_of, resolve, delay, g);
                    assert(calls =~= try_fold_async_calls(state, Step::Finish(Poll::Pending), tail, wait, get, rest, fut_of, resolve, delay));
                    assert(script_items(a) == script_items(tail));
                },
                Poll::Ready(None) => {
                    assert(script_items(a) =~= Seq::<X>::empty());
                    assert(calls =~= try_fold_async_calls(
                        FoldState::<T, Fut>::Accumulate(rest(acc)),
                        Step::Finish(Poll::Ready(ControlFlow::Continue(get(acc)))),
                        tail,
                        wait,
                        get, rest, fut_of, resolve, delay,
                    ));
                },
                Poll::Ready(Some(x)) => {
                    lemma_script_ends_rest(a);
                    let items = script_items(a);
                    assert(items == seq![x] + script_items(tail));
                    assert(items[0] == x);
                    assert(items.drop_first() =~= script_items(tail));
                    let next = FoldState::<T, Fut>::Future(fut_of(get(acc), x));
                    lemma_try_fold_async_calls_from(next, tail, delay(acc, x), get, rest, fut_of, resolve, delay, g);
                    assert(calls == seq![(get(acc), x)] + try_fold_async_calls(next, Step::PollHeld, tail, delay(acc, x), get, rest, fut_of, resolve, delay));
                    assert(g(acc, x) == resolve(fut_of(get(acc), x)));
                },
            }
        },
    }
}

/// `TryFoldAsync` hands its function, for each item in turn up to and
/// including the first whose future breaks, the value the getter gives of
/// the accumulator so far and that item, once each, in order, and never an
/// item after that one, however many times the iterator and the futures
/// answer `Pending`.
pub proof fn lemma_try_fold_async_calls<B, T, X, Fut>(
    init: T,
    a: Seq<Poll<Option<X>>>,
    get: spec_fn(T) -> T,
    rest: spec_fn(T) -> T,
    fut_of: spec_fn(T, X) -> Fut,
    resolve: spec_fn(Fut) -> ControlFlow<B, T>,
    delay: spec_fn(T, X) -> nat,
    g: spec_fn(T, X) -> ControlFlow<B, T>,
)
    requires
        script_ends(a),
        forall|acc: T, x: X| #[trigger] g(acc, x) == resolve(fut_of(get(acc), x)),
    ensures
        try_fold_async_calls(FoldState::<T, Fut>::Accumulate(init), Step::PollIter, a, 0, get, rest, fut_of, resolve, delay)
            == try_fold_value_args(script_items(a), init, g, get),
{
    lemma_try_fold_async_calls_from(FoldState::<T, Fut>::Accumulate(init), a, 0, get, rest, fut_of, resolve, delay, g);
}

/// The values of the successes of `s`, in order.
pub open spec fn successes<T, E>(s: Seq<Result<T, E>>) -> Seq<T>
    decreases s.len(),
{
    if s.len() == 0 {
        Seq::empty()
    } else {
        match s[0] {
            Ok(v) => seq![v] + successes(s.drop_first()),
            Err(_) => successes(s.drop_first()),
        }
    }
}

/// The values `AndThenAsync` hands to its function while holding `held`,
/// when `step` is the step to take now, over the script `a`, with the
/// futures as for [`crate::poll_runs::and_then_async_run`].
pub open spec fn and_then_async_calls<T, U, E, Fut>(
    held: Option<Fut>,
    step: Step<Option<Result<U, E>>>,
    a: Seq<Poll<Option<Result<T, E>>>>,
    wait: nat,
    fut_of: spec_fn(T) -> Fut,
    resolve: spec_fn(Fut) -> Result<U, E>,
    delay: spec_fn(T) -> nat,
) -> Seq<T>
    decreases a.len(), wait, held_rank(held, step),
{
    match step {
        Step::PollIter => if a.len() == 0 {
            Seq::empty()
        } else {
            let (next, step) = and_then_async_on_iter::<T, U, E, Fut>(a[0], fut_of(success(a[0])));
            let w: nat = match a[0] {
                Poll::Ready(Some(Ok(v))) => delay(v),
                _ => wait,
            };
            let made = if next is Some {
                seq![success(a[0])]
            } else {
                Seq::empty()
            };
            made + and_then_async_calls(next, step, a.drop_first(), w, fut_of, resolve, delay)
        },
        Step::PollHeld => match held {
            Some(fut) => if wait > 0 {
                let (next, step) = held_output_on_held(held, Poll::<Result<U, E>>::Pending);
                and_then_async_calls(next, step, a, (wait - 1) as nat, fut_of, resolve, delay)
            } else {
                let (next, step) = held_output_on_held(held, Poll::Ready(resolve(fut)));
                and_then_async_calls(next, step, a, 0, fut_of, resolve, delay)
            },
            None => Seq::empty(),
        },
        Step::Finish(Poll::Ready(None)) => Seq::empty(),
        Step::Finish(_) => and_then_async_calls(held, held_resume(held), a, wait, fut_of, resolve, delay),
    }
}

/// From any state, `AndThenAsync` hands its function the value of each
/// success still to come, once each, in order, and nothing for a failure.
pub proof fn lemma_and_then_async_calls_from<T, U, E, Fut>(
    held: Option<Fut>,
    a: Seq<Poll<Option<Result<T, E>>>>,
    wait: nat,
    fut_of: spec_fn(T) -> Fut,
    resolve: spec_fn(Fut) -> Result<U, E>,
    delay: spec_fn(T) -> nat,
)
    requires
        script_ends(a),
    ensures
        and_then_async_calls(held, held_resume(held), a, wait, fut_of, resolve, delay) == successes(script_items(a)),
    decreases a.len(), wait, if held is Some { 1int } else { 0int },
{
    let calls = and_then_async_calls(held, held_resume(held), a, wait, fut_of, resolve, delay);
    let none = None::<Fut>;
    match held {
        Some(fut) => {
            if wait > 0 {
                lemma_and_then_async_calls_from(held, a, (wait - 1) as nat, fut_of, resolve, delay);
                assert(calls == and_then_async_calls(held, Step::Finish(Poll::Pending), a, (wait - 1) as nat, fut_of, resolve, delay));
            } else {
                lemma_and_then_async_calls_from(none, a, 0, fut_of, resolve, delay);
                assert(calls == and_then_async_calls(none, Step::Finish(Poll::Ready(Some(resolve(fut)))), a, 0, fut_of, resolve, delay));
            }
        },
        None => {
            let rest = a.drop_first();
            match a[0] {
                Poll::Pending => {
                    lemma_script_ends_rest(a);
                    assert(script_items(a) == script_items(rest));
                    lemma_and_then_async_calls_from(held, rest, wait, fut_of, resolve, delay);
                    assert(calls =~= and_then_async_calls(held, Step::Finish(Poll::Pending), rest, wait, fut_of, resolve, delay));
                },
                Poll::Ready(None) => {
                    assert(script_items(a) =~= Seq::<Result<T, E>>::empty());
                    assert(calls =~= and_then_async_calls(held, Step::Finish(Poll::Ready(None)), rest, wait, fut_of, resolve, delay));
                },
                Poll::Ready(Some(x)) => {
                    lemma_script_ends_rest(a);
                    let items = script_items(a);
                    assert(items == seq![x] + script_items(rest));
                    assert(items[0] == x);
                    assert(items.drop_first() =~= script_items(rest));
                    match x {
                        Ok(v) => {
                            let next = Some(fut_of(v));
                            lemma_and_then_async_calls_from(next, rest, delay(v), fut_of, resolve, delay);
                            assert(calls == seq![v] + and_then_async_calls(next, Step::PollHeld, rest, delay(v), fut_of, resolve, delay));
                        },
                        Err(e) => {
                            lemma_and_then_async_calls_from(none, rest, wait, fut_of, resolve, delay);
                            assert(calls =~= and_then_async_calls(none, Step::Finish(Poll::Ready(Some(Err(e)))), rest, wait, fut_of, resolve, delay));
                        },
                    }
                },
            }
        },
    }
}

/// `AndThenAsync` calls its function exactly once on the value of each
/// success, in order, and never for a failure, however many times the
/// iterator and the futures answer `Pending`.
pub proof fn lemma_and_then_async_calls<T, U, E, Fut>(
    a: Seq<Poll<Option<Result<T, E>>>>,
    fut_of: spec_fn(T) -> Fut,
    resolve: spec_fn(Fut) -> Result<U, E>,
    delay: spec_fn(T) -> nat,
)
    requires
        script_ends(a),
    ensures
        and_then_async_calls(None, Step::PollIter, a, 0, fut_of, resolve, delay) == successes(script_items(a)),
{
    lemma_and_then_async_calls_from(None::<Fut>, a, 0, fut_of, resolve, delay);
}

} // verus!
