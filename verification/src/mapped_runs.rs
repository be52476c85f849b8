//! What the combinators that await one future per item answer to a driver
//! that polls them to the end, when the underlying iterator and the futures
//! may answer `Pending`. Scripts, delays and runs are as in
//! [`crate::poll_runs`].

use vstd::prelude::*;
use crate::poll::{Poll, Step};
use crate::poll_runs::{
    script_items, script_ends, answered, next_wait, held_rank, held_output, lemma_script_ends_rest,
};
use crate::async_iter::and_then_async::{held_resume, held_output_on_held};
use crate::async_iter::map_async::held_on_iter;
use crate::async_iter::or_else_async::or_else_async_on_iter;
use crate::async_iter::filter_map_async::filter_map_async_on_held;
use crate::runs::{mapped_items, lemma_filter_map_prepend, leading_len, lemma_leading_len_bound};
use crate::async_iter::map_while_async::held_item_on_held;
use crate::async_iter::states::PredicateState;
use crate::async_iter::filter_async::{predicate_on_iter, predicate_resume};
use crate::async_iter::take_while_async::take_while_async_on_held;
use crate::poll_runs::{predicate_rank, fold_rank, first_of, success};
use crate::async_iter::and_then_async::and_then_async_on_iter;
use crate::async_iter::map_ok_async::map_ok_async_on_held;
use crate::async_iter::map_err_async::map_err_async_on_held;
use crate::async_iter::states::{FoldState, each_on_iter, each_resume};
use crate::async_iter::all_async::all_async_on_held;
use crate::async_iter::any_async::any_async_on_held;
use crate::async_iter::for_each_async::for_each_async_on_held;
use crate::async_iter::try_for_each_async::try_for_each_async_on_held;
use crate::runs::{lemma_all_prepend, lemma_any_prepend};
use core::ops::ControlFlow;

verus! {

/// The items `MapAsync` answers while holding `held`, when `step` is the
/// step to take now, over the script `a`, where `wait` counts the `Pending`
/// answers still due from the future in flight, `f` returns `fut_of(x)` for
/// an item `x`, which answers `Pending` `delay(x)` times, and a future `fut`
/// resolves to `resolve(fut)`.
pub open spec fn map_async_run<T, U, Fut>(
    held: Option<Fut>,
    step: Step<Option<U>>,
    a: Seq<Poll<Option<T>>>,
    wait: nat,
    fut_of: spec_fn(T) -> Fut,
    resolve: spec_fn(Fut) -> U,
    delay: spec_fn(T) -> nat,
) -> Seq<U>
    decreases a.len(), wait, held_rank(held, step),
{
    match step {
        Step::PollIter => if a.len() == 0 {
            Seq::empty()
        } else {
            let (next, step) = held_on_iter::<T, U, Fut>(a[0], fut_of(answered(a[0])));
            map_async_run(next, step, a.drop_first(), next_wait(a[0], wait, delay), fut_of, resolve, delay)
        },
        Step::PollHeld => match held {
            Some(fut) => if wait > 0 {
                let (next, step) = held_output_on_held(held, Poll::<U>::Pending);
                map_async_run(next, step, a, (wait - 1) as nat, fut_of, resolve, delay)
            } else {
                let (next, step) = held_output_on_held(held, Poll::Ready(resolve(fut)));
                map_async_run(next, step, a, 0, fut_of, resolve, delay)
            },
            None => Seq::empty(),
        },
        Step::Finish(Poll::Ready(Some(y))) => seq![y] + map_async_run(
            held,
            held_resume(held),
            a,
            wait,
            fut_of,
            resolve,
            delay,
        ),
        Step::Finish(Poll::Pending) => map_async_run(held, held_resume(held), a, wait, fut_of, resolve, delay),
        Step::Finish(Poll::Ready(None)) => Seq::empty(),
    }
}

/// From any state, `MapAsync` answers the output of the future held, then
/// the output of the future made for each item of the rest of the script.
pub proof fn lemma_map_async_run_from<T, U, Fut>(
    held: Option<Fut>,
    a: Seq<Poll<Option<T>>>,
    wait: nat,
    fut_of: spec_fn(T) -> Fut,
    resolve: spec_fn(Fut) -> U,
    delay: spec_fn(T) -> nat,
)
    requires
        script_ends(a),
    ensures
        map_async_run(held, held_resume(held), a, wait, fut_of, resolve, delay) == held_output(held, resolve)
            + script_items(a).map_values(|x: T| resolve(fut_of(x))),
    decreases a.len(), wait, if held is Some { 1int } else { 0int },
{
    let m = |x: T| resolve(fut_of(x));
    let run = map_async_run(held, held_resume(held), a, wait, fut_of, resolve, delay);
    let none = None::<Fut>;
    match held {
        Some(fut) => {
            if wait > 0 {
                lemma_map_async_run_from(held, a, (wait - 1) as nat, fut_of, resolve, delay);
                assert(run == map_async_run(held, Step::Finish(Poll::Pending), a, (wait - 1) as nat, fut_of, resolve, delay));
            } else {
                lemma_map_async_run_from(none, a, 0, fut_of, resolve, delay);
                assert(run == map_async_run(none, Step::Finish(Poll::Ready(Some(resolve(fut)))), a, 0, fut_of, resolve, delay));
                assert(run == seq![resolve(fut)] + map_async_run(none, Step::PollIter, a, 0, fut_of, resolve, delay));
                assert(held_output(none, resolve) + script_items(a).map_values(m) =~= script_items(a).map_values(m));
            }
        },
        None => {
            let rest = a.drop_first();
            match a[0] {
                Poll::Pending => {
                    lemma_script_ends_rest(a);
                    assert(script_items(a) == script_items(rest));
                    lemma_map_async_run_from(held, rest, wait, fut_of, resolve, delay);
                    assert(run == map_async_run(held, Step::Finish(Poll::Pending), rest, wait, fut_of, resolve, delay));
                },
                Poll::Ready(None) => {
                    assert(script_items(a) =~= Seq::<T>::empty());
                    assert(run == map_async_run(held, Step::Finish(Poll::Ready(None)), rest, wait, fut_of, resolve, delay));
                    assert(held_output(held, resolve) + script_items(a).map_values(m) =~= Seq::<U>::empty());
                },
                Poll::Ready(Some(x)) => {
                    lemma_script_ends_rest(a);
                    assert(script_items(a) == seq![x] + script_items(rest));
                    assert(script_items(a).map_values(m) =~= seq![m(x)] + script_items(rest).map_values(m));
                    let next = Some(fut_of(x));
                    lemma_map_async_run_from(next, rest, delay(x), fut_of, resolve, delay);
                    assert(run == map_async_run(next, Step::PollHeld, rest, delay(x), fut_of, resolve, delay));
                    assert(held_output(held, resolve) + script_items(a).map_values(m) =~= held_output(next, resolve)
                        + script_items(rest).map_values(m));
                },
            }
        },
    }
}

/// `MapAsync` answers, for each item in turn, what the future made for it
/// resolves to, however many times the iterator and the futures answer
/// `Pending`.
pub proof fn lemma_map_async_run<T, U, Fut>(
    a: Seq<Poll<Option<T>>>,
    fut_of: spec_fn(T) -> Fut,
    resolve: spec_fn(Fut) -> U,
    delay: spec_fn(T) -> nat,
)
    requires
        script_ends(a),
    ensures
        map_async_run(None, Step::PollIter, a, 0, fut_of, resolve, delay) == script_items(a).map_values(
            |x: T| resolve(fut_of(x)),
        ),
{
    lemma_map_async_run_from(None::<Fut>, a, 0, fut_of, resolve, delay);
    let m = |x: T| resolve(fut_of(x));
    assert(held_output(None::<Fut>, resolve) + script_items(a).map_values(m) =~= script_items(a).map_values(m));
}

/// The error a failure answer carries.
pub open spec fn failure<T, E>(p: Poll<Option<Result<T, E>>>) -> E {
    p->Ready_0->Some_0->Err_0
}

/// The item `OrElseAsync` answers for the underlying item `x`, when the
/// future `fut_of(e)` made for a failure `Err(e)` resolves to `resolve(fut_of(e))`.
pub open spec fn or_else_item<T, E, E2, Fut>(
    x: Result<T, E>,
    fut_of: spec_fn(E) -> Fut,
    resolve: spec_fn(Fut) -> Result<T, E2>,
) -> Result<T, E2> {
    match x {
        Ok(v) => Ok(v),
        Err(e) => resolve(fut_of(e)),
    }
}

/// The items `OrElseAsync` answers while holding `held`, when `step` is the
/// step to take now, over the script `a`, where `wait` counts the `Pending`
/// answers still due from the future in flight, `f` returns `fut_of(e)` for
/// a failure `Err(e)`, which answers `Pending` `delay(e)` times, and a
/// future `fut` resolves to `resolve(fut)`.
pub open spec fn or_else_async_run<T, E, E2, Fut>(
    held: Option<Fut>,
    step: Step<Option<Result<T, E2>>>,
    a: Seq<Poll<Option<Result<T, E>>>>,
    wait: nat,
    fut_of: spec_fn(E) -> Fut,
    resolve: spec_fn(Fut) -> Result<T, E2>,
    delay: spec_fn(E) -> nat,
) -> Seq<Result<T, E2>>
    decreases a.len(), wait, held_rank(held, step),
{
    match step {
        Step::PollIter => if a.len() == 0 {
            Seq::empty()
        } else {
            let (next, step) = or_else_async_on_iter::<T, E, E2, Fut>(a[0], fut_of(failure(a[0])));
            let w: nat = match a[0] {
                Poll::Ready(Some(Err(e))) => delay(e),
                _ => wait,
            };
            or_else_async_run(next, step, a.drop_first(), w, fut_of, resolve, delay)
        },
        Step::PollHeld => match held {
            Some(fut) => if wait > 0 {
                let (next, step) = held_output_on_held(held, Poll::<Result<T, E2>>::Pending);
                or_else_async_run(next, step, a, (wait - 1) as nat, fut_of, resolve, delay)
            } else {
                let (next, step) = held_output_on_held(held, Poll::Ready(resolve(fut)));
                or_else_async_run(next, step, a, 0, fut_of, resolve, delay)
            },
            None => Seq::empty(),
        },
        Step::Finish(Poll::Ready(Some(y))) => seq![y] + or_else_async_run(
            held,
            held_resume(held),
            a,
            wait,
            fut_of,
            resolve,
            delay,
        ),
        Step::Finish(Poll::Pending) => or_else_async_run(held, held_resume(held), a, wait, fut_of, resolve, delay),
        Step::Finish(Poll::Ready(None)) => Seq::empty(),
    }
}

/// From any state, `OrElseAsync` answers the output of the future held,
/// then an item for each item of the rest of the script.
pub proof fn lemma_or_else_async_run_from<T, E, E2, Fut>(
    held: Option<Fut>,
    a: Seq<Poll<Option<Result<T, E>>>>,
    wait: nat,
    fut_of: spec_fn(E) -> Fut,
    resolve: spec_fn(Fut) -> Result<T, E2>,
    delay: spec_fn(E) -> nat,
)
    requires
        script_ends(a),
    ensures
        or_else_async_run(held, held_resume(held), a, wait, fut_of, resolve, delay) == held_output(held, resolve)
            + script_items(a).map_values(|x: Result<T, E>| or_else_item(x, fut_of, resolve)),
    decreases a.len(), wait, if held is Some { 1int } else { 0int },
{
    let m = |x: Result<T, E>| or_else_item(x, fut_of, resolve);
    let run = or_else_async_run(held, held_resume(held), a, wait, fut_of, resolve, delay);
    let none = None::<Fut>;
    match held {
        Some(fut) => {
            if wait > 0 {
                lemma_or_else_async_run_from(held, a, (wait - 1) as nat, fut_of, resolve, delay);
                assert(run == or_else_async_run(held, Step::Finish(Poll::Pending), a, (wait - 1) as nat, fut_of, resolve, delay));
            } else {
                lemma_or_else_async_run_from(none, a, 0, fut_of, resolve, delay);
                assert(run == or_else_async_run(none, Step::Finish(Poll::Ready(Some(resolve(fut)))), a, 0, fut_of, resolve, delay));
                assert(run == seq![resolve(fut)] + or_else_async_run(none, Step::PollIter, a, 0, fut_of, resolve, delay));
                assert(held_output(none, resolve) + script_items(a).map_values(m) =~= script_items(a).map_values(m));
            }
        },
        None => {
            let rest = a.drop_first();
            match a[0] {
                Poll::Pending => {
                    lemma_script_ends_rest(a);
                    assert(script_items(a) == script_items(rest));
                    lemma_or_else_async_run_from(held, rest, wait, fut_of, resolve, delay);
                    assert(run == or_else_async_run(held, Step::Finish(Poll::Pending), rest, wait, fut_of, resolve, delay));
                },
                Poll::Ready(None) => {
                    assert(script_items(a) =~= Seq::<Result<T, E>>::empty());
                    assert(run == or_else_async_run(held, Step::Finish(Poll::Ready(None)), rest, wait, fut_of, resolve, delay));
                    assert(held_output(held, resolve) + script_items(a).map_values(m) =~= Seq::<Result<T, E2>>::empty());
                },
                Poll::Ready(Some(x)) => {
                    lemma_script_ends_rest(a);
                    assert(script_items(a) == seq![x] + script_items(rest));
                    assert(script_items(a).map_values(m) =~= seq![m(x)] + script_items(rest).map_values(m));
                    match x {
                        Err(e) => {
                            let next = Some(fut_of(e));
                            lemma_or_else_async_run_from(next, rest, delay(e), fut_of, resolve, delay);
                            assert(run == or_else_async_run(next, Step::PollHeld, rest, delay(e), fut_of, resolve, delay));
                            assert(held_output(held, resolve) + script_items(a).map_values(m) =~= held_output(next, resolve)
                                + script_items(rest).map_values(m));
                        },
                        Ok(v) => {
                            lemma_or_else_async_run_from(none, rest, wait, fut_of, resolve, delay);
                            assert(run == or_else_async_run(none, Step::Finish(Poll::Ready(Some(Ok(v)))), rest, wait, fut_of, resolve, delay));
                            assert(run == seq![Ok(v)] + or_else_async_run(none, Step::PollIter, rest, wait, fut_of, resolve, delay));
                            assert(held_output(held, resolve) + script_items(a).map_values(m) =~= seq![Ok(v)]
                                + (held_output(none, resolve) + script_items(rest).map_values(m)));
                        },
                    }
                },
            }
        },
    }
}

/// `OrElseAsync` answers, for each item in turn, each success unchanged and
/// what the future made for a failure resolves to, however many times the
/// iterator and the futures answer `Pending`.
pub proof fn lemma_or_else_async_run<T, E, E2, Fut>(
    a: Seq<Poll<Option<Result<T, E>>>>,
    fut_of: spec_fn(E) -> Fut,
    resolve: spec_fn(Fut) -> Result<T, E2>,
    delay: spec_fn(E) -> nat,
)
    requires
        script_ends(a),
    ensures
        or_else_async_run(None, Step::PollIter, a, 0, fut_of, resolve, delay) == script_items(a).map_values(
            |x: Result<T, E>| or_else_item(x, fut_of, resolve),
        ),
{
    lemma_or_else_async_run_from(None::<Fut>, a, 0, fut_of, resolve, delay);
    let m = |x: Result<T, E>| or_else_item(x, fut_of, resolve);
    assert(held_output(None::<Fut>, resolve) + script_items(a).map_values(m) =~= script_items(a).map_values(m));
}

/// The value the output of the future held carries, if any.
pub open spec fn held_value<Fut, U>(held: Option<Fut>, resolve: spec_fn(Fut) -> Option<U>) -> Seq<U> {
    match held {
        Some(fut) => match resolve(fut) {
            Some(y) => seq![y],
            None => Seq::empty(),
        },
        None => Seq::empty(),
    }
}

/// The items `FilterMapAsync` answers while holding `held`, when `step` is
/// the step to take now, over the script `a`, with the futures as for
/// [`map_async_run`].
pub open spec fn filter_map_async_run<T, U, Fut>(
    held: Option<Fut>,
    step: Step<Option<U>>,
    a: Seq<Poll<Option<T>>>,
    wait: nat,
    fut_of: spec_fn(T) -> Fut,
    resolve: spec_fn(Fut) -> Option<U>,
    delay: spec_fn(T) -> nat,
) -> Seq<U>
    decreases a.len(), wait, held_rank(held, step),
{
    match step {
        Step::PollIter => if a.len() == 0 {
            Seq::empty()
        } else {
            let (next, step) = held_on_iter::<T, U, Fut>(a[0], fut_of(answered(a[0])));
            filter_map_async_run(next, step, a.drop_first(), next_wait(a[0], wait, delay), fut_of, resolve, delay)
        },
        Step::PollHeld => match held {
            Some(fut) => if wait > 0 {
                let (next, step) = filter_map_async_on_held(held, Poll::<Option<U>>::Pending);
                filter_map_async_run(next, step, a, (wait - 1) as nat, fut_of, resolve, delay)
            } else {
                let (next, step) = filter_map_async_on_held(held, Poll::Ready(resolve(fut)));
                filter_map_async_run(next, step, a, 0, fut_of, resolve, delay)
            },
            None => Seq::empty(),
        },
        Step::Finish(Poll::Ready(Some(y))) => seq![y] + filter_map_async_run(
            held,
            held_resume(held),
            a,
            wait,
            fut_of,
            resolve,
            delay,
        ),
        Step::Finish(Poll::Pending) => filter_map_async_run(
            held,
            held_resume(held),
            a,
            wait,
            fut_of,
            resolve,
            delay,
        ),
        Step::Finish(Poll::Ready(None)) => Seq::empty(),
    }
}

/// From any state, `FilterMapAsync` answers the value the future held
/// gives, if any, then the values the futures made for the rest of the
/// script give.
pub proof fn lemma_filter_map_async_run_from<T, U, Fut>(
    held: Option<Fut>,
    a: Seq<Poll<Option<T>>>,
    wait: nat,
    fut_of: spec_fn(T) -> Fut,
    resolve: spec_fn(Fut) -> Option<U>,
    delay: spec_fn(T) -> nat,
)
    requires
        script_ends(a),
    ensures
        filter_map_async_run(held, held_resume(held), a, wait, fut_of, resolve, delay) == held_value(held, resolve)
            + script_items(a).filter_map(|x: T| resolve(fut_of(x))),
    decreases a.len(), wait, if held is Some { 1int } else { 0int },
{
    let m = |x: T| resolve(fut_of(x));
    let run = filter_map_async_run(held, held_resume(held), a, wait, fut_of, resolve, delay);
    let none = None::<Fut>;
    match held {
        Some(fut) => {
            if wait > 0 {
                lemma_filter_map_async_run_from(held, a, (wait - 1) as nat, fut_of, resolve, delay);
                assert(run == filter_map_async_run(held, Step::Finish(Poll::Pending), a, (wait - 1) as nat, fut_of, resolve, delay));
            } else {
                lemma_filter_map_async_run_from(none, a, 0, fut_of, resolve, delay);
                assert(held_value(none, resolve) + script_items(a).filter_map(m) =~= script_items(a).filter_map(m));
                match resolve(fut) {
                    Some(y) => {
                        assert(run == filter_map_async_run(none, Step::Finish(Poll::Ready(Some(y))), a, 0, fut_of, resolve, delay));
                        assert(run == seq![y] + filter_map_async_run(none, Step::PollIter, a, 0, fut_of, resolve, delay));
                    },
                    None => {
                        assert(run == filter_map_async_run(none, Step::PollIter, a, 0, fut_of, resolve, delay));
                        assert(held_value(held, resolve) + script_items(a).filter_map(m) =~= script_items(a).filter_map(m));
                    },
                }
            }
        },
        None => {
            let rest = a.drop_first();
            match a[0] {
                Poll::Pending => {
                    lemma_script_ends_rest(a);
                    assert(script_items(a) == script_items(rest));
                    lemma_filter_map_async_run_from(held, rest, wait, fut_of, resolve, delay);
                    assert(run == filter_map_async_run(held, Step::Finish(Poll::Pending), rest, wait, fut_of, resolve, delay));
                },
                Poll::Ready(None) => {
                    assert(script_items(a) =~= Seq::<T>::empty());
                    assert(script_items(a).filter_map(m) =~= Seq::<U>::empty());
                    assert(run == filter_map_async_run(held, Step::Finish(Poll::Ready(None)), rest, wait, fut_of, resolve, delay));
                    assert(held_value(held, resolve) + script_items(a).filter_map(m) =~= Seq::<U>::empty());
                },
                Poll::Ready(Some(x)) => {
                    lemma_script_ends_rest(a);
                    assert(script_items(a) == seq![x] + script_items(rest));
                    lemma_filter_map_prepend(x, script_items(rest), m);
                    let next = Some(fut_of(x));
                    lemma_filter_map_async_run_from(next, rest, delay(x), fut_of, resolve, delay);
                    assert(run == filter_map_async_run(next, Step::PollHeld, rest, delay(x), fut_of, resolve, delay));
                    assert(held_value(next, resolve) == mapped_items(x, m));
                    assert(held_value(held, resolve) + script_items(a).filter_map(m) =~= held_value(next, resolve)
                        + script_items(rest).filter_map(m));
                },
            }
        },
    }
}

/// `FilterMapAsync` answers, in order, the value of every item whose future
/// resolves to `Some`, however many times the iterator and the futures
/// answer `Pending`.
pub proof fn lemma_filter_map_async_run<T, U, Fut>(
    a: Seq<Poll<Option<T>>>,
    fut_of: spec_fn(T) -> Fut,
    resolve: spec_fn(Fut) -> Option<U>,
    delay: spec_fn(T) -> nat,
)
    requires
        script_ends(a),
    ensures
        filter_map_async_run(None, Step::PollIter, a, 0, fut_of, resolve, delay) == script_items(a).filter_map(
            |x: T| resolve(fut_of(x)),
        ),
{
    lemma_filter_map_async_run_from(None::<Fut>, a, 0, fut_of, resolve, delay);
    let m = |x: T| resolve(fut_of(x));
    assert(held_value(None::<Fut>, resolve) + script_items(a).filter_map(m) =~= script_items(a).filter_map(m));
}


/// The values `f` maps the leading items of `s` to, up to the first item
/// it maps to `None`.
pub open spec fn map_while_items<T, U>(s: Seq<T>, f: spec_fn(T) -> Option<U>) -> Seq<U>
    decreases s.len(),
{
    if s.len() == 0 {
        Seq::empty()
    } else {
        match f(s[0]) {
            Some(y) => seq![y] + map_while_items(s.drop_first(), f),
            None => Seq::empty(),
        }
    }
}

/// The items `MapWhileAsync` answers while holding `held`, when `step` is
/// the step to take now, over the script `a`, with the futures as for
/// [`map_async_run`].
pub open spec fn map_while_async_run<T, U, Fut>(
    held: Option<Fut>,
    step: Step<Option<U>>,
    a: Seq<Poll<Option<T>>>,
    wait: nat,
    fut_of: spec_fn(T) -> Fut,
    resolve: spec_fn(Fut) -> Option<U>,
    delay: spec_fn(T) -> nat,
) -> Seq<U>
    decreases a.len(), wait, held_rank(held, step),
{
    match step {
        Step::PollIter => if a.len() == 0 {
            Seq::empty()
        } else {
            let (next, step) = held_on_iter::<T, U, Fut>(a[0], fut_of(answered(a[0])));
            map_while_async_run(next, step, a.drop_first(), next_wait(a[0], wait, delay), fut_of, resolve, delay)
        },
        Step::PollHeld => match held {
            Some(fut) => if wait > 0 {
                let (next, step) = held_item_on_held(held, Poll::<Option<U>>::Pending);
                map_while_async_run(next, step, a, (wait - 1) as nat, fut_of, resolve, delay)
            } else {
                let (next, step) = held_item_on_held(held, Poll::Ready(resolve(fut)));
                map_while_async_run(next, step, a, 0, fut_of, resolve, delay)
            },
            None => Seq::empty(),
        },
        Step::Finish(Poll::Ready(Some(y))) => seq![y] + map_while_async_run(
            held,
            held_resume(held),
            a,
            wait,
            fut_of,
            resolve,
            delay,
        ),
        Step::Finish(Poll::Pending) => map_while_async_run(
            held,
            held_resume(held),
            a,
            wait,
            fut_of,
            resolve,
            delay,
        ),
        Step::Finish(Poll::Ready(None)) => Seq::empty(),
    }
}

/// What `MapWhileAsync` answers from holding `held` over the items `s`
/// still to come.
pub open spec fn map_while_expected<T, U, Fut>(
    held: Option<Fut>,
    s: Seq<T>,
    resolve: spec_fn(Fut) -> Option<U>,
    f: spec_fn(T) -> Option<U>,
) -> Seq<U> {
    match held {
        Some(fut) => match resolve(fut) {
            Some(y) => seq![y] + map_while_items(s, f),
            None => Seq::empty(),
        },
        None => map_while_items(s, f),
    }
}

/// From any state, `MapWhileAsync` answers what [`map_while_expected`] says.
pub proof fn lemma_map_while_async_run_from<T, U, Fut>(
    held: Option<Fut>,
    a: Seq<Poll<Option<T>>>,
    wait: nat,
    fut_of: spec_fn(T) -> Fut,
    resolve: spec_fn(Fut) -> Option<U>,
    delay: spec_fn(T) -> nat,
)
    requires
        script_ends(a),
    ensures
        map_while_async_run(held, held_resume(held), a, wait, fut_of, resolve, delay) == map_while_expected(
            held,
            script_items(a),
            resolve,
            |x: T| resolve(fut_of(x)),
        ),
    decreases a.len(), wait, if held is Some { 1int } else { 0int },
{
    let m = |x: T| resolve(fut_of(x));
    let run = map_while_async_run(held, held_resume(held), a, wait, fut_of, resolve, delay);
    let none = None::<Fut>;
    match held {
        Some(fut) => {
            if wait > 0 {
                lemma_map_while_async_run_from(held, a, (wait - 1) as nat, fut_of, resolve, delay);
                assert(run == map_while_async_run(held, Step::Finish(Poll::Pending), a, (wait - 1) as nat, fut_of, resolve, delay));
            } else {
                match resolve(fut) {
                    Some(y) => {
                        lemma_map_while_async_run_from(none, a, 0, fut_of, resolve, delay);
                        assert(run == map_while_async_run(none, Step::Finish(Poll::Ready(Some(y))), a, 0, fut_of, resolve, delay));
                        assert(run == seq![y] + map_while_async_run(none, Step::PollIter, a, 0, fut_of, resolve, delay));
                    },
                    None => {
                        assert(run == map_while_async_run(none, Step::Finish(Poll::Ready(None)), a, 0, fut_of, resolve, delay));
                    },
                }
            }
        },
        None => {
            let rest = a.drop_first();
            match a[0] {
                Poll::Pending => {
                    lemma_script_ends_rest(a);
                    assert(script_items(a) == script_items(rest));
                    lemma_map_while_async_run_from(held, rest, wait, fut_of, resolve, delay);
                    assert(run == map_while_async_run(held, Step::Finish(Poll::Pending), rest, wait, fut_of, resolve, delay));
                },
                Poll::Ready(None) => {
                    assert(script_items(a) =~= Seq::<T>::empty());
                    assert(run == map_while_async_run(held, Step::Finish(Poll::Ready(None)), rest, wait, fut_of, resolve, delay));
                },
                Poll::Ready(Some(x)) => {
                    lemma_script_ends_rest(a);
                    let items = script_items(a);
                    assert(items == seq![x] + script_items(rest));
                    assert(items[0] == x);
                    assert(items.drop_first() =~= script_items(rest));
                    let next = Some(fut_of(x));
                    lemma_map_while_async_run_from(next, rest, delay(x), fut_of, resolve, delay);
                    assert(run == map_while_async_run(next, Step::PollHeld, rest, delay(x), fut_of, resolve, delay));
                    assert(map_while_expected(next, script_items(rest), resolve, m) == map_while_items(items, m));
                },
            }
        },
    }
}

/// `MapWhileAsync` answers the values the futures made for the leading
/// items resolve to, up to the first that resolves to `None`, however many
/// times the iterator and the futures answer `Pending`.
pub proof fn lemma_map_while_async_run<T, U, Fut>(
    a: Seq<Poll<Option<T>>>,
    fut_of: spec_fn(T) -> Fut,
    resolve: spec_fn(Fut) -> Option<U>,
    delay: spec_fn(T) -> nat,
)
    requires
        script_ends(a),
    ensures
        map_while_async_run(None, Step::PollIter, a, 0, fut_of, resolve, delay) == map_while_items(
            script_items(a),
            |x: T| resolve(fut_of(x)),
        ),
{
    lemma_map_while_async_run_from(None::<Fut>, a, 0, fut_of, resolve, delay);
}

/// The values the futures made for the leading items of `s` resolve to, up
/// to the first that resolves to `None`, when the state starts at `scan`,
/// `f` returns `fut_of(scan, x)` for an item `x` and leaves the state at
/// `next_state(scan, x)`.
pub open spec fn scan_items<S, T, U, Fut>(
    scan: S,
    s: Seq<T>,
    fut_of: spec_fn(S, T) -> Fut,
    next_state: spec_fn(S, T) -> S,
    resolve: spec_fn(Fut) -> Option<U>,
) -> Seq<U>
    decreases s.len(),
{
    if s.len() == 0 {
        Seq::empty()
    } else {
        match resolve(fut_of(scan, s[0])) {
            Some(y) => seq![y] + scan_items(next_state(scan, s[0]), s.drop_first(), fut_of, next_state, resolve),
            None => Seq::empty(),
        }
    }
}

/// The items `ScanAsync` answers from the state `scan` while holding
/// `held`, when `step` is the step to take now, over the script `a`, where
/// the future `fut_of(scan, x)` answers `Pending` `delay(scan, x)` times.
pub open spec fn scan_async_run<S, T, U, Fut>(
    scan: S,
    held: Option<Fut>,
    step: Step<Option<U>>,
    a: Seq<Poll<Option<T>>>,
    wait: nat,
    fut_of: spec_fn(S, T) -> Fut,
    next_state: spec_fn(S, T) -> S,
    resolve: spec_fn(Fut) -> Option<U>,
    delay: spec_fn(S, T) -> nat,
) -> Seq<U>
    decreases a.len(), wait, held_rank(held, step),
{
    match step {
        Step::PollIter => if a.len() == 0 {
            Seq::empty()
        } else {
            let (next, step) = held_on_iter::<T, U, Fut>(a[0], fut_of(scan, answered(a[0])));
            let (scan2, w): (S, nat) = match a[0] {
                Poll::Ready(Some(x)) => (next_state(scan, x), delay(scan, x)),
                _ => (scan, wait),
            };
            scan_async_run(scan2, next, step, a.drop_first(), w, fut_of, next_state, resolve, delay)
        },
        Step::PollHeld => match held {
            Some(fut) => if wait > 0 {
                let (next, step) = held_item_on_held(held, Poll::<Option<U>>::Pending);
                scan_async_run(scan, next, step, a, (wait - 1) as nat, fut_of, next_state, resolve, delay)
            } else {
                let (next, step) = held_item_on_held(held, Poll::Ready(resolve(fut)));
                scan_async_run(scan, next, step, a, 0, fut_of, next_state, resolve, delay)
            },
            None => Seq::empty(),
        },
        Step::Finish(Poll::Ready(Some(y))) => seq![y] + scan_async_run(
            scan,
            held,
            held_resume(held),
            a,
            wait,
            fut_of,
            next_state,
            resolve,
            delay,
        ),
        Step::Finish(Poll::Pending) => scan_async_run(
            scan,
            held,
            held_resume(held),
            a,
            wait,
            fut_of,
            next_state,
            resolve,
            delay,
        ),
        Step::Finish(Poll::Ready(None)) => Seq::empty(),
    }
}

/// What `ScanAsync` answers from the state `scan` while holding `held`,
/// over the items `s` still to come.
pub open spec fn scan_expected<S, T, U, Fut>(
    scan: S,
    held: Option<Fut>,
    s: Seq<T>,
    fut_of: spec_fn(S, T) -> Fut,
    next_state: spec_fn(S, T) -> S,
    resolve: spec_fn(Fut) -> Option<U>,
) -> Seq<U> {
    match held {
        Some(fut) => match resolve(fut) {
            Some(y) => seq![y] + scan_items(scan, s, fut_of, next_state, resolve),
            None => Seq::empty(),
        },
        None => scan_items(scan, s, fut_of, next_state, resolve),
    }
}

/// From any state, `ScanAsync` answers what [`scan_expected`] says.
pub proof fn lemma_scan_async_run_from<S, T, U, Fut>(
    scan: S,
    held: Option<Fut>,
    a: Seq<Poll<Option<T>>>,
    wait: nat,
    fut_of: spec_fn(S, T) -> Fut,
    next_state: spec_fn(S, T) -> S,
    resolve: spec_fn(Fut) -> Option<U>,
    delay: spec_fn(S, T) -> nat,
)
    requires
        script_ends(a),
    ensures
        scan_async_run(scan, held, held_resume(held), a, wait, fut_of, next_state, resolve, delay)
            == scan_expected(scan, held, script_items(a), fut_of, next_state, resolve),
    decreases a.len(), wait, if held is Some { 1int } else { 0int },
{
    let run = scan_async_run(scan, held, held_resume(held), a, wait, fut_of, next_state, resolve, delay);
    let none = None::<Fut>;
    match held {
        Some(fut) => {
            if wait > 0 {
                lemma_scan_async_run_from(scan, held, a, (wait - 1) as nat, fut_of, next_state, resolve, delay);
                assert(run == scan_async_run(scan, held, Step::Finish(Poll::Pending), a, (wait - 1) as nat, fut_of, next_state, resolve, delay));
            } else {
                match resolve(fut) {
                    Some(y) => {
                        lemma_scan_async_run_from(scan, none, a, 0, fut_of, next_state, resolve, delay);
                        assert(run == scan_async_run(scan, none, Step::Finish(Poll::Ready(Some(y))), a, 0, fut_of, next_state, resolve, delay));
                        assert(run == seq![y] + scan_async_run(scan, none, Step::PollIter, a, 0, fut_of, next_state, resolve, delay));
                    },
                    None => {
                        assert(run == scan_async_run(scan, none, Step::Finish(Poll::Ready(None)), a, 0, fut_of, next_state, resolve, delay));
                    },
                }
            }
        },
        None => {
            let rest = a.drop_first();
            match a[0] {
                Poll::Pending => {
                    lemma_script_ends_rest(a);
                    assert(script_items(a) == script_items(rest));
                    lemma_scan_async_run_from(scan, held, rest, wait, fut_of, next_state, resolve, delay);
                    assert(run == scan_async_run(scan, held, Step::Finish(Poll::Pending), rest, wait, fut_of, next_state, resolve, delay));
                },
                Poll::Ready(None) => {
                    assert(script_items(a) =~= Seq::<T>::empty());
                    assert(run == scan_async_run(scan, held, Step::Finish(Poll::Ready(None)), rest, wait, fut_of, next_state, resolve, delay));
                },
                Poll::Ready(Some(x)) => {
                    lemma_script_ends_rest(a);
                    let items = script_items(a);
                    assert(items == seq![x] + script_items(rest));
                    assert(items[0] == x);
                    assert(items.drop_first() =~= script_items(rest));
                    let next = Some(fut_of(scan, x));
                    let scan2 = next_state(scan, x);
                    lemma_scan_async_run_from(scan2, next, rest, delay(scan, x), fut_of, next_state, resolve, delay);
                    assert(run == scan_async_run(scan2, next, Step::PollHeld, rest, delay(scan, x), fut_of, next_state, resolve, delay));
                    assert(scan_expected(scan2, next, script_items(rest), fut_of, next_state, resolve)
                        == scan_items(scan, items, fut_of, next_state, resolve));
                },
            }
        },
    }
}

/// `ScanAsync` answers, for the leading items in turn, what the future made
/// on the state threaded through them resolves to, up to the first that
/// resolves to `None`, however many times the iterator and the futures
/// answer `Pending`.
pub proof fn lemma_scan_async_run<S, T, U, Fut>(
    init: S,
    a: Seq<Poll<Option<T>>>,
    fut_of: spec_fn(S, T) -> Fut,
    next_state: spec_fn(S, T) -> S,
    resolve: spec_fn(Fut) -> Option<U>,
    delay: spec_fn(S, T) -> nat,
)
    requires
        script_ends(a),
    ensures
        scan_async_run(init, None, Step::PollIter, a, 0, fut_of, next_state, resolve, delay) == scan_items(
            init,
            script_items(a),
            fut_of,
            next_state,
            resolve,
        ),
{
    lemma_scan_async_run_from(init, None::<Fut>, a, 0, fut_of, next_state, resolve, delay);
}

/// The leading items of `s` that `keep` accepts.
pub open spec fn taken<T>(s: Seq<T>, keep: spec_fn(T) -> bool) -> Seq<T> {
    s.take(leading_len(s, keep) as int)
}

/// The items `TakeWhileAsync` answers from `state`, when `step` is the step
/// to take now, over the script `a`, with the verdicts as for
/// [`crate::poll_runs::filter_async_run`].
pub open spec fn take_while_async_run<T, Fut>(
    state: PredicateState<T, Fut>,
    step: Step<Option<T>>,
    a: Seq<Poll<Option<T>>>,
    wait: nat,
    fut_of: spec_fn(T) -> Fut,
    keep: spec_fn(T) -> bool,
    delay: spec_fn(T) -> nat,
) -> Seq<T>
    decreases a.len(), wait, predicate_rank(state, step),
{
    match step {
        Step::PollIter => if a.len() == 0 {
            Seq::empty()
        } else {
            let (next, step) = predicate_on_iter(a[0], fut_of(answered(a[0])));
            take_while_async_run(next, step, a.drop_first(), next_wait(a[0], wait, delay), fut_of, keep, delay)
        },
        Step::PollHeld => if state is Polling {
            if wait > 0 {
                let (next, step) = take_while_async_on_held(state, Poll::Pending);
                take_while_async_run(next, step, a, (wait - 1) as nat, fut_of, keep, delay)
            } else {
                let (next, step) = take_while_async_on_held(state, Poll::Ready(keep(state->item)));
                take_while_async_run(next, step, a, 0, fut_of, keep, delay)
            }
        } else {
            Seq::empty()
        },
        Step::Finish(Poll::Ready(Some(y))) => seq![y] + take_while_async_run(
            state,
            predicate_resume(state),
            a,
            wait,
            fut_of,
            keep,
            delay,
        ),
        Step::Finish(Poll::Pending) => take_while_async_run(
            state,
            predicate_resume(state),
            a,
            wait,
            fut_of,
            keep,
            delay,
        ),
        Step::Finish(Poll::Ready(None)) => Seq::empty(),
    }
}

/// What `TakeWhileAsync` answers from `state` over the items `s` still to come.
pub open spec fn take_while_expected<T, Fut>(state: PredicateState<T, Fut>, s: Seq<T>, keep: spec_fn(T) -> bool) -> Seq<T> {
    match state {
        PredicateState::Polling { item, .. } => if keep(item) {
            seq![item] + taken(s, keep)
        } else {
            Seq::empty()
        },
        PredicateState::Empty => taken(s, keep),
    }
}

/// From any state, `TakeWhileAsync` answers what [`take_while_expected`] says.
pub proof fn lemma_take_while_async_run_from<T, Fut>(
    state: PredicateState<T, Fut>,
    a: Seq<Poll<Option<T>>>,
    wait: nat,
    fut_of: spec_fn(T) -> Fut,
    keep: spec_fn(T) -> bool,
    delay: spec_fn(T) -> nat,
)
    requires
        script_ends(a),
    ensures
        take_while_async_run(state, predicate_resume(state), a, wait, fut_of, keep, delay)
            == take_while_expected(state, script_items(a), keep),
    decreases a.len(), wait, if state is Polling { 1int } else { 0int },
{
    let run = take_while_async_run(state, predicate_resume(state), a, wait, fut_of, keep, delay);
    let empty = PredicateState::<T, Fut>::Empty;
    match state {
        PredicateState::Polling { item, .. } => {
            if wait > 0 {
                lemma_take_while_async_run_from(state, a, (wait - 1) as nat, fut_of, keep, delay);
                assert(run == take_while_async_run(state, Step::Finish(Poll::Pending), a, (wait - 1) as nat, fut_of, keep, delay));
            } else if keep(item) {
                lemma_take_while_async_run_from(empty, a, 0, fut_of, keep, delay);
                assert(run == take_while_async_run(empty, Step::Finish(Poll::Ready(Some(item))), a, 0, fut_of, keep, delay));
                assert(run == seq![item] + take_while_async_run(empty, Step::PollIter, a, 0, fut_of, keep, delay));
            } else {
                assert(run == take_while_async_run(empty, Step::Finish(Poll::Ready(None)), a, 0, fut_of, keep, delay));
            }
        },
        PredicateState::Empty => {
            let rest = a.drop_first();
            match a[0] {
                Poll::Pending => {
                    lemma_script_ends_rest(a);
                    assert(script_items(a) == script_items(rest));
                    lemma_take_while_async_run_from(state, rest, wait, fut_of, keep, delay);
                    assert(run == take_while_async_run(state, Step::Finish(Poll::Pending), rest, wait, fut_of, keep, delay));
                },
                Poll::Ready(None) => {
                    assert(script_items(a) =~= Seq::<T>::empty());
                    assert(run == take_while_async_run(state, Step::Finish(Poll::Ready(None)), rest, wait, fut_of, keep, delay));
                    assert(taken(script_items(a), keep) =~= Seq::<T>::empty());
                },
                Poll::Ready(Some(x)) => {
                    lemma_script_ends_rest(a);
                    let items = script_items(a);
                    let tail = script_items(rest);
                    assert(items == seq![x] + tail);
                    assert(items[0] == x);
                    assert(items.drop_first() =~= tail);
                    let waiting = PredicateState::Polling { item: x, fut: fut_of(x) };
                    lemma_take_while_async_run_from(waiting, rest, delay(x), fut_of, keep, delay);
                    assert(run == take_while_async_run(waiting, Step::PollHeld, rest, delay(x), fut_of, keep, delay));
                    if keep(x) {
                        lemma_leading_len_bound(tail, keep);
                        assert(taken(items, keep) =~= seq![x] + taken(tail, keep));
                    } else {
                        assert(taken(items, keep) =~= Seq::<T>::empty());
                    }
                },
            }
        },
    }
}

/// `TakeWhileAsync` answers the longest prefix of items whose verdict is
/// `true`, however many times the iterator and the verdicts answer `Pending`.
pub proof fn lemma_take_while_async_run<T, Fut>(
    a: Seq<Poll<Option<T>>>,
    fut_of: spec_fn(T) -> Fut,
    keep: spec_fn(T) -> bool,
    delay: spec_fn(T) -> nat,
)
    requires
        script_ends(a),
    ensures
        take_while_async_run(PredicateState::Empty, Step::PollIter, a, 0, fut_of, keep, delay) == taken(
            script_items(a),
            keep,
        ),
{
    lemma_take_while_async_run_from(PredicateState::<T, Fut>::Empty, a, 0, fut_of, keep, delay);
}

/// The answer of `AllAsync` from `state`, when `step` is the step to take
/// now, over the script `a`, where `wait` counts the `Pending` answers
/// still due from the future in flight, the function returns `fut_of(x)`
/// for an item `x`, which answers `Pending` `delay(x)` times, and a future
/// `fut` resolves to `resolve(fut)`.
pub open spec fn all_async_run<X, Fut>(
    state: FoldState<(), Fut>,
    step: Step<bool>,
    a: Seq<Poll<Option<X>>>,
    wait: nat,
    fut_of: spec_fn(X) -> Fut,
    resolve: spec_fn(Fut) -> bool,
    delay: spec_fn(X) -> nat,
) -> Option<bool>
    decreases a.len(), wait, fold_rank(state, step),
{
    match step {
        Step::PollIter => if a.len() == 0 {
            None
        } else {
            let (next, step) = each_on_iter(state, a[0], fut_of(answered(a[0])), true);
            all_async_run(next, step, a.drop_first(), next_wait(a[0], wait, delay), fut_of, resolve, delay)
        },
        Step::PollHeld => match state {
            FoldState::Future(fut) => if wait > 0 {
                let (next, step) = all_async_on_held(state, Poll::<bool>::Pending);
                all_async_run(next, step, a, (wait - 1) as nat, fut_of, resolve, delay)
            } else {
                let (next, step) = all_async_on_held(state, Poll::Ready(resolve(fut)));
                all_async_run(next, step, a, 0, fut_of, resolve, delay)
            },
            FoldState::Accumulate(_) => None,
        },
        Step::Finish(Poll::Ready(answer)) => Some(answer),
        Step::Finish(Poll::Pending) => all_async_run(state, each_resume(state), a, wait, fut_of, resolve, delay),
    }
}

/// The verdict of the future held, if any, else `none`.
pub open spec fn held_verdict<Fut>(state: FoldState<(), Fut>, resolve: spec_fn(Fut) -> bool, none: bool) -> bool {
    match state {
        FoldState::Future(fut) => resolve(fut),
        FoldState::Accumulate(_) => none,
    }
}

/// From any state, `AllAsync` answers whether the future held and the
/// futures made for the rest of the script all resolve to `true`.
pub proof fn lemma_all_async_run_from<X, Fut>(
    state: FoldState<(), Fut>,
    a: Seq<Poll<Option<X>>>,
    wait: nat,
    fut_of: spec_fn(X) -> Fut,
    resolve: spec_fn(Fut) -> bool,
    delay: spec_fn(X) -> nat,
)
    requires
        script_ends(a),
    ensures
        all_async_run(state, each_resume(state), a, wait, fut_of, resolve, delay) == Some(
            held_verdict(state, resolve, true) && script_items(a).all(|x: X| resolve(fut_of(x))),
        ),
    decreases a.len(), wait, if state is Future { 1int } else { 0int },
{
    let p = |x: X| resolve(fut_of(x));
    let run = all_async_run(state, each_resume(state), a, wait, fut_of, resolve, delay);
    let tail = a.drop_first();
    let empty = FoldState::<(), Fut>::Accumulate(());
    match state {
        FoldState::Future(fut) => {
            if wait > 0 {
                lemma_all_async_run_from(state, a, (wait - 1) as nat, fut_of, resolve, delay);
                assert(run == all_async_run(state, Step::Finish(Poll::Pending), a, (wait - 1) as nat, fut_of, resolve, delay));
            } else if resolve(fut) {
                lemma_all_async_run_from(empty, a, 0, fut_of, resolve, delay);
                assert(run == all_async_run(empty, Step::PollIter, a, 0, fut_of, resolve, delay));
            } else {
                assert(run == all_async_run(state, Step::Finish(Poll::Ready(false)), a, 0, fut_of, resolve, delay));
            }
        },
        FoldState::Accumulate(_) => {
            match a[0] {
                Poll::Pending => {
                    lemma_script_ends_rest(a);
                    lemma_all_async_run_from(state, tail, wait, fut_of, resolve, delay);
                    assert(run == all_async_run(state, Step::Finish(Poll::Pending), tail, wait, fut_of, resolve, delay));
                    assert(script_items(a) == script_items(tail));
                },
                Poll::Ready(None) => {
                    assert(script_items(a) =~= Seq::<X>::empty());
                    assert(run == all_async_run(state, Step::Finish(Poll::Ready(true)), tail, wait, fut_of, resolve, delay));
                },
                Poll::Ready(Some(x)) => {
                    lemma_script_ends_rest(a);
                    let items = script_items(a);
                    assert(items == seq![x] + script_items(tail));
                    assert(items[0] == x);
                    assert(items.drop_first() =~= script_items(tail));
                    lemma_all_prepend(items, p);
                    let next = FoldState::<(), Fut>::Future(fut_of(x));
                    lemma_all_async_run_from(next, tail, delay(x), fut_of, resolve, delay);
                    assert(run == all_async_run(next, Step::PollHeld, tail, delay(x), fut_of, resolve, delay));
                },
            }
        },
    }
}

/// `AllAsync` answers whether the futures made for the items all resolve to
/// `true`, however many times the iterator and the futures answer `Pending`.
pub proof fn lemma_all_async_run<X, Fut>(
    a: Seq<Poll<Option<X>>>,
    fut_of: spec_fn(X) -> Fut,
    resolve: spec_fn(Fut) -> bool,
    delay: spec_fn(X) -> nat,
)
    requires
        script_ends(a),
    ensures
        all_async_run(FoldState::<(), Fut>::Accumulate(()), Step::PollIter, a, 0, fut_of, resolve, delay)
            == Some(script_items(a).all(|x: X| resolve(fut_of(x)))),
{
    lemma_all_async_run_from(FoldState::<(), Fut>::Accumulate(()), a, 0, fut_of, resolve, delay);
}

/// The answer of `AnyAsync` from `state`, when `step` is the step to take
/// now, over the script `a`, with the futures as for [`all_async_run`].
pub open spec fn any_async_run<X, Fut>(
    state: FoldState<(), Fut>,
    step: Step<bool>,
    a: Seq<Poll<Option<X>>>,
    wait: nat,
    fut_of: spec_fn(X) -> Fut,
    resolve: spec_fn(Fut) -> bool,
    delay: spec_fn(X) -> nat,
) -> Option<bool>
    decreases a.len(), wait, fold_rank(state, step),
{
    match step {
        Step::PollIter => if a.len() == 0 {
            None
        } else {
            let (next, step) = each_on_iter(state, a[0], fut_of(answered(a[0])), false);
            any_async_run(next, step, a.drop_first(), next_wait(a[0], wait, delay), fut_of, resolve, delay)
        },
        Step::PollHeld => match state {
            FoldState::Future(fut) => if wait > 0 {
                let (next, step) = any_async_on_held(state, Poll::<bool>::Pending);
                any_async_run(next, step, a, (wait - 1) as nat, fut_of, resolve, delay)
            } else {
                let (next, step) = any_async_on_held(state, Poll::Ready(resolve(fut)));
                any_async_run(next, step, a, 0, fut_of, resolve, delay)
            },
            FoldState::Accumulate(_) => None,
        },
        Step::Finish(Poll::Ready(answer)) => Some(answer),
        Step::Finish(Poll::Pending) => any_async_run(state, each_resume(state), a, wait, fut_of, resolve, delay),
    }
}

/// From any state, `AnyAsync` answers whether the future held or one of the
/// futures made for the rest of the script resolves to `true`.
pub proof fn lemma_any_async_run_from<X, Fut>(
    state: FoldState<(), Fut>,
    a: Seq<Poll<Option<X>>>,
    wait: nat,
    fut_of: spec_fn(X) -> Fut,
    resolve: spec_fn(Fut) -> bool,
    delay: spec_fn(X) -> nat,
)
    requires
        script_ends(a),
    ensures
        any_async_run(state, each_resume(state), a, wait, fut_of, resolve, delay) == Some(
            held_verdict(state, resolve, false) || script_items(a).any(|x: X| resolve(fut_of(x))),
        ),
    decreases a.len(), wait, if state is Future { 1int } else { 0int },
{
    let p = |x: X| resolve(fut_of(x));
    let run = any_async_run(state, each_resume(state), a, wait, fut_of, resolve, delay);
    let tail = a.drop_first();
    let empty = FoldState::<(), Fut>::Accumulate(());
    match state {
        FoldState::Future(fut) => {
            if wait > 0 {
                lemma_any_async_run_from(state, a, (wait - 1) as nat, fut_of, resolve, delay);
                assert(run == any_async_run(state, Step::Finish(Poll::Pending), a, (wait - 1) as nat, fut_of, resolve, delay));
            } else if !resolve(fut) {
                lemma_any_async_run_from(empty, a, 0, fut_of, resolve, delay);
                assert(run == any_async_run(empty, Step::PollIter, a, 0, fut_of, resolve, delay));
            } else {
                assert(run == any_async_run(state, Step::Finish(Poll::Ready(true)), a, 0, fut_of, resolve, delay));
            }
        },
        FoldState::Accumulate(_) => {
            match a[0] {
                Poll::Pending => {
                    lemma_script_ends_rest(a);
                    lemma_any_async_run_from(state, tail, wait, fut_of, resolve, delay);
                    assert(run == any_async_run(state, Step::Finish(Poll::Pending), tail, wait, fut_of, resolve, delay));
                    assert(script_items(a) == script_items(tail));
                },
                Poll::Ready(None) => {
                    assert(script_items(a) =~= Seq::<X>::empty());
                    assert(run == any_async_run(state, Step::Finish(Poll::Ready(false)), tail, wait, fut_of, resolve, delay));
                },
                Poll::Ready(Some(x)) => {
                    lemma_script_ends_rest(a);
                    let items = script_items(a);
                    assert(items == seq![x] + script_items(tail));
                    assert(items[0] == x);
                    assert(items.drop_first() =~= script_items(tail));
                    lemma_any_prepend(items, p);
                    let next = FoldState::<(), Fut>::Future(fut_of(x));
                    lemma_any_async_run_from(next, tail, delay(x), fut_of, resolve, delay);
                    assert(run == any_async_run(next, Step::PollHeld, tail, delay(x), fut_of, resolve, delay));
                },
            }
        },
    }
}

/// `AnyAsync` answers whether the future made for some item resolves to
/// `true`, however many times the iterator and the futures answer `Pending`.
pub proof fn lemma_any_async_run<X, Fut>(
    a: Seq<Poll<Option<X>>>,
    fut_of: spec_fn(X) -> Fut,
    resolve: spec_fn(Fut) -> bool,
    delay: spec_fn(X) -> nat,
)
    requires
        script_ends(a),
    ensures
        any_async_run(FoldState::<(), Fut>::Accumulate(()), Step::PollIter, a, 0, fut_of, resolve, delay)
            == Some(script_items(a).any(|x: X| resolve(fut_of(x)))),
{
    lemma_any_async_run_from(FoldState::<(), Fut>::Accumulate(()), a, 0, fut_of, resolve, delay);
}

/// The answer of `ForEachAsync` from `state`, when `step` is the step to
/// take now, over the script `a`, with the futures as for [`all_async_run`].
pub open spec fn for_each_async_run<X, Fut>(
    state: FoldState<(), Fut>,
    step: Step<()>,
    a: Seq<Poll<Option<X>>>,
    wait: nat,
    fut_of: spec_fn(X) -> Fut,
    resolve: spec_fn(Fut) -> (),
    delay: spec_fn(X) -> nat,
) -> Option<()>
    decreases a.len(), wait, fold_rank(state, step),
{
    match step {
        Step::PollIter => if a.len() == 0 {
            None
        } else {
            let (next, step) = each_on_iter(state, a[0], fut_of(answered(a[0])), ());
            for_each_async_run(next, step, a.drop_first(), next_wait(a[0], wait, delay), fut_of, resolve, delay)
        },
        Step::PollHeld => match state {
            FoldState::Future(fut) => if wait > 0 {
                let (next, step) = for_each_async_on_held(state, Poll::<()>::Pending);
                for_each_async_run(next, step, a, (wait - 1) as nat, fut_of, resolve, delay)
            } else {
                let (next, step) = for_each_async_on_held(state, Poll::Ready(resolve(fut)));
                for_each_async_run(next, step, a, 0, fut_of, resolve, delay)
            },
            FoldState::Accumulate(_) => None,
        },
        Step::Finish(Poll::Ready(answer)) => Some(answer),
        Step::Finish(Poll::Pending) => for_each_async_run(state, each_resume(state), a, wait, fut_of, resolve, delay),
    }
}

/// From any state, `ForEachAsync` answers `()` once the script has ended.
pub proof fn lemma_for_each_async_run_from<X, Fut>(
    state: FoldState<(), Fut>,
    a: Seq<Poll<Option<X>>>,
    wait: nat,
    fut_of: spec_fn(X) -> Fut,
    resolve: spec_fn(Fut) -> (),
    delay: spec_fn(X) -> nat,
)
    requires
        script_ends(a),
    ensures
        for_each_async_run(state, each_resume(state), a, wait, fut_of, resolve, delay) == Some(()),
    decreases a.len(), wait, if state is Future { 1int } else { 0int },
{
    let run = for_each_async_run(state, each_resume(state), a, wait, fut_of, resolve, delay);
    let tail = a.drop_first();
    let empty = FoldState::<(), Fut>::Accumulate(());
    match state {
        FoldState::Future(_) => {
            if wait > 0 {
                lemma_for_each_async_run_from(state, a, (wait - 1) as nat, fut_of, resolve, delay);
                assert(run == for_each_async_run(state, Step::Finish(Poll::Pending), a, (wait - 1) as nat, fut_of, resolve, delay));
            } else {
                lemma_for_each_async_run_from(empty, a, 0, fut_of, resolve, delay);
                assert(run == for_each_async_run(empty, Step::PollIter, a, 0, fut_of, resolve, delay));
            }
        },
        FoldState::Accumulate(_) => {
            match a[0] {
                Poll::Pending => {
                    lemma_script_ends_rest(a);
                    lemma_for_each_async_run_from(state, tail, wait, fut_of, resolve, delay);
                    assert(run == for_each_async_run(state, Step::Finish(Poll::Pending), tail, wait, fut_of, resolve, delay));
                },
                Poll::Ready(None) => {
                    assert(run == for_each_async_run(state, Step::Finish(Poll::Ready(())), tail, wait, fut_of, resolve, delay));
                },
                Poll::Ready(Some(x)) => {
                    lemma_script_ends_rest(a);
                    let next = FoldState::<(), Fut>::Future(fut_of(x));
                    lemma_for_each_async_run_from(next, tail, delay(x), fut_of, resolve, delay);
                    assert(run == for_each_async_run(next, Step::PollHeld, tail, delay(x), fut_of, resolve, delay));
                },
            }
        },
    }
}

/// `ForEachAsync` answers `()` once the iterator has ended and every
/// future made for an item has resolved, however many times the iterator
/// and the futures answer `Pending`.
pub proof fn lemma_for_each_async_run<X, Fut>(
    a: Seq<Poll<Option<X>>>,
    fut_of: spec_fn(X) -> Fut,
    resolve: spec_fn(Fut) -> (),
    delay: spec_fn(X) -> nat,
)
    requires
        script_ends(a),
    ensures
        for_each_async_run(FoldState::<(), Fut>::Accumulate(()), Step::PollIter, a, 0, fut_of, resolve, delay)
            == Some(()),
{
    lemma_for_each_async_run_from(FoldState::<(), Fut>::Accumulate(()), a, 0, fut_of, resolve, delay);
}

/// The answer of `TryForEachAsync` from `state`, when `step` is the step
/// to take now, over the script `a`, with the futures as for
/// [`all_async_run`].
pub open spec fn try_for_each_async_run<X, Fut, B>(
    state: FoldState<(), Fut>,
    step: Step<ControlFlow<B, ()>>,
    a: Seq<Poll<Option<X>>>,
    wait: nat,
    fut_of: spec_fn(X) -> Fut,
    resolve: spec_fn(Fut) -> ControlFlow<B, ()>,
    delay: spec_fn(X) -> nat,
) -> Option<ControlFlow<B, ()>>
    decreases a.len(), wait, fold_rank(state, step),
{
    match step {
        Step::PollIter => if a.len() == 0 {
            None
        } else {
            let (next, step) = each_on_iter(state, a[0], fut_of(answered(a[0])), ControlFlow::<B, ()>::Continue(()));
            try_for_each_async_run(next, step, a.drop_first(), next_wait(a[0], wait, delay), fut_of, resolve, delay)
        },
        Step::PollHeld => match state {
            FoldState::Future(fut) => if wait > 0 {
                let (next, step) = try_for_each_async_on_held(state, Poll::<ControlFlow<B, ()>>::Pending);
                try_for_each_async_run(next, step, a, (wait - 1) as nat, fut_of, resolve, delay)
            } else {
                let (next, step) = try_for_each_async_on_held(state, Poll::Ready(resolve(fut)));
                try_for_each_async_run(next, step, a, 0, fut_of, resolve, delay)
            },
            FoldState::Accumulate(_) => None,
        },
        Step::Finish(Poll::Ready(answer)) => Some(answer),
        Step::Finish(Poll::Pending) => try_for_each_async_run(state, each_resume(state), a, wait, fut_of, resolve, delay),
    }
}

/// The first `Break` `g` gives on the items of `s` in turn, else `Continue(())`.
pub open spec fn first_break<B, X>(s: Seq<X>, g: spec_fn(X) -> ControlFlow<B, ()>) -> ControlFlow<B, ()>
    decreases s.len(),
{
    if s.len() == 0 {
        ControlFlow::Continue(())
    } else {
        match g(s[0]) {
            ControlFlow::Break(b) => ControlFlow::Break(b),
            ControlFlow::Continue(_) => first_break(s.drop_first(), g),
        }
    }
}

/// What `TryForEachAsync` answers from `state` over the items `s` still to come.
pub open spec fn try_for_each_expected<B, X, Fut>(
    state: FoldState<(), Fut>,
    s: Seq<X>,
    resolve: spec_fn(Fut) -> ControlFlow<B, ()>,
    g: spec_fn(X) -> ControlFlow<B, ()>,
) -> ControlFlow<B, ()> {
    match state {
        FoldState::Future(fut) => match resolve(fut) {
            ControlFlow::Break(b) => ControlFlow::Break(b),
            ControlFlow::Continue(_) => first_break(s, g),
        },
        FoldState::Accumulate(_) => first_break(s, g),
    }
}

/// From any state, `TryForEachAsync` answers what [`try_for_each_expected`] says.
pub proof fn lemma_try_for_each_async_run_from<X, Fut, B>(
    state: FoldState<(), Fut>,
    a: Seq<Poll<Option<X>>>,
    wait: nat,
    fut_of: spec_fn(X) -> Fut,
    resolve: spec_fn(Fut) -> ControlFlow<B, ()>,
    delay: spec_fn(X) -> nat,
)
    requires
        script_ends(a),
    ensures
        try_for_each_async_run(state, each_resume(state), a, wait, fut_of, resolve, delay) == Some(
            try_for_each_expected(state, script_items(a), resolve, |x: X| resolve(fut_of(x))),
        ),
    decreases a.len(), wait, if state is Future { 1int } else { 0int },
{
    let g = |x: X| resolve(fut_of(x));
    let run = try_for_each_async_run(state, each_resume(state), a, wait, fut_of, resolve, delay);
    let tail = a.drop_first();
    let empty = FoldState::<(), Fut>::Accumulate(());
    match state {
        FoldState::Future(fut) => {
            if wait > 0 {
                lemma_try_for_each_async_run_from(state, a, (wait - 1) as nat, fut_of, resolve, delay);
                assert(run == try_for_each_async_run(state, Step::Finish(Poll::Pending), a, (wait - 1) as nat, fut_of, resolve, delay));
            } else {
                match resolve(fut) {
                    ControlFlow::Continue(_) => {
                        lemma_try_for_each_async_run_from(empty, a, 0, fut_of, resolve, delay);
                        assert(run == try_for_each_async_run(empty, Step::PollIter, a, 0, fut_of, resolve, delay));
                    },
                    ControlFlow::Break(b) => {
                        assert(run == try_for_each_async_run(state, Step::Finish(Poll::Ready(ControlFlow::Break(b))), a, 0, fut_of, resolve, delay));
                    },
                }
            }
        },
        FoldState::Accumulate(_) => {
            match a[0] {
                Poll::Pending => {
                    lemma_script_ends_rest(a);
                    lemma_try_for_each_async_run_from(state, tail, wait, fut_of, resolve, delay);
                    assert(run == try_for_each_async_run(state, Step::Finish(Poll::Pending), tail, wait, fut_of, resolve, delay));
                    assert(script_items(a) == script_items(tail));
                },
                Poll::Ready(None) => {
                    assert(script_items(a) =~= Seq::<X>::empty());
                    assert(run == try_for_each_async_run(state, Step::Finish(Poll::Ready(ControlFlow::Continue(()))), tail, wait, fut_of, resolve, delay));
                },
                Poll::Ready(Some(x)) => {
                    lemma_script_ends_rest(a);
                    let items = script_items(a);
                    assert(items == seq![x] + script_items(tail));
                    assert(items[0] == x);
                    assert(items.drop_first() =~= script_items(tail));
                    let next = FoldState::<(), Fut>::Future(fut_of(x));
                    lemma_try_for_each_async_run_from(next, tail, delay(x), fut_of, resolve, delay);
                    assert(run == try_for_each_async_run(next, Step::PollHeld, tail, delay(x), fut_of, resolve, delay));
                },
            }
        },
    }
}

/// `TryForEachAsync` answers the first `Break` the futures made for the
/// items resolve to, else `Continue(())`, however many times the iterator
/// and the futures answer `Pending`.
pub proof fn lemma_try_for_each_async_run<X, Fut, B>(
    a: Seq<Poll<Option<X>>>,
    fut_of: spec_fn(X) -> Fut,
    resolve: spec_fn(Fut) -> ControlFlow<B, ()>,
    delay: spec_fn(X) -> nat,
)
    requires
        script_ends(a),
    ensures
        try_for_each_async_run(FoldState::<(), Fut>::Accumulate(()), Step::PollIter, a, 0, fut_of, resolve, delay)
            == Some(first_break(script_items(a), |x: X| resolve(fut_of(x)))),
{
    lemma_try_for_each_async_run_from(FoldState::<(), Fut>::Accumulate(()), a, 0, fut_of, resolve, delay);
}

/// The answer of `FindMapAsync` while holding `held`, when `step` is the
/// step to take now, over the script `a`, with the futures as for
/// [`map_async_run`].
pub open spec fn find_map_async_run<T, U, Fut>(
    held: Option<Fut>,
    step: Step<Option<U>>,
    a: Seq<Poll<Option<T>>>,
    wait: nat,
    fut_of: spec_fn(T) -> Fut,
    resolve: spec_fn(Fut) -> Option<U>,
    delay: spec_fn(T) -> nat,
) -> Option<U>
    decreases a.len(), wait, held_rank(held, step),
{
    match step {
        Step::PollIter => if a.len() == 0 {
            None
        } else {
            let (next, step) = held_on_iter::<T, U, Fut>(a[0], fut_of(answered(a[0])));
            find_map_async_run(next, step, a.drop_first(), next_wait(a[0], wait, delay), fut_of, resolve, delay)
        },
        Step::PollHeld => match held {
            Some(fut) => if wait > 0 {
                let (next, step) = filter_map_async_on_held(held, Poll::<Option<U>>::Pending);
                find_map_async_run(next, step, a, (wait - 1) as nat, fut_of, resolve, delay)
            } else {
                let (next, step) = filter_map_async_on_held(held, Poll::Ready(resolve(fut)));
                find_map_async_run(next, step, a, 0, fut_of, resolve, delay)
            },
            None => None,
        },
        Step::Finish(Poll::Ready(answer)) => answer,
        Step::Finish(Poll::Pending) => find_map_async_run(held, held_resume(held), a, wait, fut_of, resolve, delay),
    }
}

/// From any state, `FindMapAsync` answers the first value among the one
/// the future held gives and those the futures made for the rest of the
/// script give.
pub proof fn lemma_find_map_async_run_from<T, U, Fut>(
    held: Option<Fut>,
    a: Seq<Poll<Option<T>>>,
    wait: nat,
    fut_of: spec_fn(T) -> Fut,
    resolve: spec_fn(Fut) -> Option<U>,
    delay: spec_fn(T) -> nat,
)
    requires
        script_ends(a),
    ensures
        find_map_async_run(held, held_resume(held), a, wait, fut_of, resolve, delay) == first_of(
            held_value(held, resolve) + script_items(a).filter_map(|x: T| resolve(fut_of(x))),
        ),
    decreases a.len(), wait, if held is Some { 1int } else { 0int },
{
    let m = |x: T| resolve(fut_of(x));
    let run = find_map_async_run(held, held_resume(held), a, wait, fut_of, resolve, delay);
    let none = None::<Fut>;
    match held {
        Some(fut) => {
            if wait > 0 {
                lemma_find_map_async_run_from(held, a, (wait - 1) as nat, fut_of, resolve, delay);
                assert(run == find_map_async_run(held, Step::Finish(Poll::Pending), a, (wait - 1) as nat, fut_of, resolve, delay));
            } else {
                match resolve(fut) {
                    Some(y) => {
                        assert(run == find_map_async_run(none, Step::Finish(Poll::Ready(Some(y))), a, 0, fut_of, resolve, delay));
                        assert((held_value(held, resolve) + script_items(a).filter_map(m))[0] == y);
                    },
                    None => {
                        lemma_find_map_async_run_from(none, a, 0, fut_of, resolve, delay);
                        assert(run == find_map_async_run(none, Step::PollIter, a, 0, fut_of, resolve, delay));
                        assert(held_value(held, resolve) + script_items(a).filter_map(m) =~= held_value(none, resolve)
                            + script_items(a).filter_map(m));
                    },
                }
            }
        },
        None => {
            let rest = a.drop_first();
            match a[0] {
                Poll::Pending => {
                    lemma_script_ends_rest(a);
                    assert(script_items(a) == script_items(rest));
                    lemma_find_map_async_run_from(held, rest, wait, fut_of, resolve, delay);
                    assert(run == find_map_async_run(held, Step::Finish(Poll::Pending), rest, wait, fut_of, resolve, delay));
                },
                Poll::Ready(None) => {
                    assert(script_items(a) =~= Seq::<T>::empty());
                    assert(script_items(a).filter_map(m) =~= Seq::<U>::empty());
                    assert(held_value(held, resolve) + script_items(a).filter_map(m) =~= Seq::<U>::empty());
                    assert(run == find_map_async_run(held, Step::Finish(Poll::Ready(None)), rest, wait, fut_of, resolve, delay));
                },
                Poll::Ready(Some(x)) => {
                    lemma_script_ends_rest(a);
                    assert(script_items(a) == seq![x] + script_items(rest));
                    lemma_filter_map_prepend(x, script_items(rest), m);
                    let next = Some(fut_of(x));
                    lemma_find_map_async_run_from(next, rest, delay(x), fut_of, resolve, delay);
                    assert(run == find_map_async_run(next, Step::PollHeld, rest, delay(x), fut_of, resolve, delay));
                    assert(held_value(next, resolve) == mapped_items(x, m));
                    assert(held_value(held, resolve) + script_items(a).filter_map(m) =~= held_value(next, resolve)
                        + script_items(rest).filter_map(m));
                },
            }
        },
    }
}

/// `FindMapAsync` answers the first value a future made for an item
/// resolves to, or `None` when there is none, however many times the
/// iterator and the futures answer `Pending`.
pub proof fn lemma_find_map_async_run<T, U, Fut>(
    a: Seq<Poll<Option<T>>>,
    fut_of: spec_fn(T) -> Fut,
    resolve: spec_fn(Fut) -> Option<U>,
    delay: spec_fn(T) -> nat,
)
    requires
        script_ends(a),
    ensures
        find_map_async_run(None, Step::PollIter, a, 0, fut_of, resolve, delay) == first_of(
            script_items(a).filter_map(|x: T| resolve(fut_of(x))),
        ),
{
    lemma_find_map_async_run_from(None::<Fut>, a, 0, fut_of, resolve, delay);
    let m = |x: T| resolve(fut_of(x));
    assert(held_value(None::<Fut>, resolve) + script_items(a).filter_map(m) =~= script_items(a).filter_map(m));
}

/// The item `MapOkAsync` answers for the underlying item `x`.
pub open spec fn map_ok_item<T, U, E, Fut>(x: Result<T, E>, fut_of: spec_fn(T) -> Fut, resolve: spec_fn(Fut) -> U) -> Result<U, E> {
    match x {
        Ok(v) => Ok(resolve(fut_of(v))),
        Err(e) => Err(e),
    }
}

/// The success the future held gives, if any.
pub open spec fn held_success<Fut, U, E>(held: Option<Fut>, resolve: spec_fn(Fut) -> U) -> Seq<Result<U, E>> {
    match held {
        Some(fut) => seq![Ok(resolve(fut))],
        None => Seq::empty(),
    }
}

/// The items `MapOkAsync` answers while holding `held`, when `step` is the
/// step to take now, over the script `a`, with a future made for each
/// success as for [`map_async_run`].
pub open spec fn map_ok_async_run<T, U, E, Fut>(
    held: Option<Fut>,
    step: Step<Option<Result<U, E>>>,
    a: Seq<Poll<Option<Result<T, E>>>>,
    wait: nat,
    fut_of: spec_fn(T) -> Fut,
    resolve: spec_fn(Fut) -> U,
    delay: spec_fn(T) -> nat,
) -> Seq<Result<U, E>>
    decreases a.len(), wait, held_rank(held, step),
{
    match step {
        Step::PollIter => if a.len() == 0 {
            Seq::empty()
        } else {
            let (next, step) = and_then_async_on_iter::<T, U, E, Fut>(a[0], fut_of(success(a[0])));
            let w: nat = match a[0] {
                Poll::Ready(Some(Ok(v))) => delay(v),
                _ => wait,
            };
            map_ok_async_run(next, step, a.drop_first(), w, fut_of, resolve, delay)
        },
        Step::PollHeld => match held {
            Some(fut) => if wait > 0 {
                let (next, step) = map_ok_async_on_held::<U, E, Fut>(held, Poll::<U>::Pending);
                map_ok_async_run(next, step, a, (wait - 1) as nat, fut_of, resolve, delay)
            } else {
                let (next, step) = map_ok_async_on_held::<U, E, Fut>(held, Poll::Ready(resolve(fut)));
                map_ok_async_run(next, step, a, 0, fut_of, resolve, delay)
            },
            None => Seq::empty(),
        },
        Step::Finish(Poll::Ready(Some(y))) => seq![y] + map_ok_async_run(
            held,
            held_resume(held),
            a,
            wait,
            fut_of,
            resolve,
            delay,
        ),
        Step::Finish(Poll::Pending) => map_ok_async_run(held, held_resume(held), a, wait, fut_of, resolve, delay),
        Step::Finish(Poll::Ready(None)) => Seq::empty(),
    }
}

/// From any state, `MapOkAsync` answers what the future held gives, then an
/// item for each item of the rest of the script.
pub proof fn lemma_map_ok_async_run_from<T, U, E, Fut>(
    held: Option<Fut>,
    a: Seq<Poll<Option<Result<T, E>>>>,
    wait: nat,
    fut_of: spec_fn(T) -> Fut,
    resolve: spec_fn(Fut) -> U,
    delay: spec_fn(T) -> nat,
)
    requires
        script_ends(a),
    ensures
        map_ok_async_run(held, held_resume(held), a, wait, fut_of, resolve, delay) == held_success::<Fut, U, E>(held, resolve)
            + script_items(a).map_values(|x: Result<T, E>| map_ok_item(x, fut_of, resolve)),
    decreases a.len(), wait, if held is Some { 1int } else { 0int },
{
    let m = |x: Result<T, E>| map_ok_item(x, fut_of, resolve);
    let run = map_ok_async_run(held, held_resume(held), a, wait, fut_of, resolve, delay);
    let none = None::<Fut>;
    match held {
        Some(fut) => {
            if wait > 0 {
                lemma_map_ok_async_run_from(held, a, (wait - 1) as nat, fut_of, resolve, delay);
                assert(run == map_ok_async_run(held, Step::Finish(Poll::Pending), a, (wait - 1) as nat, fut_of, resolve, delay));
            } else {
                lemma_map_ok_async_run_from(none, a, 0, fut_of, resolve, delay);
                assert(run == map_ok_async_run(none, Step::Finish(Poll::Ready(Some(Ok(resolve(fut))))), a, 0, fut_of, resolve, delay));
                assert(run == seq![Ok(resolve(fut))] + map_ok_async_run(none, Step::PollIter, a, 0, fut_of, resolve, delay));
                assert(held_success::<Fut, U, E>(None::<Fut>, resolve) + script_items(a).map_values(m) =~= script_items(a).map_values(m));
            }
        },
        None => {
            let rest = a.drop_first();
            match a[0] {
                Poll::Pending => {
                    lemma_script_ends_rest(a);
                    assert(script_items(a) == script_items(rest));
                    lemma_map_ok_async_run_from(held, rest, wait, fut_of, resolve, delay);
                    assert(run == map_ok_async_run(held, Step::Finish(Poll::Pending), rest, wait, fut_of, resolve, delay));
                },
                Poll::Ready(None) => {
                    assert(script_items(a) =~= Seq::<Result<T, E>>::empty());
                    assert(run == map_ok_async_run(held, Step::Finish(Poll::Ready(None)), rest, wait, fut_of, resolve, delay));
                    assert(held_success::<Fut, U, E>(held, resolve) + script_items(a).map_values(m) =~= Seq::<Result<U, E>>::empty());
                },
                Poll::Ready(Some(x)) => {
                    lemma_script_ends_rest(a);
                    assert(script_items(a) == seq![x] + script_items(rest));
                    assert(script_items(a).map_values(m) =~= seq![m(x)] + script_items(rest).map_values(m));
                    match x {
                        Ok(v) => {
                            let next = Some(fut_of(v));
                            lemma_map_ok_async_run_from(next, rest, delay(v), fut_of, resolve, delay);
                            assert(run == map_ok_async_run(next, Step::PollHeld, rest, delay(v), fut_of, resolve, delay));
                            assert(held_success::<Fut, U, E>(held, resolve) + script_items(a).map_values(m) =~= held_success::<Fut, U, E>(next, resolve) + script_items(rest).map_values(m));
                        },
                        Err(e) => {
                            lemma_map_ok_async_run_from(none, rest, wait, fut_of, resolve, delay);
                            assert(run == map_ok_async_run(none, Step::Finish(Poll::Ready(Some(Err(e)))), rest, wait, fut_of, resolve, delay));
                            assert(run == seq![Err(e)] + map_ok_async_run(none, Step::PollIter, rest, wait, fut_of, resolve, delay));
                            assert(held_success::<Fut, U, E>(held, resolve) + script_items(a).map_values(m) =~= seq![Err(e)] + (held_success::<Fut, U, E>(None::<Fut>, resolve) + script_items(rest).map_values(m)));
                        },
                    }
                },
            }
        },
    }
}

/// `MapOkAsync` answers, for each item in turn, `Ok` with what the future
/// made for a success resolves to, and each failure unchanged, however many
/// times the iterator and the futures answer `Pending`.
pub proof fn lemma_map_ok_async_run<T, U, E, Fut>(
    a: Seq<Poll<Option<Result<T, E>>>>,
    fut_of: spec_fn(T) -> Fut,
    resolve: spec_fn(Fut) -> U,
    delay: spec_fn(T) -> nat,
)
    requires
        script_ends(a),
    ensures
        map_ok_async_run(None, Step::PollIter, a, 0, fut_of, resolve, delay) == script_items(a).map_values(
            |x: Result<T, E>| map_ok_item(x, fut_of, resolve),
        ),
{
    lemma_map_ok_async_run_from(None::<Fut>, a, 0, fut_of, resolve, delay);
    let m = |x: Result<T, E>| map_ok_item(x, fut_of, resolve);
    assert(held_success::<Fut, U, E>(None::<Fut>, resolve) + script_items(a).map_values(m) =~= script_items(a).map_values(m));
}

/// The item `MapErrAsync` answers for the underlying item `x`.
pub open spec fn map_err_item<T, E, E2, Fut>(x: Result<T, E>, fut_of: spec_fn(E) -> Fut, resolve: spec_fn(Fut) -> E2) -> Result<T, E2> {
    match x {
        Ok(v) => Ok(v),
        Err(e) => Err(resolve(fut_of(e))),
    }
}

/// The failure the future held gives, if any.
pub open spec fn held_failure<Fut, T, E2>(held: Option<Fut>, resolve: spec_fn(Fut) -> E2) -> Seq<Result<T, E2>> {
    match held {
        Some(fut) => seq![Err(resolve(fut))],
        None => Seq::empty(),
    }
}

/// The items `MapErrAsync` answers while holding `held`, when `step` is the
/// step to take now, over the script `a`, with a future made for each
/// failure as for [`or_else_async_run`].
pub open spec fn map_err_async_run<T, E, E2, Fut>(
    held: Option<Fut>,
    step: Step<Option<Result<T, E2>>>,
    a: Seq<Poll<Option<Result<T, E>>>>,
    wait: nat,
    fut_of: spec_fn(E) -> Fut,
    resolve: spec_fn(Fut) -> E2,
    delay: spec_fn(E) -> nat,
) -> Seq<Result<T, E2>>
    decreases a.len(), wait, held_rank(held, step),
{
    match step {
        Step::PollIter => if a.len() == 0 {
            Seq::empty()
        } else {
            let (next, step) = or_else_async_on_iter::<T, E, E2, Fut>(a[0], fut_of(failure(a[0])));
            let w: nat = match a[0] {
                Poll::Ready(Some(Err(e))) => delay(e),
                _ => wait,
            };
            map_err_async_run(next, step, a.drop_first(), w, fut_of, resolve, delay)
        },
        Step::PollHeld => match held {
            Some(fut) => if wait > 0 {
                let (next, step) = map_err_async_on_held::<T, E2, Fut>(held, Poll::<E2>::Pending);
                map_err_async_run(next, step, a, (wait - 1) as nat, fut_of, resolve, delay)
            } else {
                let (next, step) = map_err_async_on_held::<T, E2, Fut>(held, Poll::Ready(resolve(fut)));
                map_err_async_run(next, step, a, 0, fut_of, resolve, delay)
            },
            None => Seq::empty(),
        },
        Step::Finish(Poll::Ready(Some(y))) => seq![y] + map_err_async_run(
            held,
            held_resume(held),
            a,
            wait,
            fut_of,
            resolve,
            delay,
        ),
        Step::Finish(Poll::Pending) => map_err_async_run(held, held_resume(held), a, wait, fut_of, resolve, delay),
        Step::Finish(Poll::Ready(None)) => Seq::empty(),
    }
}

/// From any state, `MapErrAsync` answers what the future held gives, then an
/// item for each item of the rest of the script.
pub proof fn lemma_map_err_async_run_from<T, E, E2, Fut>(
    held: Option<Fut>,
    a: Seq<Poll<Option<Result<T, E>>>>,
    wait: nat,
    fut_of: spec_fn(E) -> Fut,
    resolve: spec_fn(Fut) -> E2,
    delay: spec_fn(E) -> nat,
)
    requires
        script_ends(a),
    ensures
        map_err_async_run(held, held_resume(held), a, wait, fut_of, resolve, delay) == held_failure::<Fut, T, E2>(held, resolve)
            + script_items(a).map_values(|x: Result<T, E>| map_err_item(x, fut_of, resolve)),
    decreases a.len(), wait, if held is Some { 1int } else { 0int },
{
    let m = |x: Result<T, E>| map_err_item(x, fut_of, resolve);
    let run = map_err_async_run(held, held_resume(held), a, wait, fut_of, resolve, delay);
    let none = None::<Fut>;
    match held {
        Some(fut) => {
            if wait > 0 {
                lemma_map_err_async_run_from(held, a, (wait - 1) as nat, fut_of, resolve, delay);
                assert(run == map_err_async_run(held, Step::Finish(Poll::Pending), a, (wait - 1) as nat, fut_of, resolve, delay));
            } else {
                lemma_map_err_async_run_from(none, a, 0, fut_of, resolve, delay);
                assert(run == map_err_async_run(none, Step::Finish(Poll::Ready(Some(Err(resolve(fut))))), a, 0, fut_of, resolve, delay));
                assert(run == seq![Err(resolve(fut))] + map_err_async_run(none, Step::PollIter, a, 0, fut_of, resolve, delay));
                assert(held_failure::<Fut, T, E2>(None::<Fut>, resolve) + script_items(a).map_values(m) =~= script_items(a).map_values(m));
            }
        },
        None => {
            let rest = a.drop_first();
            match a[0] {
                Poll::Pending => {
                    lemma_script_ends_rest(a);
                    assert(script_items(a) == script_items(rest));
                    lemma_map_err_async_run_from(held, rest, wait, fut_of, resolve, delay);
                    assert(run == map_err_async_run(held, Step::Finish(Poll::Pending), rest, wait, fut_of, resolve, delay));
                },
                Poll::Ready(None) => {
                    assert(script_items(a) =~= Seq::<Result<T, E>>::empty());
                    assert(run == map_err_async_run(held, Step::Finish(Poll::Ready(None)), rest, wait, fut_of, resolve, delay));
                    assert(held_failure::<Fut, T, E2>(held, resolve) + script_items(a).map_values(m) =~= Seq::<Result<T, E2>>::empty());
                },
                Poll::Ready(Some(x)) => {
                    lemma_script_ends_rest(a);
                    assert(script_items(a) == seq![x] + script_items(rest));
                    assert(script_items(a).map_values(m) =~= seq![m(x)] + script_items(rest).map_values(m));
                    match x {
                        Err(e) => {
                            let next = Some(fut_of(e));
                            lemma_map_err_async_run_from(next, rest, delay(e), fut_of, resolve, delay);
                            assert(run == map_err_async_run(next, Step::PollHeld, rest, delay(e), fut_of, resolve, delay));
                            assert(held_failure::<Fut, T, E2>(held, resolve) + script_items(a).map_values(m) =~= held_failure::<Fut, T, E2>(next, resolve) + script_items(rest).map_values(m));
                        },
                        Ok(v) => {
                            lemma_map_err_async_run_from(none, rest, wait, fut_of, resolve, delay);
                            assert(run == map_err_async_run(none, Step::Finish(Poll::Ready(Some(Ok(v)))), rest, wait, fut_of, resolve, delay));
                            assert(run == seq![Ok(v)] + map_err_async_run(none, Step::PollIter, rest, wait, fut_of, resolve, delay));
                            assert(held_failure::<Fut, T, E2>(held, resolve) + script_items(a).map_values(m) =~= seq![Ok(v)] + (held_failure::<Fut, T, E2>(None::<Fut>, resolve) + script_items(rest).map_values(m)));
                        },
                    }
                },
            }
        },
    }
}

/// `MapErrAsync` answers, for each item in turn, each success unchanged
/// and `Err` with what the future made for a failure resolves to, however
/// many times the iterator and the futures answer `Pending`.
pub proof fn lemma_map_err_async_run<T, E, E2, Fut>(
    a: Seq<Poll<Option<Result<T, E>>>>,
    fut_of: spec_fn(E) -> Fut,
    resolve: spec_fn(Fut) -> E2,
    delay: spec_fn(E) -> nat,
)
    requires
        script_ends(a),
    ensures
        map_err_async_run(None, Step::PollIter, a, 0, fut_of, resolve, delay) == script_items(a).map_values(
            |x: Result<T, E>| map_err_item(x, fut_of, resolve),
        ),
{
    lemma_map_err_async_run_from(None::<Fut>, a, 0, fut_of, resolve, delay);
    let m = |x: Result<T, E>| map_err_item(x, fut_of, resolve);
    assert(held_failure::<Fut, T, E2>(None::<Fut>, resolve) + script_items(a).map_values(m) =~= script_items(a).map_values(m));
}

} // verus!
