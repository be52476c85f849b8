//! `ReduceAsync`: combines the items with an asynchronous function, the
//! first item being the initial accumulator.

use vstd::prelude::*;
use crate::poll::{Poll, Step};
use crate::three_states::{
    StateAPinProject, StateBPinProject, StateCPinProject, ThreeStates, ThreeStatesPinProject,
};

verus! {

broadcast use crate::three_states::group_three_states_resolved;

/// The holder of a reduction: state A before the first item, state B with
/// the accumulator, state C with the future computing the next accumulator.
pub type ReduceHolder<T, Fut> = ThreeStates<(), (), (), T, Fut, ()>;

/// The state of a reduction, with typestate handles on its three states.
#[derive(Clone)]
pub struct State<T, Fut> {
    inner: ReduceHolder<T, Fut>,
}

impl<T, Fut> State<T, Fut> {
    pub closed spec fn holder(&self) -> ReduceHolder<T, Fut> {
        self.inner
    }

    /// The state before the first item.
    pub fn empty() -> (r: Self)
        ensures
            r.holder() is A,
    {
        State { inner: ThreeStates::A { pinned: (), unpinned: () } }
    }

    /// The future in flight, if any.
    pub fn get_future(&self) -> (r: Option<&Fut>)
        ensures
            r == (match self.holder() {
                ThreeStates::C { pinned, .. } => Some(&pinned),
                _ => None,
            }),
    {
        match &self.inner {
            ThreeStates::C { pinned, .. } => Some(pinned),
            _ => None,
        }
    }

    /// A handle on the current state.
    pub fn pin_project(&mut self) -> (r: StateProject<'_, T, Fut>)
        ensures
            match r {
                StateProject::Empty(p) => old(self).holder() is A && *p.target() == old(
                    self,
                ).holder() && final(self).holder() == *final(p.target()),
                StateProject::Accumulate(p) => old(self).holder() is B && *p.target() == old(
                    self,
                ).holder() && final(self).holder() == *final(p.target()),
                StateProject::Future(p) => old(self).holder() is C && *p.target() == old(
                    self,
                ).holder() && final(self).holder() == *final(p.target()),
            },
    {
        match self.inner.pin_project() {
            ThreeStatesPinProject::A(project) => StateProject::Empty(EmptyState { inner: project }),
            ThreeStatesPinProject::B(project) => StateProject::Accumulate(
                AccumulateState { inner: project },
            ),
            ThreeStatesPinProject::C(project) => StateProject::Future(FutureState { inner: project }),
        }
    }
}

/// A reduction known to hold nothing yet.
pub struct EmptyState<'a, T, Fut> {
    inner: StateAPinProject<'a, (), (), (), T, Fut, ()>,
}

impl<'a, T, Fut> EmptyState<'a, T, Fut> {
    pub closed spec fn target(&self) -> &'a mut ReduceHolder<T, Fut> {
        self.inner.target()
    }

    /// Stores the accumulator.
    pub fn set_accumulate(self, acc: T) -> (r: AccumulateState<'a, T, Fut>)
        requires
            *self.target() is A,
        ensures
            *r.target() == (ReduceHolder::<T, Fut>::B { pinned: (), unpinned: acc }),
            *final(r.target()) == *final(self.target()),
    {
        AccumulateState { inner: self.inner.replace_state_b((), acc).0 }
    }

    /// Stores the future computing the next accumulator.
    pub fn set_future(self, fut: Fut) -> (r: FutureState<'a, T, Fut>)
        requires
            *self.target() is A,
        ensures
            *r.target() == (ReduceHolder::<T, Fut>::C { pinned: fut, unpinned: () }),
            *final(r.target()) == *final(self.target()),
    {
        FutureState { inner: self.inner.replace_state_c(fut, ()).0 }
    }
}

/// A reduction known to hold its accumulator.
pub struct AccumulateState<'a, T, Fut> {
    inner: StateBPinProject<'a, (), (), (), T, Fut, ()>,
}

impl<'a, T, Fut> AccumulateState<'a, T, Fut> {
    pub closed spec fn target(&self) -> &'a mut ReduceHolder<T, Fut> {
        self.inner.target()
    }

    /// Takes the accumulator out.
    pub fn set_empty(self) -> (r: (EmptyState<'a, T, Fut>, T))
        requires
            *self.target() is B,
        ensures
            r.1 == self.target()->B_unpinned,
            *r.0.target() == (ReduceHolder::<T, Fut>::A { pinned: (), unpinned: () }),
            *final(r.0.target()) == *final(self.target()),
    {
        let (inner, item) = self.inner.replace_state_a((), ());
        (EmptyState { inner }, item)
    }
}

/// A reduction known to be waiting for a future.
pub struct FutureState<'a, T, Fut> {
    inner: StateCPinProject<'a, (), (), (), T, Fut, ()>,
}

impl<'a, T, Fut> FutureState<'a, T, Fut> {
    pub closed spec fn target(&self) -> &'a mut ReduceHolder<T, Fut> {
        self.inner.target()
    }

    /// The future, which stays in place.
    pub fn get_pin_mut(&mut self) -> (r: &mut Fut)
        requires
            *old(self).target() is C,
        ensures
            *r == old(self).target()->C_pinned,
            *final(self).target() == (ReduceHolder::<T, Fut>::C {
                pinned: *final(r),
                unpinned: (),
            }),
            *final(final(self).target()) == *final(old(self).target()),
    {
        self.inner.get_project().pinned
    }

    /// Drops the future and stores the accumulator it produced.
    pub fn set_accumulate(self, acc: T) -> (r: AccumulateState<'a, T, Fut>)
        requires
            *self.target() is C,
        ensures
            *r.target() == (ReduceHolder::<T, Fut>::B { pinned: (), unpinned: acc }),
            *final(r.target()) == *final(self.target()),
    {
        AccumulateState { inner: self.inner.replace_state_b((), acc).0 }
    }
}

/// A handle on a reduction, by its current state.
pub enum StateProject<'a, T, Fut> {
    Empty(EmptyState<'a, T, Fut>),
    Accumulate(AccumulateState<'a, T, Fut>),
    Future(FutureState<'a, T, Fut>),
}

/// A dropped handle leaves the reduction as the handle last saw it.
pub broadcast proof fn lemma_empty_state_resolved<'a, T, Fut>(p: EmptyState<'a, T, Fut>)
    requires
        #[trigger] has_resolved(p),
    ensures
        *final(p.target()) == *p.target(),
{
}

/// A dropped handle leaves the reduction as the handle last saw it.
pub broadcast proof fn lemma_accumulate_state_resolved<'a, T, Fut>(p: AccumulateState<'a, T, Fut>)
    requires
        #[trigger] has_resolved(p),
    ensures
        *final(p.target()) == *p.target(),
{
}

/// A dropped handle leaves the reduction as the handle last saw it.
pub broadcast proof fn lemma_future_state_resolved<'a, T, Fut>(p: FutureState<'a, T, Fut>)
    requires
        #[trigger] has_resolved(p),
    ensures
        *final(p.target()) == *p.target(),
{
}

pub broadcast group group_reduce_state_resolved {
    lemma_empty_state_resolved,
    lemma_accumulate_state_resolved,
    lemma_future_state_resolved,
}

/// The holder and step after the underlying iterator answered `polled`,
/// where `fut` is the future the function returns for the accumulator and the item.
pub open spec fn reduce_on_iter<T, Fut>(
    holder: ReduceHolder<T, Fut>,
    polled: Poll<Option<T>>,
    fut: Fut,
) -> (ReduceHolder<T, Fut>, Step<Option<T>>) {
    match polled {
        Poll::Pending => (holder, Step::Finish(Poll::Pending)),
        Poll::Ready(None) => match holder {
            ThreeStates::B { unpinned: acc, .. } => (
                ThreeStates::A { pinned: (), unpinned: () },
                Step::Finish(Poll::Ready(Some(acc))),
            ),
            _ => (holder, Step::Finish(Poll::Ready(None))),
        },
        Poll::Ready(Some(x)) => match holder {
            ThreeStates::B { .. } => (ThreeStates::C { pinned: fut, unpinned: () }, Step::PollHeld),
            _ => (ThreeStates::B { pinned: (), unpinned: x }, Step::PollIter),
        },
    }
}

/// The first step of a poll of a reduction: the future in flight, else the iterator.
pub open spec fn reduce_resume<T, Fut>(holder: ReduceHolder<T, Fut>) -> Step<Option<T>> {
    if holder is C {
        Step::PollHeld
    } else {
        Step::PollIter
    }
}

/// The holder and step after the future answered `polled`.
pub open spec fn reduce_on_held<T, Fut>(holder: ReduceHolder<T, Fut>, polled: Poll<T>) -> (
    ReduceHolder<T, Fut>,
    Step<Option<T>>,
) {
    match polled {
        Poll::Pending => (holder, Step::Finish(Poll::Pending)),
        Poll::Ready(acc) => (ThreeStates::B { pinned: (), unpinned: acc }, Step::PollIter),
    }
}

/// A future of the items of `iter` combined with `f`: `None` for no items,
/// else the first item combined with each next one in turn.
#[derive(Clone)]
pub struct ReduceAsync<I, T, F, Fut> {
    iter: I,
    state: State<T, Fut>,
    f: F,
}

impl<I, T, F, Fut> ReduceAsync<I, T, F, Fut> {
    pub closed spec fn iter(&self) -> I {
        self.iter
    }

    pub closed spec fn holder(&self) -> ReduceHolder<T, Fut> {
        self.state.holder()
    }

    pub closed spec fn func(&self) -> F {
        self.f
    }

    pub fn new(iter: I, f: F) -> (r: Self)
        ensures
            r.iter() == iter,
            r.func() == f,
            r.holder() is A,
    {
        ReduceAsync { iter, state: State::empty(), f }
    }

    /// The underlying async iterator, for the driver to poll.
    pub fn iter_mut(&mut self) -> (r: &mut I)
        ensures
            *r == old(self).iter(),
            final(self).iter() == *final(r),
            final(self).holder() == old(self).holder(),
            final(self).func() == old(self).func(),
    {
        &mut self.iter
    }

    /// The underlying async iterator, for the driver to read.
    pub fn iter_ref(&self) -> (r: &I)
        ensures
            *r == self.iter(),
    {
        &self.iter
    }

    /// The first step of a poll: the future in flight, else the iterator.
    pub fn resume(&self) -> (r: Step<Option<T>>)
        ensures
            r == reduce_resume(self.holder()),
    {
        match self.state.get_future() {
            Some(_) => Step::PollHeld,
            None => Step::PollIter,
        }
    }

    /// The step to take after the underlying iterator answered `polled`.
    pub fn on_iter(&mut self, polled: Poll<Option<T>>) -> (r: Step<Option<T>>) where
        F: FnMut(T, T) -> Fut,

        requires
            !(old(self).holder() is C),
            old(self).holder() is B ==> (polled matches Poll::Ready(Some(x)) ==> call_requires(
                old(self).func(),
                (old(self).holder()->B_unpinned, x),
            )),
        ensures
            final(self).iter() == old(self).iter(),
            final(self).func() == old(self).func(),
            final(self).holder() == reduce_on_iter(
                old(self).holder(),
                polled,
                final(self).holder()->C_pinned,
            ).0,
            r == reduce_on_iter(old(self).holder(), polled, final(self).holder()->C_pinned).1,
            old(self).holder() is B ==> (polled matches Poll::Ready(Some(x)) ==> call_ensures(
                old(self).func(),
                (old(self).holder()->B_unpinned, x),
                final(self).holder()->C_pinned,
            )),
    {
        proof {
            broadcast use group_reduce_state_resolved;

        }
        match self.state.pin_project() {
            StateProject::Empty(empty_state) => match polled {
                Poll::Pending => Step::Finish(Poll::Pending),
                Poll::Ready(None) => Step::Finish(Poll::Ready(None)),
                Poll::Ready(Some(item)) => {
                    let _ = empty_state.set_accumulate(item);
                    Step::PollIter
                },
            },
            StateProject::Accumulate(acc_state) => match polled {
                Poll::Pending => Step::Finish(Poll::Pending),
                Poll::Ready(None) => Step::Finish(Poll::Ready(Some(acc_state.set_empty().1))),
                Poll::Ready(Some(item)) => {
                    let (empty_state, acc) = acc_state.set_empty();
                    let fut = (self.f)(acc, item);
                    let _ = empty_state.set_future(fut);
                    Step::PollHeld
                },
            },
            StateProject::Future(_) => vstd::pervasive::unreached(),
        }
    }

    /// The future in flight, for the driver to poll.
    pub fn held_mut(&mut self) -> (r: &mut Fut)
        requires
            old(self).holder() is C,
        ensures
            *r == old(self).holder()->C_pinned,
            final(self).holder() == (ReduceHolder::<T, Fut>::C { pinned: *final(r), unpinned: () }),
            final(self).iter() == old(self).iter(),
            final(self).func() == old(self).func(),
    {
        proof {
            broadcast use group_reduce_state_resolved;

        }
        match self.state.pin_project() {
            StateProject::Future(fut_state) => fut_state.inner.into_project().pinned,
            _ => vstd::pervasive::unreached(),
        }
    }

    /// The step to take after the future in flight answered `polled`.
    pub fn on_held(&mut self, polled: Poll<T>) -> (r: Step<Option<T>>)
        requires
            old(self).holder() is C,
        ensures
            final(self).iter() == old(self).iter(),
            final(self).func() == old(self).func(),
            (final(self).holder(), r) == reduce_on_held(old(self).holder(), polled),
    {
        proof {
            broadcast use group_reduce_state_resolved;

        }
        match self.state.pin_project() {
            StateProject::Future(fut_state) => match polled {
                Poll::Pending => Step::Finish(Poll::Pending),
                Poll::Ready(acc) => {
                    let _ = fut_state.set_accumulate(acc);
                    Step::PollIter
                },
            },
            _ => vstd::pervasive::unreached(),
        }
    }

    /// Ended when the future in flight, or else the underlying iterator, has ended.
    pub fn is_terminated(&self, iter_terminated: bool, held_terminated: bool) -> (r: bool)
        ensures
            r == (if self.holder() is C {
                held_terminated
            } else {
                iter_terminated
            }),
    {
        match self.state.get_future() {
            Some(_) => held_terminated,
            None => iter_terminated,
        }
    }
}

} // verus!
