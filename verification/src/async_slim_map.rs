//! `AsyncSlimMap`: a future that maps the output of a future to a second
//! future with a function, then resolves to that future's output.

use vstd::prelude::*;
use crate::poll::Poll;
use crate::three_states::{ThreeStates, ThreeStatesProject};

verus! {

broadcast use crate::three_states::group_three_states_resolved;

/// What the driver of an [`AsyncSlimMap`] does next within the current poll.
#[derive(PartialEq, Eq, Debug)]
pub enum SlimMapStep<R> {
    /// Poll the first future and report its answer.
    PollFirst,
    /// Poll the second future and report its answer.
    PollSecond,
    /// End the current poll with this answer.
    Finish(Poll<R>),
}

/// The step of an [`AsyncSlimMap`] after the first future answered `polled`.
pub open spec fn slim_map_on_first<X, V>(polled: Poll<X>) -> SlimMapStep<V> {
    match polled {
        Poll::Pending => SlimMapStep::Finish(Poll::Pending),
        Poll::Ready(_) => SlimMapStep::PollSecond,
    }
}

/// The stages of an [`AsyncSlimMap`]: state A holds the first future and
/// the function, state B the second future, state C nothing (done).
pub type SlimMapState<T, F, U> = ThreeStates<T, F, U, (), (), ()>;

/// Resolves to the output of `f(x)`, a future, where `x` is the output of `fut`.
#[derive(Clone)]
pub struct AsyncSlimMap<T, F, U> {
    state: SlimMapState<T, F, U>,
}

impl<T, F, U> AsyncSlimMap<T, F, U> {
    pub closed spec fn state(&self) -> SlimMapState<T, F, U> {
        self.state
    }

    pub fn new(fut: T, f: F) -> (r: Self)
        ensures
            r.state() == (SlimMapState::<T, F, U>::A { pinned: fut, unpinned: f }),
    {
        AsyncSlimMap { state: ThreeStates::A { pinned: fut, unpinned: f } }
    }

    /// The first step of a poll: the first future, else the second; a
    /// finished future is not polled again.
    pub fn resume<V>(&self) -> (r: SlimMapStep<V>)
        requires
            !(self.state() is C),
        ensures
            r == (if self.state() is A {
                SlimMapStep::<V>::PollFirst
            } else {
                SlimMapStep::<V>::PollSecond
            }),
    {
        match self.state {
            ThreeStates::A { .. } => SlimMapStep::PollFirst,
            _ => SlimMapStep::PollSecond,
        }
    }

    /// The first future, for the driver to poll.
    pub fn first_mut(&mut self) -> (r: &mut T)
        requires
            old(self).state() is A,
        ensures
            *r == old(self).state()->A_pinned,
            final(self).state() == (SlimMapState::<T, F, U>::A {
                pinned: *final(r),
                unpinned: old(self).state()->A_unpinned,
            }),
    {
        match &mut self.state {
            ThreeStates::A { pinned, .. } => pinned,
            _ => vstd::pervasive::unreached(),
        }
    }

    /// The second future, for the driver to poll.
    pub fn second_mut(&mut self) -> (r: &mut U)
        requires
            old(self).state() is B,
        ensures
            *r == old(self).state()->B_pinned,
            final(self).state() == (SlimMapState::<T, F, U>::B { pinned: *final(r), unpinned: () }),
    {
        match &mut self.state {
            ThreeStates::B { pinned, .. } => pinned,
            _ => vstd::pervasive::unreached(),
        }
    }

    /// The step to take after the first future answered `polled`: its
    /// output is mapped to the second future, polled next.
    pub fn on_first<X, V>(&mut self, polled: Poll<X>) -> (r: SlimMapStep<V>) where
        F: FnMut(X) -> U,

        requires
            old(self).state() is A,
            polled matches Poll::Ready(x) ==> call_requires(old(self).state()->A_unpinned, (x,)),
        ensures
            r == slim_map_on_first::<X, V>(polled),
            match polled {
                Poll::Pending => r == SlimMapStep::<V>::Finish(Poll::Pending) && final(self).state()
                    == old(self).state(),
                Poll::Ready(x) => r == SlimMapStep::<V>::PollSecond && (final(self).state() matches ThreeStates::B { pinned: u, .. }
                    && call_ensures(old(self).state()->A_unpinned, (x,), u)),
            },
    {
        match polled {
            Poll::Pending => SlimMapStep::Finish(Poll::Pending),
            Poll::Ready(x) => match self.state.project_mut() {
                ThreeStatesProject::A(mut first) => {
                    let second = {
                        let parts = first.get_project();
                        (parts.unpinned)(x)
                    };
                    let _ = first.replace_state_b(second, ());
                    SlimMapStep::PollSecond
                },
                _ => vstd::pervasive::unreached(),
            },
        }
    }

    /// The answer of the poll after the second future answered `polled`;
    /// its output ends the future.
    pub fn on_second<V>(&mut self, polled: Poll<V>) -> (r: Poll<V>)
        requires
            old(self).state() is B,
        ensures
            r == polled,
            final(self).state() == (if polled is Ready {
                SlimMapState::<T, F, U>::C { pinned: (), unpinned: () }
            } else {
                old(self).state()
            }),
    {
        if polled.is_ready() {
            self.state = ThreeStates::C { pinned: (), unpinned: () };
        }
        polled
    }

    /// Ended once the second future has ended, or its output was answered.
    pub fn is_terminated(&self, second_terminated: bool) -> (r: bool)
        ensures
            r == (match self.state() {
                ThreeStates::A { .. } => false,
                ThreeStates::B { .. } => second_terminated,
                ThreeStates::C { .. } => true,
            }),
    {
        match self.state {
            ThreeStates::A { .. } => false,
            ThreeStates::B { .. } => second_terminated,
            ThreeStates::C { .. } => true,
        }
    }
}

} // verus!
