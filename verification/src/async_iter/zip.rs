//! `Zip`: pairs the items of two async iterators.

use vstd::prelude::*;
use crate::poll::{Poll, SizeHint};
use crate::three_states::{
    StateAProject, StateBProject, StateCProject, ThreeStates, ThreeStatesProject,
};

verus! {

broadcast use crate::three_states::group_three_states_resolved;

/// What the driver of `Zip` does next within the current poll.
#[derive(PartialEq, Eq, Debug)]
pub enum ZipStep<R> {
    /// Poll the left async iterator and report its answer.
    PollLeft,
    /// Poll the right async iterator and report its answer.
    PollRight,
    /// End the current poll with this answer.
    Finish(Poll<R>),
}

/// The item one side has yielded while the other side has not yet: state A
/// holds nothing, state B a left item, state C a right item.
pub type ZipBuffer<TA, TB> = ThreeStates<(), (), (), TA, (), TB>;

/// The buffer and step after the left iterator answered `polled`.
pub open spec fn zip_on_left<TA, TB>(buffer: ZipBuffer<TA, TB>, polled: Poll<Option<TA>>) -> (
    ZipBuffer<TA, TB>,
    ZipStep<Option<(TA, TB)>>,
) {
    match buffer {
        ThreeStates::C { unpinned: b, .. } => match polled {
            Poll::Pending => (buffer, ZipStep::Finish(Poll::Pending)),
            Poll::Ready(None) => (buffer, ZipStep::Finish(Poll::Ready(None))),
            Poll::Ready(Some(a)) => (
                ThreeStates::A { pinned: (), unpinned: () },
                ZipStep::Finish(Poll::Ready(Some((a, b)))),
            ),
        },
        _ => match polled {
            Poll::Pending => (buffer, ZipStep::PollRight),
            Poll::Ready(None) => (buffer, ZipStep::Finish(Poll::Ready(None))),
            Poll::Ready(Some(a)) => (ThreeStates::B { pinned: (), unpinned: a }, ZipStep::PollRight),
        },
    }
}

/// The buffer and step after the right iterator answered `polled`.
pub open spec fn zip_on_right<TA, TB>(buffer: ZipBuffer<TA, TB>, polled: Poll<Option<TB>>) -> (
    ZipBuffer<TA, TB>,
    ZipStep<Option<(TA, TB)>>,
) {
    match buffer {
        ThreeStates::B { unpinned: a, .. } => match polled {
            Poll::Pending => (buffer, ZipStep::Finish(Poll::Pending)),
            Poll::Ready(None) => (buffer, ZipStep::Finish(Poll::Ready(None))),
            Poll::Ready(Some(b)) => (
                ThreeStates::A { pinned: (), unpinned: () },
                ZipStep::Finish(Poll::Ready(Some((a, b)))),
            ),
        },
        _ => match polled {
            Poll::Pending => (buffer, ZipStep::Finish(Poll::Pending)),
            Poll::Ready(None) => (buffer, ZipStep::Finish(Poll::Ready(None))),
            Poll::Ready(Some(b)) => (ThreeStates::C { pinned: (), unpinned: b }, ZipStep::PollLeft),
        },
    }
}

/// The first step of a poll: poll the side whose item is missing, the left first.
pub open spec fn zip_resume<TA, TB>(buffer: ZipBuffer<TA, TB>) -> ZipStep<Option<(TA, TB)>> {
    if buffer is B {
        ZipStep::PollRight
    } else {
        ZipStep::PollLeft
    }
}

/// The smaller of two optional upper bounds, where `None` means no bound.
pub open spec fn min_upper(a: Option<usize>, b: Option<usize>) -> Option<usize> {
    match (a, b) {
        (None, None) => None,
        (None, Some(h)) => Some(h),
        (Some(h), None) => Some(h),
        (Some(x), Some(y)) => Some(if x <= y {
            x
        } else {
            y
        }),
    }
}

/// The hint of `Zip` from the two sides' hints, counting the item held ahead:
/// the smaller of the two lower bounds and of the two upper bounds.
pub open spec fn zip_hint<TA, TB>(buffer: ZipBuffer<TA, TB>, left_hint: SizeHint, right_hint: SizeHint) -> SizeHint {
    let l = if buffer is B {
        crate::poll::add_one_spec(left_hint)
    } else {
        left_hint
    };
    let r = if buffer is C {
        crate::poll::add_one_spec(right_hint)
    } else {
        right_hint
    };
    (if l.0 <= r.0 {
        l.0
    } else {
        r.0
    }, min_upper(l.1, r.1))
}

/// The item held ahead, with typestate handles on its three states.
#[derive(Clone)]
struct State<TA, TB> {
    inner: ZipBuffer<TA, TB>,
}

impl<TA, TB> State<TA, TB> {
    closed spec fn buffer(&self) -> ZipBuffer<TA, TB> {
        self.inner
    }

    /// Nothing held.
    fn new() -> (r: Self)
        ensures
            r.buffer() == (ZipBuffer::<TA, TB>::A { pinned: (), unpinned: () }),
    {
        State { inner: ThreeStates::A { pinned: (), unpinned: () } }
    }

    /// A handle on the current state.
    fn project(&mut self) -> (r: StateProject<'_, TA, TB>)
        ensures
            match r {
                StateProject::Empty(p) => old(self).buffer() is A && *p.target() == old(
                    self,
                ).buffer() && final(self).buffer() == *final(p.target()),
                StateProject::Left(p) => old(self).buffer() is B && *p.target() == old(
                    self,
                ).buffer() && final(self).buffer() == *final(p.target()),
                StateProject::Right(p) => old(self).buffer() is C && *p.target() == old(
                    self,
                ).buffer() && final(self).buffer() == *final(p.target()),
            },
    {
        match self.inner.project_mut() {
            ThreeStatesProject::A(inner) => StateProject::Empty(EmptyState { inner }),
            ThreeStatesProject::B(inner) => StateProject::Left(LeftState { inner }),
            ThreeStatesProject::C(inner) => StateProject::Right(RightState { inner }),
        }
    }
}

/// A buffer known to hold nothing.
struct EmptyState<'a, TA, TB> {
    inner: StateAProject<'a, (), (), (), TA, (), TB>,
}

impl<'a, TA, TB> EmptyState<'a, TA, TB> {
    closed spec fn target(&self) -> &'a mut ZipBuffer<TA, TB> {
        self.inner.target()
    }

    /// Holds a left item.
    fn set_left(self, value: TA) -> (r: LeftState<'a, TA, TB>)
        requires
            *self.target() is A,
        ensures
            *r.target() == (ZipBuffer::<TA, TB>::B { pinned: (), unpinned: value }),
            *final(r.target()) == *final(self.target()),
    {
        LeftState { inner: self.inner.replace_state_b((), value).0 }
    }

    /// Holds a right item.
    fn set_right(self, value: TB) -> (r: RightState<'a, TA, TB>)
        requires
            *self.target() is A,
        ensures
            *r.target() == (ZipBuffer::<TA, TB>::C { pinned: (), unpinned: value }),
            *final(r.target()) == *final(self.target()),
    {
        RightState { inner: self.inner.replace_state_c((), value).0 }
    }
}

/// A buffer known to hold a left item.
struct LeftState<'a, TA, TB> {
    inner: StateBProject<'a, (), (), (), TA, (), TB>,
}

impl<'a, TA, TB> LeftState<'a, TA, TB> {
    closed spec fn target(&self) -> &'a mut ZipBuffer<TA, TB> {
        self.inner.target()
    }

    /// Takes the left item out.
    fn set_empty(self) -> (r: (EmptyState<'a, TA, TB>, TA))
        requires
            *self.target() is B,
        ensures
            r.1 == self.target()->B_unpinned,
            *r.0.target() == (ZipBuffer::<TA, TB>::A { pinned: (), unpinned: () }),
            *final(r.0.target()) == *final(self.target()),
    {
        let (inner, value) = self.inner.replace_state_a((), ());
        (EmptyState { inner }, value)
    }
}

/// A buffer known to hold a right item.
struct RightState<'a, TA, TB> {
    inner: StateCProject<'a, (), (), (), TA, (), TB>,
}

impl<'a, TA, TB> RightState<'a, TA, TB> {
    closed spec fn target(&self) -> &'a mut ZipBuffer<TA, TB> {
        self.inner.target()
    }

    /// Takes the right item out.
    fn set_empty(self) -> (r: (EmptyState<'a, TA, TB>, TB))
        requires
            *self.target() is C,
        ensures
            r.1 == self.target()->C_unpinned,
            *r.0.target() == (ZipBuffer::<TA, TB>::A { pinned: (), unpinned: () }),
            *final(r.0.target()) == *final(self.target()),
    {
        let (inner, value) = self.inner.replace_state_a((), ());
        (EmptyState { inner }, value)
    }
}

/// A handle on the buffer, by its current state.
enum StateProject<'a, TA, TB> {
    Empty(EmptyState<'a, TA, TB>),
    Left(LeftState<'a, TA, TB>),
    Right(RightState<'a, TA, TB>),
}

/// A dropped handle leaves the buffer as the handle last saw it.
broadcast proof fn lemma_empty_state_resolved<'a, TA, TB>(p: EmptyState<'a, TA, TB>)
    requires
        #[trigger] has_resolved(p),
    ensures
        *final(p.target()) == *p.target(),
{
}

/// A dropped handle leaves the buffer as the handle last saw it.
broadcast proof fn lemma_left_state_resolved<'a, TA, TB>(p: LeftState<'a, TA, TB>)
    requires
        #[trigger] has_resolved(p),
    ensures
        *final(p.target()) == *p.target(),
{
}

/// A dropped handle leaves the buffer as the handle last saw it.
broadcast proof fn lemma_right_state_resolved<'a, TA, TB>(p: RightState<'a, TA, TB>)
    requires
        #[trigger] has_resolved(p),
    ensures
        *final(p.target()) == *p.target(),
{
}

broadcast group group_zip_state_resolved {
    lemma_empty_state_resolved,
    lemma_left_state_resolved,
    lemma_right_state_resolved,
}

/// Yields pairs of items of `left` and `right`; ends when either ends.
#[derive(Clone)]
pub struct Zip<A, B, TA, TB> {
    left: A,
    right: B,
    state: State<TA, TB>,
}

impl<A, B, TA, TB> Zip<A, B, TA, TB> {
    pub closed spec fn left(&self) -> A {
        self.left
    }

    pub closed spec fn right(&self) -> B {
        self.right
    }

    /// The item one side has yielded ahead of the other.
    pub closed spec fn buffer(&self) -> ZipBuffer<TA, TB> {
        self.state.buffer()
    }

    pub fn new(left: A, right: B) -> (r: Self)
        ensures
            r.left() == left,
            r.right() == right,
            r.buffer() is A,
    {
        Zip { left, right, state: State::new() }
    }

    /// The left async iterator, for the driver to poll.
    pub fn left_mut(&mut self) -> (r: &mut A)
        ensures
            *r == old(self).left(),
            final(self).left() == *final(r),
            final(self).right() == old(self).right(),
            final(self).buffer() == old(self).buffer(),
    {
        &mut self.left
    }

    /// The left async iterator, for the driver to read.
    pub fn left_ref(&self) -> (r: &A)
        ensures
            *r == self.left(),
    {
        &self.left
    }

    /// The right async iterator, for the driver to read.
    pub fn right_ref(&self) -> (r: &B)
        ensures
            *r == self.right(),
    {
        &self.right
    }

    /// The right async iterator, for the driver to poll.
    pub fn right_mut(&mut self) -> (r: &mut B)
        ensures
            *r == old(self).right(),
            final(self).right() == *final(r),
            final(self).left() == old(self).left(),
            final(self).buffer() == old(self).buffer(),
    {
        &mut self.right
    }

    /// The first step of a poll.
    pub fn resume(&self) -> (r: ZipStep<Option<(TA, TB)>>)
        ensures
            r == zip_resume(self.buffer()),
    {
        match self.state.inner {
            ThreeStates::B { .. } => ZipStep::PollRight,
            _ => ZipStep::PollLeft,
        }
    }

    /// The step to take after the left iterator answered `polled`.
    pub fn on_left(&mut self, polled: Poll<Option<TA>>) -> (r: ZipStep<Option<(TA, TB)>>)
        requires
            !(old(self).buffer() is B),
        ensures
            final(self).left() == old(self).left(),
            final(self).right() == old(self).right(),
            (final(self).buffer(), r) == zip_on_left(old(self).buffer(), polled),
    {
        proof {
            broadcast use group_zip_state_resolved;

        }
        match self.state.project() {
            StateProject::Empty(empty) => match polled {
                Poll::Pending => ZipStep::PollRight,
                Poll::Ready(None) => ZipStep::Finish(Poll::Ready(None)),
                Poll::Ready(Some(a)) => {
                    let _ = empty.set_left(a);
                    ZipStep::PollRight
                },
            },
            StateProject::Right(right_item) => match polled {
                Poll::Pending => ZipStep::Finish(Poll::Pending),
                Poll::Ready(None) => ZipStep::Finish(Poll::Ready(None)),
                Poll::Ready(Some(a)) => {
                    let (_, b) = right_item.set_empty();
                    ZipStep::Finish(Poll::Ready(Some((a, b))))
                },
            },
            StateProject::Left(_) => vstd::pervasive::unreached(),
        }
    }

    /// The step to take after the right iterator answered `polled`.
    pub fn on_right(&mut self, polled: Poll<Option<TB>>) -> (r: ZipStep<Option<(TA, TB)>>)
        requires
            !(old(self).buffer() is C),
        ensures
            final(self).left() == old(self).left(),
            final(self).right() == old(self).right(),
            (final(self).buffer(), r) == zip_on_right(old(self).buffer(), polled),
    {
        proof {
            broadcast use group_zip_state_resolved;

        }
        match self.state.project() {
            StateProject::Empty(empty) => match polled {
                Poll::Pending => ZipStep::Finish(Poll::Pending),
                Poll::Ready(None) => ZipStep::Finish(Poll::Ready(None)),
                Poll::Ready(Some(b)) => {
                    let _ = empty.set_right(b);
                    ZipStep::PollLeft
                },
            },
            StateProject::Left(left_item) => match polled {
                Poll::Pending => ZipStep::Finish(Poll::Pending),
                Poll::Ready(None) => ZipStep::Finish(Poll::Ready(None)),
                Poll::Ready(Some(b)) => {
                    let (_, a) = left_item.set_empty();
                    ZipStep::Finish(Poll::Ready(Some((a, b))))
                },
            },
            StateProject::Right(_) => vstd::pervasive::unreached(),
        }
    }

    /// Bounds from the two sides' hints, counting the item held ahead.
    pub fn size_hint(&self, left_hint: SizeHint, right_hint: SizeHint) -> (r: SizeHint)
        ensures
            r == zip_hint(self.buffer(), left_hint, right_hint),
    {
        let (mut left_low, mut left_high) = left_hint;
        let (mut right_low, mut right_high) = right_hint;
        match self.state.inner {
            ThreeStates::A { .. } => {},
            ThreeStates::B { .. } => {
                left_low = crate::poll::lower_add_one(left_low);
                left_high = crate::poll::upper_add_one(left_high);
            },
            ThreeStates::C { .. } => {
                right_low = crate::poll::lower_add_one(right_low);
                right_high = crate::poll::upper_add_one(right_high);
            },
        }
        let low = if left_low <= right_low {
            left_low
        } else {
            right_low
        };
        let high = match (left_high, right_high) {
            (None, None) => None,
            (None, Some(right_high)) => Some(right_high),
            (Some(left_high), None) => Some(left_high),
            (Some(left_high), Some(right_high)) => Some(
                if left_high <= right_high {
                    left_high
                } else {
                    right_high
                },
            ),
        };
        (low, high)
    }

    /// Ended when a side that must still yield has ended.
    pub fn is_terminated(&self, left_terminated: bool, right_terminated: bool) -> (r: bool)
        ensures
            r == (match self.buffer() {
                ThreeStates::A { .. } => left_terminated || right_terminated,
                ThreeStates::B { .. } => right_terminated,
                ThreeStates::C { .. } => left_terminated,
            }),
    {
        match self.state.inner {
            ThreeStates::A { .. } => left_terminated || right_terminated,
            ThreeStates::B { .. } => right_terminated,
            ThreeStates::C { .. } => left_terminated,
        }
    }
}

} // verus!
