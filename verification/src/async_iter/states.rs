//! States shared by combinators that wait for a future between items.

use vstd::prelude::*;
use crate::poll::{Poll, Step};

verus! {

/// The state and step of a combinator that awaits one future per item,
/// after the underlying iterator answered `polled`, where `fut` is the
/// future the function returns for the item and `end` the answer at the end.
pub open spec fn each_on_iter<X, Fut, R>(state: FoldState<(), Fut>, polled: Poll<Option<X>>, fut: Fut, end: R) -> (
    FoldState<(), Fut>,
    Step<R>,
) {
    match polled {
        Poll::Pending => (state, Step::Finish(Poll::Pending)),
        Poll::Ready(None) => (state, Step::Finish(Poll::Ready(end))),
        Poll::Ready(Some(_)) => (FoldState::Future(fut), Step::PollHeld),
    }
}

/// The first step of a poll of such a combinator: the future in flight,
/// else the iterator.
pub open spec fn each_resume<Fut, R>(state: FoldState<(), Fut>) -> Step<R> {
    if state is Future {
        Step::PollHeld
    } else {
        Step::PollIter
    }
}

/// An item waiting for the verdict of an asynchronous predicate.
#[derive(Clone)]
pub enum PredicateState<T, Fut> {
    Empty,
    Polling { item: T, fut: Fut },
}

impl<T, Fut> PredicateState<T, Fut> {
    /// The predicate's future in flight, if any.
    pub fn get_future(&self) -> (r: Option<&Fut>)
        ensures
            r == (match *self {
                PredicateState::Polling { fut, .. } => Some(&fut),
                PredicateState::Empty => None,
            }),
    {
        match self {
            PredicateState::Polling { fut, .. } => Some(fut),
            PredicateState::Empty => None,
        }
    }

    /// The future in flight, for the driver to poll.
    pub fn future_mut(&mut self) -> (r: &mut Fut)
        requires
            *old(self) is Polling,
        ensures
            *r == old(self)->fut,
            *final(self) == (PredicateState::Polling { item: old(self)->item, fut: *final(r) }),
    {
        match self {
            PredicateState::Polling { fut, .. } => fut,
            PredicateState::Empty => vstd::pervasive::unreached(),
        }
    }

    /// Takes the waiting item out, dropping its future.
    pub fn take_item(&mut self) -> (r: T)
        requires
            *old(self) is Polling,
        ensures
            r == old(self)->item,
            *final(self) is Empty,
    {
        let mut taken = PredicateState::Empty;
        core::mem::swap(self, &mut taken);
        match taken {
            PredicateState::Polling { item, .. } => item,
            PredicateState::Empty => vstd::pervasive::unreached(),
        }
    }
}

/// A fold's accumulator, or the future computing the next one.
#[derive(Clone)]
pub enum FoldState<T, Fut> {
    Accumulate(T),
    Future(Fut),
}

impl<T, Fut> FoldState<T, Fut> {
    /// The future in flight, if any.
    pub fn get_future(&self) -> (r: Option<&Fut>)
        ensures
            r == (match *self {
                FoldState::Future(fut) => Some(&fut),
                FoldState::Accumulate(_) => None,
            }),
    {
        match self {
            FoldState::Future(fut) => Some(fut),
            FoldState::Accumulate(_) => None,
        }
    }

    /// The future in flight, for the driver to poll.
    pub fn future_mut(&mut self) -> (r: &mut Fut)
        requires
            *old(self) is Future,
        ensures
            *r == old(self)->Future_0,
            *final(self) == FoldState::<T, Fut>::Future(*final(r)),
    {
        match self {
            FoldState::Future(fut) => fut,
            FoldState::Accumulate(_) => vstd::pervasive::unreached(),
        }
    }
}

} // verus!
