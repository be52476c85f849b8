//! `TryForEachAsync`: runs an asynchronous fallible function on every item until one breaks.

use vstd::prelude::*;
use core::ops::ControlFlow;
use crate::async_iter::states::{FoldState, each_on_iter};
use crate::poll::{Poll, Step};

verus! {

/// The state and step of `TryForEachAsync` after the future in flight
/// answered `polled`: `Continue` asks the iterator again, `Break` ends the
/// answer.
pub open spec fn try_for_each_async_on_held<B, Fut>(state: FoldState<(), Fut>, polled: Poll<ControlFlow<B, ()>>) -> (
    FoldState<(), Fut>,
    Step<ControlFlow<B, ()>>,
) {
    match polled {
        Poll::Pending => (state, Step::Finish(Poll::Pending)),
        Poll::Ready(ControlFlow::Continue(_)) => (FoldState::Accumulate(()), Step::PollIter),
        Poll::Ready(ControlFlow::Break(b)) => (state, Step::Finish(Poll::Ready(ControlFlow::Break(b)))),
    }
}

/// A future that awaits `f(x)` for every item `x` of `iter` in turn,
/// stopping at the first `Break`.
#[derive(Clone)]
pub struct TryForEachAsync<I, F, Fut> {
    iter: I,
    state: FoldState<(), Fut>,
    f: F,
}

impl<I, F, Fut> TryForEachAsync<I, F, Fut> {
    pub closed spec fn iter(&self) -> I {
        self.iter
    }

    /// The accumulator, or the future computing the next one.
    pub closed spec fn state(&self) -> FoldState<(), Fut> {
        self.state
    }

    pub closed spec fn func(&self) -> F {
        self.f
    }

    pub fn new(iter: I, f: F) -> (r: Self)
        ensures
            r.iter() == iter,
            r.state() == FoldState::<(), Fut>::Accumulate(()),
            r.func() == f,
    {
        TryForEachAsync { iter, state: FoldState::Accumulate(()), f }
    }

    /// The underlying async iterator, for the driver to poll.
    pub fn iter_mut(&mut self) -> (r: &mut I)
        ensures
            *r == old(self).iter(),
            final(self).iter() == *final(r),
            final(self).state() == old(self).state(),
            final(self).func() == old(self).func(),
    {
        &mut self.iter
    }

    /// The underlying async iterator, for the driver to read.
    pub fn iter_ref(&self) -> (r: &I)
        ensures
            *r == self.iter(),
    {
        &self.iter
    }

    /// The future in flight, for the driver to poll.
    pub fn held_mut(&mut self) -> (r: &mut Fut)
        requires
            old(self).state() is Future,
        ensures
            *r == old(self).state()->Future_0,
            final(self).state() == FoldState::<(), Fut>::Future(*final(r)),
            final(self).iter() == old(self).iter(),
            final(self).func() == old(self).func(),
    {
        self.state.future_mut()
    }

    /// The first step of a poll: the future in flight, else the iterator.
    pub fn resume<B>(&self) -> (r: Step<ControlFlow<B, ()>>)
        ensures
            r == (if self.state() is Future {
                Step::<ControlFlow<B, ()>>::PollHeld
            } else {
                Step::<ControlFlow<B, ()>>::PollIter
            }),
    {
        match self.state.get_future() {
            Some(_) => Step::PollHeld,
            None => Step::PollIter,
        }
    }

    /// The step to take after the underlying iterator answered `polled`:
    /// the end answers `Continue`, an item starts its call.
    pub fn on_iter<X, B>(&mut self, polled: Poll<Option<X>>) -> (r: Step<ControlFlow<B, ()>>) where
        F: FnMut(X) -> Fut,

        requires
            old(self).state() is Accumulate,
            polled matches Poll::Ready(Some(x)) ==> call_requires(old(self).func(), (x,)),
        ensures
            final(self).iter() == old(self).iter(),
            final(self).func() == old(self).func(),
            (final(self).state(), r) == each_on_iter(old(self).state(), polled, final(self).state()->Future_0, ControlFlow::<B, ()>::Continue(())),
            match polled {
                Poll::Pending => r == Step::<ControlFlow<B, ()>>::Finish(Poll::Pending) && final(self).state()
                    == old(self).state(),
                Poll::Ready(None) => r == Step::<ControlFlow<B, ()>>::Finish(Poll::Ready(ControlFlow::<B, ()>::Continue(())))
                    && final(self).state() == old(self).state(),
                Poll::Ready(Some(x)) => r == Step::<ControlFlow<B, ()>>::PollHeld && final(self).state() is Future
                    && call_ensures(old(self).func(), (x,), final(self).state()->Future_0),
            },
    {
        match polled {
            Poll::Pending => Step::Finish(Poll::Pending),
            Poll::Ready(None) => {
                Step::Finish(Poll::Ready(ControlFlow::Continue(())))
            },
            Poll::Ready(Some(item)) => {
                let fut = (self.f)(item);
                self.state = FoldState::Future(fut);
                Step::PollHeld
            },
        }
    }

    /// The step to take after the future in flight answered `polled`:
    /// `Continue` polls the next item, `Break` ends the future.
    pub fn on_held<B>(&mut self, polled: Poll<ControlFlow<B, ()>>) -> (r: Step<ControlFlow<B, ()>>)
        requires
            old(self).state() is Future,
        ensures
            final(self).iter() == old(self).iter(),
            final(self).func() == old(self).func(),
            (final(self).state(), r) == try_for_each_async_on_held(old(self).state(), polled),
            match polled {
                Poll::Pending => r == Step::<ControlFlow<B, ()>>::Finish(Poll::Pending) && final(self).state()
                    == old(self).state(),
                Poll::Ready(ControlFlow::Continue(_)) => r == Step::<ControlFlow<B, ()>>::PollIter
                    && final(self).state() == FoldState::<(), Fut>::Accumulate(()),
                Poll::Ready(ControlFlow::Break(b)) => r == Step::<ControlFlow<B, ()>>::Finish(
                    Poll::Ready(ControlFlow::Break(b)),
                ) && final(self).state() == old(self).state(),
            },
    {
        match polled {
            Poll::Pending => Step::Finish(Poll::Pending),
            Poll::Ready(ControlFlow::Continue(_)) => {
                self.state = FoldState::Accumulate(());
                Step::PollIter
            },
            Poll::Ready(ControlFlow::Break(b)) => Step::Finish(Poll::Ready(ControlFlow::Break(b))),
        }
    }

    /// The future in flight, if any, for the driver to read.
    pub fn held_ref(&self) -> (r: Option<&Fut>)
        ensures
            r == (match self.state() {
                FoldState::Future(fut) => Some(&fut),
                FoldState::Accumulate(_) => None,
            }),
    {
        self.state.get_future()
    }

    /// Ended when the future in flight, or else the underlying iterator, has ended.
    pub fn is_terminated(&self, iter_terminated: bool, held_terminated: bool) -> (r: bool)
        ensures
            r == (if self.state() is Future {
                held_terminated
            } else {
                iter_terminated
            }),
    {
        match self.state.get_future() {
            Some(_) => held_terminated,
            None => iter_terminated,
        }
    }
}

} // verus!
