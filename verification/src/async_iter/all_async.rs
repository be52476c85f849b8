//! `AllAsync`: whether an asynchronous predicate accepts every item.

use vstd::prelude::*;
use crate::async_iter::states::{FoldState, each_on_iter};
use crate::poll::{Poll, Step};

verus! {

/// The state and step of `AllAsync` after the future in flight answered
/// `polled`: an accepted item asks the iterator again, a rejected one ends
/// the answer with `false`.
pub open spec fn all_async_on_held<Fut>(state: FoldState<(), Fut>, polled: Poll<bool>) -> (FoldState<(), Fut>, Step<bool>) {
    match polled {
        Poll::Pending => (state, Step::Finish(Poll::Pending)),
        Poll::Ready(true) => (FoldState::Accumulate(()), Step::PollIter),
        Poll::Ready(false) => (state, Step::Finish(Poll::Ready(false))),
    }
}

/// A future of whether the future `predicate(x)` resolves to `true` for
/// every item `x` of `iter`; it stops at the first `false`.
#[derive(Clone)]
pub struct AllAsync<I, F, Fut> {
    iter: I,
    state: FoldState<(), Fut>,
    f: F,
}

impl<I, F, Fut> AllAsync<I, F, Fut> {
    pub closed spec fn iter(&self) -> I {
        self.iter
    }

    /// The accumulator, or the future computing the next one.
    pub closed spec fn state(&self) -> FoldState<(), Fut> {
        self.state
    }

    pub closed spec fn func(&self) -> F {
        self.f
    }

    pub fn new(iter: I, f: F) -> (r: Self)
        ensures
            r.iter() == iter,
            r.state() == FoldState::<(), Fut>::Accumulate(()),
            r.func() == f,
    {
        AllAsync { iter, state: FoldState::Accumulate(()), f }
    }

    /// The underlying async iterator, for the driver to poll.
    pub fn iter_mut(&mut self) -> (r: &mut I)
        ensures
            *r == old(self).iter(),
            final(self).iter() == *final(r),
            final(self).state() == old(self).state(),
            final(self).func() == old(self).func(),
    {
        &mut self.iter
    }

    /// The underlying async iterator, for the driver to read.
    pub fn iter_ref(&self) -> (r: &I)
        ensures
            *r == self.iter(),
    {
        &self.iter
    }

    /// The future in flight, for the driver to poll.
    pub fn held_mut(&mut self) -> (r: &mut Fut)
        requires
            old(self).state() is Future,
        ensures
            *r == old(self).state()->Future_0,
            final(self).state() == FoldState::<(), Fut>::Future(*final(r)),
            final(self).iter() == old(self).iter(),
            final(self).func() == old(self).func(),
    {
        self.state.future_mut()
    }

    /// The first step of a poll: the future in flight, else the iterator.
    pub fn resume(&self) -> (r: Step<bool>)
        ensures
            r == (if self.state() is Future {
                Step::<bool>::PollHeld
            } else {
                Step::<bool>::PollIter
            }),
    {
        match self.state.get_future() {
            Some(_) => Step::PollHeld,
            None => Step::PollIter,
        }
    }

    /// The step to take after the underlying iterator answered `polled`:
    /// the end answers `true`, an item starts its verdict.
    pub fn on_iter<X>(&mut self, polled: Poll<Option<X>>) -> (r: Step<bool>) where
        F: FnMut(X) -> Fut,

        requires
            old(self).state() is Accumulate,
            polled matches Poll::Ready(Some(x)) ==> call_requires(old(self).func(), (x,)),
        ensures
            final(self).iter() == old(self).iter(),
            final(self).func() == old(self).func(),
            (final(self).state(), r) == each_on_iter(old(self).state(), polled, final(self).state()->Future_0, true),
            match polled {
                Poll::Pending => r == Step::<bool>::Finish(Poll::Pending) && final(self).state()
                    == old(self).state(),
                Poll::Ready(None) => r == Step::<bool>::Finish(Poll::Ready(true))
                    && final(self).state() == old(self).state(),
                Poll::Ready(Some(x)) => r == Step::<bool>::PollHeld && final(self).state() is Future
                    && call_ensures(old(self).func(), (x,), final(self).state()->Future_0),
            },
    {
        match polled {
            Poll::Pending => Step::Finish(Poll::Pending),
            Poll::Ready(None) => {
                Step::Finish(Poll::Ready(true))
            },
            Poll::Ready(Some(item)) => {
                let fut = (self.f)(item);
                self.state = FoldState::Future(fut);
                Step::PollHeld
            },
        }
    }

    /// The step to take after the future in flight answered `polled`:
    /// `true` polls the next item, `false` answers `false`.
    pub fn on_held(&mut self, polled: Poll<bool>) -> (r: Step<bool>)
        requires
            old(self).state() is Future,
        ensures
            final(self).iter() == old(self).iter(),
            final(self).func() == old(self).func(),
            (final(self).state(), r) == all_async_on_held(old(self).state(), polled),
            match polled {
                Poll::Pending => r == Step::<bool>::Finish(Poll::Pending) && final(self).state()
                    == old(self).state(),
                Poll::Ready(true) => r == Step::<bool>::PollIter && final(self).state()
                    == FoldState::<(), Fut>::Accumulate(()),
                Poll::Ready(false) => r == Step::<bool>::Finish(Poll::Ready(false)) && final(self).state()
                    == old(self).state(),
            },
    {
        match polled {
            Poll::Pending => Step::Finish(Poll::Pending),
            Poll::Ready(true) => {
                self.state = FoldState::Accumulate(());
                Step::PollIter
            },
            Poll::Ready(false) => Step::Finish(Poll::Ready(false)),
        }
    }

    /// The future in flight, if any, for the driver to read.
    pub fn held_ref(&self) -> (r: Option<&Fut>)
        ensures
            r == (match self.state() {
                FoldState::Future(fut) => Some(&fut),
                FoldState::Accumulate(_) => None,
            }),
    {
        self.state.get_future()
    }

    /// Ended when the future in flight, or else the underlying iterator, has ended.
    pub fn is_terminated(&self, iter_terminated: bool, held_terminated: bool) -> (r: bool)
        ensures
            r == (if self.state() is Future {
                held_terminated
            } else {
                iter_terminated
            }),
    {
        match self.state.get_future() {
            Some(_) => held_terminated,
            None => iter_terminated,
        }
    }
}

} // verus!
