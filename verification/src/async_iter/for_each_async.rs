//! `ForEachAsync`: runs an asynchronous function on every item, one at a time.

use vstd::prelude::*;
use crate::async_iter::states::{FoldState, each_on_iter};
use crate::poll::{Poll, Step};

verus! {

/// The state and step of `ForEachAsync` after the future in flight
/// answered `polled`: once it is done the iterator is asked again.
pub open spec fn for_each_async_on_held<Fut>(state: FoldState<(), Fut>, polled: Poll<()>) -> (FoldState<(), Fut>, Step<()>) {
    match polled {
        Poll::Pending => (state, Step::Finish(Poll::Pending)),
        Poll::Ready(_) => (FoldState::Accumulate(()), Step::PollIter),
    }
}

/// A future that awaits `f(x)` for every item `x` of `iter` in turn.
#[derive(Clone)]
pub struct ForEachAsync<I, F, Fut> {
    iter: I,
    state: FoldState<(), Fut>,
    f: F,
}

impl<I, F, Fut> ForEachAsync<I, F, Fut> {
    pub closed spec fn iter(&self) -> I {
        self.iter
    }

    /// The accumulator, or the future computing the next one.
    pub closed spec fn state(&self) -> FoldState<(), Fut> {
        self.state
    }

    pub closed spec fn func(&self) -> F {
        self.f
    }

    pub fn new(iter: I, f: F) -> (r: Self)
        ensures
            r.iter() == iter,
            r.state() == FoldState::<(), Fut>::Accumulate(()),
            r.func() == f,
    {
        ForEachAsync { iter, state: FoldState::Accumulate(()), f }
    }

    /// The underlying async iterator, for the driver to poll.
    pub fn iter_mut(&mut self) -> (r: &mut I)
        ensures
            *r == old(self).iter(),
            final(self).iter() == *final(r),
            final(self).state() == old(self).state(),
            final(self).func() == old(self).func(),
    {
        &mut self.iter
    }

    /// The underlying async iterator, for the driver to read.
    pub fn iter_ref(&self) -> (r: &I)
        ensures
            *r == self.iter(),
    {
        &self.iter
    }

    /// The future in flight, for the driver to poll.
    pub fn held_mut(&mut self) -> (r: &mut Fut)
        requires
            old(self).state() is Future,
        ensures
            *r == old(self).state()->Future_0,
            final(self).state() == FoldState::<(), Fut>::Future(*final(r)),
            final(self).iter() == old(self).iter(),
            final(self).func() == old(self).func(),
    {
        self.state.future_mut()
    }

    /// The first step of a poll: the future in flight, else the iterator.
    pub fn resume(&self) -> (r: Step<()>)
        ensures
            r == (if self.state() is Future {
                Step::<()>::PollHeld
            } else {
                Step::<()>::PollIter
            }),
    {
        match self.state.get_future() {
            Some(_) => Step::PollHeld,
            None => Step::PollIter,
        }
    }

    /// The step to take after the underlying iterator answered `polled`:
    /// the end completes the future, an item starts its call.
    pub fn on_iter<X>(&mut self, polled: Poll<Option<X>>) -> (r: Step<()>) where
        F: FnMut(X) -> Fut,

        requires
            old(self).state() is Accumulate,
            polled matches Poll::Ready(Some(x)) ==> call_requires(old(self).func(), (x,)),
        ensures
            final(self).iter() == old(self).iter(),
            final(self).func() == old(self).func(),
            (final(self).state(), r) == each_on_iter(old(self).state(), polled, final(self).state()->Future_0, ()),
            match polled {
                Poll::Pending => r == Step::<()>::Finish(Poll::Pending) && final(self).state()
                    == old(self).state(),
                Poll::Ready(None) => r == Step::<()>::Finish(Poll::Ready(()))
                    && final(self).state() == old(self).state(),
                Poll::Ready(Some(x)) => r == Step::<()>::PollHeld && final(self).state() is Future
                    && call_ensures(old(self).func(), (x,), final(self).state()->Future_0),
            },
    {
        match polled {
            Poll::Pending => Step::Finish(Poll::Pending),
            Poll::Ready(None) => {
                Step::Finish(Poll::Ready(()))
            },
            Poll::Ready(Some(item)) => {
                let fut = (self.f)(item);
                self.state = FoldState::Future(fut);
                Step::PollHeld
            },
        }
    }

    /// The step to take after the future in flight answered `polled`:
    /// the next item is polled.
    pub fn on_held(&mut self, polled: Poll<()>) -> (r: Step<()>)
        requires
            old(self).state() is Future,
        ensures
            final(self).iter() == old(self).iter(),
            final(self).func() == old(self).func(),
            (final(self).state(), r) == for_each_async_on_held(old(self).state(), polled),
            match polled {
                Poll::Pending => r == Step::<()>::Finish(Poll::Pending) && final(self).state()
                    == old(self).state(),
                Poll::Ready(_) => r == Step::<()>::PollIter && final(self).state()
                    == FoldState::<(), Fut>::Accumulate(()),
            },
    {
        match polled {
            Poll::Pending => Step::Finish(Poll::Pending),
            Poll::Ready(_) => {
                self.state = FoldState::Accumulate(());
                Step::PollIter
            },
        }
    }

    /// The future in flight, if any, for the driver to read.
    pub fn held_ref(&self) -> (r: Option<&Fut>)
        ensures
            r == (match self.state() {
                FoldState::Future(fut) => Some(&fut),
                FoldState::Accumulate(_) => None,
            }),
    {
        self.state.get_future()
    }

    /// Ended when the future in flight, or else the underlying iterator, has ended.
    pub fn is_terminated(&self, iter_terminated: bool, held_terminated: bool) -> (r: bool)
        ensures
            r == (if self.state() is Future {
                held_terminated
            } else {
                iter_terminated
            }),
    {
        match self.state.get_future() {
            Some(_) => held_terminated,
            None => iter_terminated,
        }
    }
}

} // verus!
