//! `FlatMapAsync`: maps every item to a future of a sub-iterator and flattens them.

use vstd::prelude::*;
use crate::poll::{Poll, Step};
use crate::async_iter::map_async::MapAsync;
use crate::async_iter::flatten::{Flatten, flatten_on_held_step};

verus! {

/// What the driver of a [`FlatMapAsync`] does next within the current poll.
#[derive(PartialEq, Eq, Debug)]
pub enum FlatMapAsyncStep<R> {
    /// Poll the underlying async iterator and report its answer.
    PollIter,
    /// Poll the future in flight and report its answer.
    PollFuture,
    /// Poll the current sub-iterator and report its answer.
    PollSub,
    /// End the current poll with this answer.
    Finish(Poll<R>),
}

/// The first step of a poll of `FlatMapAsync` holding the future `fut` and
/// the sub-iterator `sub` (each or none): the sub-iterator, else the
/// future, else the underlying iterator.
pub open spec fn flat_map_async_resume<Fut, S, R>(fut: Option<Fut>, sub: Option<S>) -> FlatMapAsyncStep<R> {
    if sub is Some {
        FlatMapAsyncStep::PollSub
    } else if fut is Some {
        FlatMapAsyncStep::PollFuture
    } else {
        FlatMapAsyncStep::PollIter
    }
}

/// The future held and the step of `FlatMapAsync` after the underlying
/// iterator answered `polled`, where `fut` is the future the function
/// returns for the item.
pub open spec fn flat_map_async_on_iter<T, Fut, U>(polled: Poll<Option<T>>, fut: Fut) -> (
    Option<Fut>,
    FlatMapAsyncStep<Option<U>>,
) {
    match polled {
        Poll::Pending => (None, FlatMapAsyncStep::Finish(Poll::Pending)),
        Poll::Ready(None) => (None, FlatMapAsyncStep::Finish(Poll::Ready(None))),
        Poll::Ready(Some(_)) => (Some(fut), FlatMapAsyncStep::PollFuture),
    }
}

/// The future held, the sub-iterator held and the step of `FlatMapAsync`
/// after the future in flight `fut` answered `polled`.
pub open spec fn flat_map_async_on_future<Fut, S, U>(fut: Option<Fut>, polled: Poll<S>) -> (
    Option<Fut>,
    Option<S>,
    FlatMapAsyncStep<Option<U>>,
) {
    match polled {
        Poll::Pending => (fut, None, FlatMapAsyncStep::Finish(Poll::Pending)),
        Poll::Ready(sub) => (None, Some(sub), FlatMapAsyncStep::PollSub),
    }
}

/// The sub-iterator held and the step of `FlatMapAsync` after the current
/// sub-iterator `sub` answered `polled`.
pub open spec fn flat_map_async_on_sub<S, U>(sub: Option<S>, polled: Poll<Option<U>>) -> (
    Option<S>,
    FlatMapAsyncStep<Option<U>>,
) {
    (
        if polled == Poll::<Option<U>>::Ready(None) {
            None
        } else {
            sub
        },
        match flatten_on_held_step(polled) {
            Step::Finish(p) => FlatMapAsyncStep::Finish(p),
            _ => FlatMapAsyncStep::PollIter,
        },
    )
}

/// Yields, in order, the items of the sub-iterator that `f(x)` resolves to,
/// for every item `x` of `iter`.
///
/// At most one of a future and a sub-iterator is held at a time.
#[derive(Clone)]
pub struct FlatMapAsync<I, F, Fut, S> {
    inner: Flatten<MapAsync<I, F, Fut>, S>,
}

impl<I, F, Fut, S> FlatMapAsync<I, F, Fut, S> {
    pub closed spec fn iter(&self) -> I {
        self.inner.iter().iter()
    }

    pub closed spec fn func(&self) -> F {
        self.inner.iter().func()
    }

    /// The future in flight, if any.
    pub closed spec fn future(&self) -> Option<Fut> {
        self.inner.iter().held()
    }

    /// The sub-iterator being drained, if any.
    pub closed spec fn sub(&self) -> Option<S> {
        self.inner.sub()
    }

    /// A future and a sub-iterator are never held together.
    pub open spec fn wf(&self) -> bool {
        self.sub() is Some ==> self.future() is None
    }

    pub fn new(iter: I, f: F) -> (r: Self)
        ensures
            r.wf(),
            r.iter() == iter,
            r.func() == f,
            r.future() is None,
            r.sub() is None,
    {
        FlatMapAsync { inner: Flatten::new(MapAsync::new(iter, f)) }
    }

    /// The underlying async iterator, for the driver to poll.
    pub fn iter_mut(&mut self) -> (r: &mut I)
        ensures
            *r == old(self).iter(),
            final(self).iter() == *final(r),
            final(self).func() == old(self).func(),
            final(self).future() == old(self).future(),
            final(self).sub() == old(self).sub(),
    {
        self.inner.iter_mut().iter_mut()
    }

    /// The future in flight, for the driver to poll.
    pub fn future_mut(&mut self) -> (r: &mut Fut)
        requires
            old(self).future() is Some,
        ensures
            *r == old(self).future()->0,
            final(self).future() == Some(*final(r)),
            final(self).iter() == old(self).iter(),
            final(self).func() == old(self).func(),
            final(self).sub() == old(self).sub(),
    {
        self.inner.iter_mut().held_mut()
    }

    /// The current sub-iterator, for the driver to poll.
    pub fn sub_mut(&mut self) -> (r: &mut S)
        requires
            old(self).sub() is Some,
        ensures
            *r == old(self).sub()->0,
            final(self).sub() == Some(*final(r)),
            final(self).iter() == old(self).iter(),
            final(self).func() == old(self).func(),
            final(self).future() == old(self).future(),
    {
        self.inner.held_mut()
    }

    /// The first step of a poll: the sub-iterator, else the future, else
    /// the underlying iterator.
    pub fn resume<U>(&self) -> (r: FlatMapAsyncStep<Option<U>>)
        ensures
            r == flat_map_async_resume::<Fut, S, Option<U>>(self.future(), self.sub()),
            r == (if self.sub() is Some {
                FlatMapAsyncStep::<Option<U>>::PollSub
            } else if self.future() is Some {
                FlatMapAsyncStep::<Option<U>>::PollFuture
            } else {
                FlatMapAsyncStep::<Option<U>>::PollIter
            }),
    {
        match self.inner.resume::<U>() {
            Step::PollHeld => FlatMapAsyncStep::PollSub,
            _ => match self.inner.iter_ref().resume::<S>() {
                Step::PollHeld => FlatMapAsyncStep::PollFuture,
                _ => FlatMapAsyncStep::PollIter,
            },
        }
    }

    /// The step to take after the underlying iterator answered `polled`:
    /// an item starts its future.
    pub fn on_iter<T, U>(&mut self, polled: Poll<Option<T>>) -> (r: FlatMapAsyncStep<Option<U>>) where
        F: FnMut(T) -> Fut,

        requires
            old(self).sub() is None,
            old(self).future() is None,
            polled matches Poll::Ready(Some(x)) ==> call_requires(old(self).func(), (x,)),
        ensures
            final(self).wf(),
            final(self).iter() == old(self).iter(),
            final(self).func() == old(self).func(),
            (final(self).future(), r) == flat_map_async_on_iter::<T, Fut, U>(polled, final(self).future()->0),
            final(self).sub() is None,
            match polled {
                Poll::Pending => r == FlatMapAsyncStep::<Option<U>>::Finish(Poll::Pending)
                    && final(self).future() is None,
                Poll::Ready(None) => r == FlatMapAsyncStep::<Option<U>>::Finish(Poll::Ready(None))
                    && final(self).future() is None,
                Poll::Ready(Some(x)) => r == FlatMapAsyncStep::<Option<U>>::PollFuture
                    && (final(self).future() matches Some(fut) && call_ensures(old(self).func(), (x,), fut)),
            },
    {
        match self.inner.iter_mut().on_iter::<T, S>(polled) {
            Step::PollHeld => FlatMapAsyncStep::PollFuture,
            Step::Finish(Poll::Pending) => FlatMapAsyncStep::Finish(Poll::Pending),
            Step::Finish(Poll::Ready(_)) => FlatMapAsyncStep::Finish(Poll::Ready(None)),
            Step::PollIter => vstd::pervasive::unreached(),
        }
    }

    /// The step to take after the future in flight answered `polled`: the
    /// sub-iterator it resolved to is polled next.
    pub fn on_future<U>(&mut self, polled: Poll<S>) -> (r: FlatMapAsyncStep<Option<U>>)
        requires
            old(self).sub() is None,
            old(self).future() is Some,
        ensures
            final(self).wf(),
            final(self).iter() == old(self).iter(),
            final(self).func() == old(self).func(),
            (final(self).future(), final(self).sub(), r) == flat_map_async_on_future::<Fut, S, U>(old(self).future(), polled),
            match polled {
                Poll::Pending => r == FlatMapAsyncStep::<Option<U>>::Finish(Poll::Pending)
                    && final(self).future() == old(self).future() && final(self).sub() is None,
                Poll::Ready(s) => r == FlatMapAsyncStep::<Option<U>>::PollSub && final(self).future() is None
                    && final(self).sub() == Some(s),
            },
    {
        match self.inner.iter_mut().on_held(polled) {
            Step::Finish(Poll::Ready(sub)) => match self.inner.on_iter::<U>(Poll::Ready(sub)) {
                Step::PollHeld => FlatMapAsyncStep::PollSub,
                _ => vstd::pervasive::unreached(),
            },
            Step::Finish(Poll::Pending) => FlatMapAsyncStep::Finish(Poll::Pending),
            _ => vstd::pervasive::unreached(),
        }
    }

    /// The step to take after the current sub-iterator answered `polled`:
    /// its items are yielded, its end asks the underlying iterator again.
    pub fn on_sub<U>(&mut self, polled: Poll<Option<U>>) -> (r: FlatMapAsyncStep<Option<U>>)
        requires
            old(self).wf(),
            old(self).sub() is Some,
        ensures
            final(self).wf(),
            final(self).iter() == old(self).iter(),
            final(self).func() == old(self).func(),
            (final(self).sub(), r) == flat_map_async_on_sub(old(self).sub(), polled),
            final(self).future() is None,
            r == (match flatten_on_held_step(polled) {
                Step::Finish(p) => FlatMapAsyncStep::Finish(p),
                _ => FlatMapAsyncStep::<Option<U>>::PollIter,
            }),
            final(self).sub() == (if polled == Poll::<Option<U>>::Ready(None) {
                None
            } else {
                old(self).sub()
            }),
    {
        match self.inner.on_held(polled) {
            Step::Finish(p) => FlatMapAsyncStep::Finish(p),
            _ => FlatMapAsyncStep::PollIter,
        }
    }

    /// Ended when the current sub-iterator, else the future in flight, else
    /// the underlying iterator, has ended.
    pub fn is_terminated(
        &self,
        iter_terminated: bool,
        future_terminated: bool,
        sub_terminated: bool,
    ) -> (r: bool)
        ensures
            r == (if self.sub() is Some {
                sub_terminated
            } else if self.future() is Some {
                future_terminated
            } else {
                iter_terminated
            }),
    {
        let map_terminated = self.inner.iter_ref().is_terminated(iter_terminated, future_terminated);
        self.inner.is_terminated(map_terminated, sub_terminated)
    }
}

} // verus!
