//! `FoldAsync`: folds the items with an asynchronous function.

use vstd::prelude::*;
use crate::async_iter::states::FoldState;
use crate::poll::{Poll, Step};

verus! {

/// The state and step of `FoldAsync` after the underlying iterator answered
/// `polled`, where `fut` is the future the function returns for the
/// accumulator's value and the item, and `got` is the value the getter
/// returns at the end with what it leaves of the accumulator.
pub open spec fn fold_async_on_iter<T, Fut, X>(
    state: FoldState<T, Fut>,
    polled: Poll<Option<X>>,
    fut: Fut,
    got: (T, T),
) -> (FoldState<T, Fut>, Step<T>) {
    match polled {
        Poll::Pending => (state, Step::Finish(Poll::Pending)),
        Poll::Ready(None) => (FoldState::Accumulate(got.1), Step::Finish(Poll::Ready(got.0))),
        Poll::Ready(Some(_)) => (FoldState::Future(fut), Step::PollHeld),
    }
}

/// The first step of a poll of `FoldAsync`: the future in flight, else the iterator.
pub open spec fn fold_async_resume<T, Fut>(state: FoldState<T, Fut>) -> Step<T> {
    if state is Future {
        Step::PollHeld
    } else {
        Step::PollIter
    }
}

/// The state and step of `FoldAsync` after the future in flight answered `polled`.
pub open spec fn fold_async_on_held<T, Fut>(state: FoldState<T, Fut>, polled: Poll<T>) -> (
    FoldState<T, Fut>,
    Step<T>,
) {
    match polled {
        Poll::Pending => (state, Step::Finish(Poll::Pending)),
        Poll::Ready(acc) => (FoldState::Accumulate(acc), Step::PollIter),
    }
}

/// A future of `init` folded with the items of `iter`: each step's
/// accumulator is what the future `f(getter(&mut acc), x)` resolves to, and
/// the answer is `getter(&mut acc)` on the last one.
#[derive(Clone)]
pub struct FoldAsync<I, T, G, F, Fut> {
    iter: I,
    getter: G,
    state: FoldState<T, Fut>,
    f: F,
}

impl<I, T, G, F, Fut> FoldAsync<I, T, G, F, Fut> {
    pub closed spec fn iter(&self) -> I {
        self.iter
    }

    /// The accumulator, or the future computing the next one.
    pub closed spec fn state(&self) -> FoldState<T, Fut> {
        self.state
    }

    pub closed spec fn func(&self) -> F {
        self.f
    }

    /// The function that gives the accumulator's value from it.
    pub closed spec fn getter(&self) -> G {
        self.getter
    }

    pub fn new(iter: I, init: T, getter: G, f: F) -> (r: Self)
        ensures
            r.iter() == iter,
            r.state() == FoldState::<T, Fut>::Accumulate(init),
            r.getter() == getter,
            r.func() == f,
    {
        FoldAsync { iter, getter, state: FoldState::Accumulate(init), f }
    }

    /// The underlying async iterator, for the driver to poll.
    pub fn iter_mut(&mut self) -> (r: &mut I)
        ensures
            *r == old(self).iter(),
            final(self).iter() == *final(r),
            final(self).state() == old(self).state(),
            final(self).func() == old(self).func(),
            final(self).getter() == old(self).getter(),
    {
        &mut self.iter
    }

    /// The underlying async iterator, for the driver to read.
    pub fn iter_ref(&self) -> (r: &I)
        ensures
            *r == self.iter(),
    {
        &self.iter
    }

    /// The future in flight, for the driver to poll.
    pub fn held_mut(&mut self) -> (r: &mut Fut)
        requires
            old(self).state() is Future,
        ensures
            *r == old(self).state()->Future_0,
            final(self).state() == FoldState::<T, Fut>::Future(*final(r)),
            final(self).iter() == old(self).iter(),
            final(self).func() == old(self).func(),
            final(self).getter() == old(self).getter(),
    {
        self.state.future_mut()
    }

    /// The first step of a poll: the future in flight, else the iterator.
    pub fn resume(&self) -> (r: Step<T>)
        ensures
            r == fold_async_resume(self.state()),
    {
        match self.state.get_future() {
            Some(_) => Step::PollHeld,
            None => Step::PollIter,
        }
    }

    /// Calls the getter on the accumulator; the value it returns.
    fn get(&mut self) -> (v: T) where G: FnMut(&mut T) -> T
        requires
            old(self).state() is Accumulate,
            forall|a: &mut T|
                #![trigger call_requires(old(self).getter(), (a,))]
                *a == old(self).state()->Accumulate_0 ==> call_requires(old(self).getter(), (a,)),
        ensures
            final(self).iter() == old(self).iter(),
            final(self).func() == old(self).func(),
            final(self).getter() == old(self).getter(),
            final(self).state() is Accumulate,
            exists|a: &mut T|
                #![trigger call_ensures(old(self).getter(), (a,), v)]
                *a == old(self).state()->Accumulate_0 && *final(a) == final(self).state()->Accumulate_0
                    && call_ensures(old(self).getter(), (a,), v),
    {
        match &mut self.state {
            FoldState::Accumulate(acc) => {
                assert(call_requires(old(self).getter(), (acc,)));
                (self.getter)(acc)
            },
            FoldState::Future(_) => vstd::pervasive::unreached(),
        }
    }

    /// The step to take after the underlying iterator answered `polled`:
    /// the end answers the accumulator's value, an item starts the next
    /// future on it.
    pub fn on_iter<X>(&mut self, polled: Poll<Option<X>>) -> (r: Step<T>) where
        G: FnMut(&mut T) -> T,
        F: FnMut(T, X) -> Fut,

        requires
            old(self).state() is Accumulate,
            polled is Ready ==> forall|a: &mut T|
                #![trigger call_requires(old(self).getter(), (a,))]
                *a == old(self).state()->Accumulate_0 ==> call_requires(old(self).getter(), (a,)),
            polled matches Poll::Ready(Some(x)) ==> forall|a: &mut T, v: T|
                #![trigger call_ensures(old(self).getter(), (a,), v)]
                *a == old(self).state()->Accumulate_0 && call_ensures(old(self).getter(), (a,), v)
                    ==> call_requires(old(self).func(), (v, x)),
        ensures
            final(self).iter() == old(self).iter(),
            final(self).func() == old(self).func(),
            final(self).getter() == old(self).getter(),
            (final(self).state(), r) == fold_async_on_iter(
                old(self).state(),
                polled,
                final(self).state()->Future_0,
                (r->Finish_0->Ready_0, final(self).state()->Accumulate_0),
            ),
            match polled {
                Poll::Pending => r == Step::<T>::Finish(Poll::Pending) && final(self).state()
                    == old(self).state(),
                Poll::Ready(None) => r matches Step::Finish(Poll::Ready(v)) && final(self).state() is Accumulate
                    && exists|a: &mut T|
                    #![trigger call_ensures(old(self).getter(), (a,), v)]
                    *a == old(self).state()->Accumulate_0 && *final(a) == final(self).state()->Accumulate_0
                        && call_ensures(old(self).getter(), (a,), v),
                Poll::Ready(Some(x)) => r == Step::<T>::PollHeld && final(self).state() is Future
                    && exists|a: &mut T, v: T|
                    #![trigger call_ensures(old(self).getter(), (a,), v)]
                    *a == old(self).state()->Accumulate_0 && call_ensures(old(self).getter(), (a,), v)
                        && call_ensures(old(self).func(), (v, x), final(self).state()->Future_0),
            },
    {
        match polled {
            Poll::Pending => Step::Finish(Poll::Pending),
            Poll::Ready(None) => {
                let value = self.get();
                Step::Finish(Poll::Ready(value))
            },
            Poll::Ready(Some(item)) => {
                let value = self.get();
                let fut = (self.f)(value, item);
                self.state = FoldState::Future(fut);
                Step::PollHeld
            },
        }
    }

    /// The step to take after the future in flight answered `polled`:
    /// its output is the next accumulator.
    pub fn on_held(&mut self, polled: Poll<T>) -> (r: Step<T>)
        requires
            old(self).state() is Future,
        ensures
            final(self).iter() == old(self).iter(),
            final(self).func() == old(self).func(),
            final(self).getter() == old(self).getter(),
            (final(self).state(), r) == fold_async_on_held(old(self).state(), polled),
            match polled {
                Poll::Pending => r == Step::<T>::Finish(Poll::Pending) && final(self).state()
                    == old(self).state(),
                Poll::Ready(acc) => r == Step::<T>::PollIter && final(self).state()
                    == FoldState::<T, Fut>::Accumulate(acc),
            },
    {
        match polled {
            Poll::Pending => Step::Finish(Poll::Pending),
            Poll::Ready(acc) => {
                self.state = FoldState::Accumulate(acc);
                Step::PollIter
            },
        }
    }

    /// The future in flight, if any, for the driver to read.
    pub fn held_ref(&self) -> (r: Option<&Fut>)
        ensures
            r == (match self.state() {
                FoldState::Future(fut) => Some(&fut),
                FoldState::Accumulate(_) => None,
            }),
    {
        self.state.get_future()
    }

    /// Ended when the future in flight, or else the underlying iterator, has ended.
    pub fn is_terminated(&self, iter_terminated: bool, held_terminated: bool) -> (r: bool)
        ensures
            r == (if self.state() is Future {
                held_terminated
            } else {
                iter_terminated
            }),
    {
        match self.state.get_future() {
            Some(_) => held_terminated,
            None => iter_terminated,
        }
    }
}

} // verus!
