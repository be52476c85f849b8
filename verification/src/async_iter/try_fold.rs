//! `TryFold` and `Fold`: fold the items with a synchronous function.

use vstd::prelude::*;
use core::ops::ControlFlow;
use crate::poll::{Poll, Step};

verus! {

/// The accumulator and step of `TryFold` on the underlying answer `polled`
/// from the accumulator `acc`, where `out` is what `f` returns for `acc`
/// and the item `polled` carries.
pub open spec fn try_fold_step<B, T, X>(acc: T, polled: Poll<Option<X>>, out: ControlFlow<B, T>) -> (
    T,
    Step<ControlFlow<B, T>>,
) {
    match polled {
        Poll::Pending => (acc, Step::Finish(Poll::Pending)),
        Poll::Ready(None) => (acc, Step::Finish(Poll::Ready(ControlFlow::Continue(acc)))),
        Poll::Ready(Some(_)) => match out {
            ControlFlow::Continue(next) => (next, Step::PollIter),
            ControlFlow::Break(b) => (acc, Step::Finish(Poll::Ready(ControlFlow::Break(b)))),
        },
    }
}

/// What `f` returned, as the step of `TryFold` and its accumulator `acc`
/// after it show it.
pub open spec fn fold_flow<B, T>(step: Step<ControlFlow<B, T>>, acc: T) -> ControlFlow<B, T> {
    match step {
        Step::Finish(Poll::Ready(ControlFlow::Break(b))) => ControlFlow::Break(b),
        _ => ControlFlow::Continue(acc),
    }
}

/// A future of `init` folded with the items of `iter` by `f`, stopping at
/// the first `Break`.
#[derive(Clone)]
pub struct TryFold<I, T, F> {
    iter: I,
    acc: T,
    f: F,
}

impl<I, T, F> TryFold<I, T, F> {
    pub closed spec fn iter(&self) -> I {
        self.iter
    }

    pub closed spec fn acc(&self) -> T {
        self.acc
    }

    pub closed spec fn func(&self) -> F {
        self.f
    }

    pub fn new(iter: I, init: T, f: F) -> (r: Self)
        ensures
            r.iter() == iter,
            r.acc() == init,
            r.func() == f,
    {
        TryFold { iter, acc: init, f }
    }

    /// The underlying async iterator, for the driver to poll.
    pub fn iter_mut(&mut self) -> (r: &mut I)
        ensures
            *r == old(self).iter(),
            final(self).iter() == *final(r),
            final(self).acc() == old(self).acc(),
            final(self).func() == old(self).func(),
    {
        &mut self.iter
    }

    /// The underlying async iterator, for the driver to read.
    pub fn iter_ref(&self) -> (r: &I)
        ensures
            *r == self.iter(),
    {
        &self.iter
    }

    /// The step to take after the underlying iterator answered `polled`.
    pub fn on_iter<X, B>(&mut self, polled: Poll<Option<X>>) -> (r: Step<ControlFlow<B, T>>) where
        T: Copy,
        F: FnMut(T, X) -> ControlFlow<B, T>,

        requires
            polled matches Poll::Ready(Some(x)) ==> call_requires(old(self).func(), (old(self).acc(), x)),
        ensures
            final(self).iter() == old(self).iter(),
            final(self).func() == old(self).func(),
            match polled {
                Poll::Ready(Some(x)) => call_ensures(old(self).func(), (old(self).acc(), x), fold_flow(r, final(self).acc()))
                    && (final(self).acc(), r) == try_fold_step(old(self).acc(), polled, fold_flow(r, final(self).acc())),
                _ => (final(self).acc(), r) == try_fold_step(
                    old(self).acc(),
                    polled,
                    ControlFlow::<B, T>::Continue(old(self).acc()),
                ),
            },
            match polled {
                Poll::Pending => r == Step::<ControlFlow<B, T>>::Finish(Poll::Pending)
                    && final(self).acc() == old(self).acc(),
                Poll::Ready(None) => r == Step::<ControlFlow<B, T>>::Finish(
                    Poll::Ready(ControlFlow::Continue(old(self).acc())),
                ) && final(self).acc() == old(self).acc(),
                Poll::Ready(Some(x)) => match r {
                    Step::PollIter => call_ensures(
                        old(self).func(),
                        (old(self).acc(), x),
                        ControlFlow::<B, T>::Continue(final(self).acc()),
                    ),
                    Step::Finish(Poll::Ready(ControlFlow::Break(b))) => call_ensures(
                        old(self).func(),
                        (old(self).acc(), x),
                        ControlFlow::<B, T>::Break(b),
                    ) && final(self).acc() == old(self).acc(),
                    _ => false,
                },
            },
    {
        match polled {
            Poll::Pending => Step::Finish(Poll::Pending),
            Poll::Ready(None) => Step::Finish(Poll::Ready(ControlFlow::Continue(self.acc))),
            Poll::Ready(Some(item)) => match (self.f)(self.acc, item) {
                ControlFlow::Continue(acc) => {
                    self.acc = acc;
                    Step::PollIter
                },
                ControlFlow::Break(b) => Step::Finish(Poll::Ready(ControlFlow::Break(b))),
            },
        }
    }
}

/// The accumulator and step of `Fold` on the underlying answer `polled`
/// from the accumulator `acc`, where `next` is what `f` returns for the
/// accumulator's value and the item `polled` carries, and `got` is the
/// value the getter returns at the end with what it leaves of `acc`.
pub open spec fn fold_step<T, X>(acc: T, polled: Poll<Option<X>>, next: T, got: (T, T)) -> (T, Step<T>) {
    match polled {
        Poll::Pending => (acc, Step::Finish(Poll::Pending)),
        Poll::Ready(None) => (got.1, Step::Finish(Poll::Ready(got.0))),
        Poll::Ready(Some(_)) => (next, Step::PollIter),
    }
}

/// A future of `init` folded with the items of `iter`: each step's
/// accumulator is `f(getter(&mut acc), x)`, and the answer is
/// `getter(&mut acc)` on the last one.
#[derive(Clone)]
pub struct Fold<I, T, G, F> {
    iter: I,
    acc: T,
    getter: G,
    f: F,
}

impl<I, T, G, F> Fold<I, T, G, F> {
    pub closed spec fn iter(&self) -> I {
        self.iter
    }

    pub closed spec fn acc(&self) -> T {
        self.acc
    }

    pub closed spec fn func(&self) -> F {
        self.f
    }

    /// The function that gives the accumulator's value from it.
    pub closed spec fn getter(&self) -> G {
        self.getter
    }

    pub fn new(iter: I, init: T, getter: G, f: F) -> (r: Self)
        ensures
            r.iter() == iter,
            r.acc() == init,
            r.getter() == getter,
            r.func() == f,
    {
        Fold { iter, acc: init, getter, f }
    }

    /// The underlying async iterator, for the driver to poll.
    pub fn iter_mut(&mut self) -> (r: &mut I)
        ensures
            *r == old(self).iter(),
            final(self).iter() == *final(r),
            final(self).acc() == old(self).acc(),
            final(self).getter() == old(self).getter(),
            final(self).func() == old(self).func(),
    {
        &mut self.iter
    }

    /// The underlying async iterator, for the driver to read.
    pub fn iter_ref(&self) -> (r: &I)
        ensures
            *r == self.iter(),
    {
        &self.iter
    }

    /// Calls the getter on the accumulator; the value it returns.
    fn get(&mut self) -> (v: T) where G: FnMut(&mut T) -> T
        requires
            forall|a: &mut T|
                #![trigger call_requires(old(self).getter(), (a,))]
                *a == old(self).acc() ==> call_requires(old(self).getter(), (a,)),
        ensures
            final(self).iter() == old(self).iter(),
            final(self).func() == old(self).func(),
            final(self).getter() == old(self).getter(),
            exists|a: &mut T|
                #![trigger call_ensures(old(self).getter(), (a,), v)]
                *a == old(self).acc() && *final(a) == final(self).acc() && call_ensures(old(self).getter(), (a,), v),
    {
        let acc = &mut self.acc;
        assert(call_requires(old(self).getter(), (acc,)));
        (self.getter)(acc)
    }

    /// The step to take after the underlying iterator answered `polled`:
    /// an item is folded in, the end answers the accumulator's value.
    pub fn on_iter<X>(&mut self, polled: Poll<Option<X>>) -> (r: Step<T>) where
        G: FnMut(&mut T) -> T,
        F: FnMut(T, X) -> T,

        requires
            polled is Ready ==> forall|a: &mut T|
                #![trigger call_requires(old(self).getter(), (a,))]
                *a == old(self).acc() ==> call_requires(old(self).getter(), (a,)),
            polled matches Poll::Ready(Some(x)) ==> forall|a: &mut T, v: T|
                #![trigger call_ensures(old(self).getter(), (a,), v)]
                *a == old(self).acc() && call_ensures(old(self).getter(), (a,), v)
                    ==> call_requires(old(self).func(), (v, x)),
        ensures
            final(self).iter() == old(self).iter(),
            final(self).func() == old(self).func(),
            final(self).getter() == old(self).getter(),
            (final(self).acc(), r) == fold_step(
                old(self).acc(),
                polled,
                final(self).acc(),
                (r->Finish_0->Ready_0, final(self).acc()),
            ),
            polled == Poll::<Option<X>>::Ready(None) ==> (r matches Step::Finish(Poll::Ready(v)) && exists|a: &mut T|
                #![trigger call_ensures(old(self).getter(), (a,), v)]
                *a == old(self).acc() && *final(a) == final(self).acc() && call_ensures(old(self).getter(), (a,), v)),
            polled matches Poll::Ready(Some(x)) ==> exists|a: &mut T, v: T|
                #![trigger call_ensures(old(self).getter(), (a,), v)]
                *a == old(self).acc() && call_ensures(old(self).getter(), (a,), v)
                    && call_ensures(old(self).func(), (v, x), final(self).acc()),
    {
        match polled {
            Poll::Pending => Step::Finish(Poll::Pending),
            Poll::Ready(None) => {
                let value = self.get();
                Step::Finish(Poll::Ready(value))
            },
            Poll::Ready(Some(item)) => {
                let value = self.get();
                self.acc = (self.f)(value, item);
                Step::PollIter
            },
        }
    }
}

} // verus!
