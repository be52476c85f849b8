//! `TryForEach`: runs a fallible function on every item until one breaks.

use vstd::prelude::*;
use core::ops::ControlFlow;
use crate::poll::{Poll, Step};

verus! {

/// The step of `TryForEach` on the underlying answer `polled`, where `out`
/// is what `f` returns for the item it carries.
pub open spec fn try_for_each_step<B, X>(polled: Poll<Option<X>>, out: ControlFlow<B, ()>) -> Step<ControlFlow<B, ()>> {
    match polled {
        Poll::Pending => Step::Finish(Poll::Pending),
        Poll::Ready(None) => Step::Finish(Poll::Ready(ControlFlow::Continue(()))),
        Poll::Ready(Some(_)) => match out {
            ControlFlow::Continue(_) => Step::PollIter,
            ControlFlow::Break(b) => Step::Finish(Poll::Ready(ControlFlow::Break(b))),
        },
    }
}

/// What `f` returned, as a step of `TryForEach` shows it.
pub open spec fn step_flow<B>(step: Step<ControlFlow<B, ()>>) -> ControlFlow<B, ()> {
    match step {
        Step::Finish(Poll::Ready(ControlFlow::Break(b))) => ControlFlow::Break(b),
        _ => ControlFlow::Continue(()),
    }
}

/// A future that calls `f(x)` for every item `x` of `iter` in turn,
/// stopping at the first `Break`.
#[derive(Clone)]
pub struct TryForEach<I, F> {
    iter: I,
    f: F,
}

impl<I, F> TryForEach<I, F> {
    pub closed spec fn iter(&self) -> I {
        self.iter
    }

    pub closed spec fn func(&self) -> F {
        self.f
    }

    pub fn new(iter: I, f: F) -> (r: Self)
        ensures
            r.iter() == iter,
            r.func() == f,
    {
        TryForEach { iter, f }
    }

    /// The underlying async iterator, for the driver to poll.
    pub fn iter_mut(&mut self) -> (r: &mut I)
        ensures
            *r == old(self).iter(),
            final(self).iter() == *final(r),
            final(self).func() == old(self).func(),
    {
        &mut self.iter
    }

    /// The underlying async iterator, for the driver to read.
    pub fn iter_ref(&self) -> (r: &I)
        ensures
            *r == self.iter(),
    {
        &self.iter
    }

    /// The step to take after the underlying iterator answered `polled`.
    pub fn on_iter<X, B>(&mut self, polled: Poll<Option<X>>) -> (r: Step<ControlFlow<B, ()>>) where
        F: FnMut(X) -> ControlFlow<B, ()>,

        requires
            polled matches Poll::Ready(Some(x)) ==> call_requires(old(self).func(), (x,)),
        ensures
            final(self).iter() == old(self).iter(),
            final(self).func() == old(self).func(),
            match polled {
                Poll::Ready(Some(x)) => call_ensures(old(self).func(), (x,), step_flow(r)) && r
                    == try_for_each_step(polled, step_flow(r)),
                _ => r == try_for_each_step(polled, ControlFlow::<B, ()>::Continue(())),
            },
            polled is Pending ==> r == Step::<ControlFlow<B, ()>>::Finish(Poll::Pending),
            polled == Poll::<Option<X>>::Ready(None) ==> r == Step::<ControlFlow<B, ()>>::Finish(
                Poll::Ready(ControlFlow::Continue(())),
            ),
            polled matches Poll::Ready(Some(x)) ==> {
                ||| (r is PollIter && call_ensures(
                    old(self).func(),
                    (x,),
                    ControlFlow::<B, ()>::Continue(()),
                ))
                ||| (r matches Step::Finish(Poll::Ready(ControlFlow::Break(b))) && call_ensures(
                    old(self).func(),
                    (x,),
                    ControlFlow::<B, ()>::Break(b),
                ))
            },
    {
        match polled {
            Poll::Pending => Step::Finish(Poll::Pending),
            Poll::Ready(None) => Step::Finish(Poll::Ready(ControlFlow::Continue(()))),
            Poll::Ready(Some(item)) => {
                let flow = (self.f)(item);
                match flow {
                    ControlFlow::Continue(u) => {
                        assert(flow == ControlFlow::<B, ()>::Continue(u));
                        Step::PollIter
                    },
                    ControlFlow::Break(b) => Step::Finish(Poll::Ready(ControlFlow::Break(b))),
                }
            },
        }
    }
}

} // verus!
