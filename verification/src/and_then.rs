//! `AndThen` for futures: chains a fallible function after a successful output.

use vstd::prelude::*;
use crate::poll::Poll;

verus! {

/// Resolves to `f(v)` when `fut` resolves to `Ok(v)`, and to `Err(e)` when
/// it resolves to `Err(e)`.
#[derive(Clone)]
pub struct AndThen<Fut, F> {
    fut: Fut,
    f: F,
}

impl<Fut, F> AndThen<Fut, F> {
    pub closed spec fn fut(&self) -> Fut {
        self.fut
    }

    pub closed spec fn func(&self) -> F {
        self.f
    }

    pub fn new(fut: Fut, f: F) -> (r: Self)
        ensures
            r.fut() == fut,
            r.func() == f,
    {
        AndThen { fut, f }
    }

    /// The inner future, for the driver to poll.
    pub fn fut_mut(&mut self) -> (r: &mut Fut)
        ensures
            *r == old(self).fut(),
            final(self).fut() == *final(r),
            final(self).func() == old(self).func(),
    {
        &mut self.fut
    }

    /// Answers one poll from the inner future's answer `polled`.
    pub fn on_fut<U, V, E>(&mut self, polled: Poll<Result<U, E>>) -> (r: Poll<Result<V, E>>) where
        F: FnMut(U) -> Result<V, E>,

        requires
            polled matches Poll::Ready(Ok(u)) ==> call_requires(old(self).func(), (u,)),
        ensures
            final(self).fut() == old(self).fut(),
            final(self).func() == old(self).func(),
            match polled {
                Poll::Pending => r is Pending,
                Poll::Ready(Ok(u)) => r matches Poll::Ready(out) && call_ensures(old(self).func(), (u,), out),
                Poll::Ready(Err(e)) => r == Poll::<Result<V, E>>::Ready(Err(e)),
            },
    {
        match polled {
            Poll::Pending => Poll::Pending,
            Poll::Ready(Ok(value)) => Poll::Ready((self.f)(value)),
            Poll::Ready(Err(error)) => Poll::Ready(Err(error)),
        }
    }

    /// Ended when the inner future has ended.
    pub fn is_terminated(&self, fut_terminated: bool) -> (r: bool)
        ensures
            r == fut_terminated,
    {
        fut_terminated
    }
}

} // verus!
