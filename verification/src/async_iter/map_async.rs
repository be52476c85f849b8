//! `MapAsync`: maps every item with an asynchronous function.

use vstd::prelude::*;
use crate::poll::{Poll, Step, SizeHint};
use crate::async_iter::and_then_async::held_output_on_held;

verus! {

/// The future held and the step after the underlying iterator answered
/// `polled`, where `fut` is the future the function returns for an item:
/// an item starts its future, the rest is passed on.
pub open spec fn held_on_iter<T, V, Fut>(polled: Poll<Option<T>>, fut: Fut) -> (Option<Fut>, Step<Option<V>>) {
    match polled {
        Poll::Pending => (None, Step::Finish(Poll::Pending)),
        Poll::Ready(None) => (None, Step::Finish(Poll::Ready(None))),
        Poll::Ready(Some(_)) => (Some(fut), Step::PollHeld),
    }
}

/// Yields what the future `f(x)` resolves to, for every item `x` of `iter`.
///
/// `f` returns the future itself; one future is in flight at a time.
#[derive(Clone)]
pub struct MapAsync<I, F, Fut> {
    iter: I,
    state: Option<Fut>,
    f: F,
}

impl<I, F, Fut> MapAsync<I, F, Fut> {
    pub closed spec fn iter(&self) -> I {
        self.iter
    }

    /// The future in flight, if any.
    pub closed spec fn held(&self) -> Option<Fut> {
        self.state
    }

    pub closed spec fn func(&self) -> F {
        self.f
    }

    pub fn new(iter: I, f: F) -> (r: Self)
        ensures
            r.iter() == iter,
            r.held() is None,
            r.func() == f,
    {
        MapAsync { iter, state: None, f }
    }

    /// The underlying async iterator, for the driver to poll.
    pub fn iter_mut(&mut self) -> (r: &mut I)
        ensures
            *r == old(self).iter(),
            final(self).iter() == *final(r),
            final(self).held() == old(self).held(),
            final(self).func() == old(self).func(),
    {
        &mut self.iter
    }

    /// The underlying async iterator, for the driver to read.
    pub fn iter_ref(&self) -> (r: &I)
        ensures
            *r == self.iter(),
    {
        &self.iter
    }

    /// The future in flight, for the driver to poll.
    pub fn held_mut(&mut self) -> (r: &mut Fut)
        requires
            old(self).held() is Some,
        ensures
            *r == old(self).held()->0,
            final(self).held() == Some(*final(r)),
            final(self).iter() == old(self).iter(),
            final(self).func() == old(self).func(),
    {
        match &mut self.state {
            Some(fut) => fut,
            None => vstd::pervasive::unreached(),
        }
    }

    /// The future in flight, if any, for the driver to read.
    pub fn held_ref(&self) -> (r: Option<&Fut>)
        ensures
            r == (match self.held() {
                Some(fut) => Some(&fut),
                None => None,
            }),
    {
        match &self.state {
            Some(fut) => Some(fut),
            None => None,
        }
    }

    /// The first step of a poll: the future in flight, else the iterator.
    pub fn resume<U>(&self) -> (r: Step<Option<U>>)
        ensures
            r == (if self.held() is Some {
                Step::<Option<U>>::PollHeld
            } else {
                Step::<Option<U>>::PollIter
            }),
    {
        if self.state.is_some() {
            Step::PollHeld
        } else {
            Step::PollIter
        }
    }

    /// The step to take after the underlying iterator answered `polled`:
    /// an item starts its future.
    pub fn on_iter<T, U>(&mut self, polled: Poll<Option<T>>) -> (r: Step<Option<U>>) where
        F: FnMut(T) -> Fut,

        requires
            old(self).held() is None,
            polled matches Poll::Ready(Some(x)) ==> call_requires(old(self).func(), (x,)),
        ensures
            final(self).iter() == old(self).iter(),
            final(self).func() == old(self).func(),
            (final(self).held(), r) == held_on_iter::<T, U, Fut>(polled, final(self).held()->0),
            match polled {
                Poll::Pending => r == Step::<Option<U>>::Finish(Poll::Pending)
                    && final(self).held() is None,
                Poll::Ready(None) => r == Step::<Option<U>>::Finish(Poll::Ready(None))
                    && final(self).held() is None,
                Poll::Ready(Some(x)) => r == Step::<Option<U>>::PollHeld && (final(self).held() matches Some(fut)
                    && call_ensures(old(self).func(), (x,), fut)),
            },
    {
        match polled {
            Poll::Pending => Step::Finish(Poll::Pending),
            Poll::Ready(None) => Step::Finish(Poll::Ready(None)),
            Poll::Ready(Some(item)) => {
                self.state = Some((self.f)(item));
                Step::PollHeld
            },
        }
    }

    /// The step to take after the future in flight answered `polled`:
    /// its output is the next item.
    pub fn on_held<U>(&mut self, polled: Poll<U>) -> (r: Step<Option<U>>)
        requires
            old(self).held() is Some,
        ensures
            final(self).iter() == old(self).iter(),
            final(self).func() == old(self).func(),
            (final(self).held(), r) == held_output_on_held(old(self).held(), polled),
            match polled {
                Poll::Pending => r == Step::<Option<U>>::Finish(Poll::Pending) && final(self).held()
                    == old(self).held(),
                Poll::Ready(y) => r == Step::<Option<U>>::Finish(Poll::Ready(Some(y))) && final(self).held() is None,
            },
    {
        match polled {
            Poll::Pending => Step::Finish(Poll::Pending),
            Poll::Ready(item) => {
                self.state = None;
                Step::Finish(Poll::Ready(Some(item)))
            },
        }
    }

    /// The underlying hint, counting the item the future in flight will yield.
    pub fn size_hint(&self, iter_hint: SizeHint) -> (r: SizeHint)
        ensures
            r == crate::poll::held_hint(iter_hint, self.held() is Some),
            r == (if self.held() is Some {
                crate::poll::add_one_spec(iter_hint)
            } else {
                iter_hint
            }),
    {
        if self.state.is_some() {
            crate::poll::hint_add_one(iter_hint)
        } else {
            iter_hint
        }
    }

    /// Ended when the future in flight, or else the underlying iterator, has ended.
    pub fn is_terminated(&self, iter_terminated: bool, held_terminated: bool) -> (r: bool)
        ensures
            r == (if self.held() is Some {
                held_terminated
            } else {
                iter_terminated
            }),
    {
        if self.state.is_some() {
            held_terminated
        } else {
            iter_terminated
        }
    }
}

} // verus!
