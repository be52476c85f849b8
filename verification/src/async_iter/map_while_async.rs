//! `MapWhileAsync`: maps items with an asynchronous function while it answers `Some`.

use vstd::prelude::*;
use crate::poll::{Poll, Step, SizeHint};
use crate::async_iter::map_async::held_on_iter;

verus! {

/// The future held and the step after the future in flight answered
/// `polled`: its output, `Some` or `None`, is the answer.
pub open spec fn held_item_on_held<V, Fut>(held: Option<Fut>, polled: Poll<Option<V>>) -> (
    Option<Fut>,
    Step<Option<V>>,
) {
    match polled {
        Poll::Pending => (held, Step::Finish(Poll::Pending)),
        Poll::Ready(y) => (None, Step::Finish(Poll::Ready(y))),
    }
}

/// Yields what the future `f(x)` resolves to, for every item `x` of `iter`;
/// a future resolving to `None` ends the answer.
#[derive(Clone)]
pub struct MapWhileAsync<I, F, Fut> {
    iter: I,
    state: Option<Fut>,
    f: F,
}

impl<I, F, Fut> MapWhileAsync<I, F, Fut> {
    pub closed spec fn iter(&self) -> I {
        self.iter
    }

    /// The future in flight, if any.
    pub closed spec fn held(&self) -> Option<Fut> {
        self.state
    }

    pub closed spec fn func(&self) -> F {
        self.f
    }

    pub fn new(iter: I, f: F) -> (r: Self)
        ensures
            r.iter() == iter,
            r.held() is None,
            r.func() == f,
    {
        MapWhileAsync { iter, state: None, f }
    }

    /// The underlying async iterator, for the driver to poll.
    pub fn iter_mut(&mut self) -> (r: &mut I)
        ensures
            *r == old(self).iter(),
            final(self).iter() == *final(r),
            final(self).held() == old(self).held(),
            final(self).func() == old(self).func(),
    {
        &mut self.iter
    }

    /// The underlying async iterator, for the driver to read.
    pub fn iter_ref(&self) -> (r: &I)
        ensures
            *r == self.iter(),
    {
        &self.iter
    }

    /// The future in flight, for the driver to poll.
    pub fn held_mut(&mut self) -> (r: &mut Fut)
        requires
            old(self).held() is Some,
        ensures
            *r == old(self).held()->0,
            final(self).held() == Some(*final(r)),
            final(self).iter() == old(self).iter(),
            final(self).func() == old(self).func(),
    {
        match &mut self.state {
            Some(fut) => fut,
            None => vstd::pervasive::unreached(),
        }
    }

    /// The future in flight, if any, for the driver to read.
    pub fn held_ref(&self) -> (r: Option<&Fut>)
        ensures
            r == (match self.held() {
                Some(fut) => Some(&fut),
                None => None,
            }),
    {
        match &self.state {
            Some(fut) => Some(fut),
            None => None,
        }
    }

    /// The first step of a poll: the future in flight, else the iterator.
    pub fn resume<U>(&self) -> (r: Step<Option<U>>)
        ensures
            r == (if self.held() is Some {
                Step::<Option<U>>::PollHeld
            } else {
                Step::<Option<U>>::PollIter
            }),
    {
        if self.state.is_some() {
            Step::PollHeld
        } else {
            Step::PollIter
        }
    }

    /// The step to take after the underlying iterator answered `polled`:
    /// an item starts its future.
    pub fn on_iter<T, U>(&mut self, polled: Poll<Option<T>>) -> (r: Step<Option<U>>) where
        F: FnMut(T) -> Fut,

        requires
            old(self).held() is None,
            polled matches Poll::Ready(Some(x)) ==> call_requires(old(self).func(), (x,)),
        ensures
            final(self).iter() == old(self).iter(),
            final(self).func() == old(self).func(),
            (final(self).held(), r) == held_on_iter::<T, U, Fut>(polled, final(self).held()->0),
            match polled {
                Poll::Pending => r == Step::<Option<U>>::Finish(Poll::Pending)
                    && final(self).held() is None,
                Poll::Ready(None) => r == Step::<Option<U>>::Finish(Poll::Ready(None))
                    && final(self).held() is None,
                Poll::Ready(Some(x)) => r == Step::<Option<U>>::PollHeld && (final(self).held() matches Some(fut)
                    && call_ensures(old(self).func(), (x,), fut)),
            },
    {
        match polled {
            Poll::Pending => Step::Finish(Poll::Pending),
            Poll::Ready(None) => Step::Finish(Poll::Ready(None)),
            Poll::Ready(Some(item)) => {
                self.state = Some((self.f)(item));
                Step::PollHeld
            },
        }
    }

    /// The step to take after the future in flight answered `polled`:
    /// its output is the answer.
    pub fn on_held<U>(&mut self, polled: Poll<Option<U>>) -> (r: Step<Option<U>>)
        requires
            old(self).held() is Some,
        ensures
            final(self).iter() == old(self).iter(),
            final(self).func() == old(self).func(),
            (final(self).held(), r) == held_item_on_held(old(self).held(), polled),
            match polled {
                Poll::Pending => r == Step::<Option<U>>::Finish(Poll::Pending) && final(self).held()
                    == old(self).held(),
                Poll::Ready(y) => r == Step::<Option<U>>::Finish(Poll::Ready(y)) && final(
                    self).held() is None,
            },
    {
        match polled {
            Poll::Pending => Step::Finish(Poll::Pending),
            Poll::Ready(item) => {
                self.state = None;
                Step::Finish(Poll::Ready(item))
            },
        }
    }

    /// No item is sure to come; at most the underlying bound, plus one for
    /// the future in flight.
    pub fn size_hint(&self, iter_hint: SizeHint) -> (r: SizeHint)
        ensures
            r == crate::poll::at_most_hint(iter_hint, self.held() is Some),
            r == (0usize, if self.held() is Some {
                crate::poll::upper_plus_one(iter_hint.1)
            } else {
                iter_hint.1
            }),
    {
        let mut candidate = (0, iter_hint.1);
        if self.state.is_some() {
            candidate.1 = crate::poll::upper_add_one(candidate.1);
        }
        candidate
    }

    /// Ended when the future in flight, or else the underlying iterator, has ended.
    pub fn is_terminated(&self, iter_terminated: bool, held_terminated: bool) -> (r: bool)
        ensures
            r == (if self.held() is Some {
                held_terminated
            } else {
                iter_terminated
            }),
    {
        if self.state.is_some() {
            held_terminated
        } else {
            iter_terminated
        }
    }
}

} // verus!
