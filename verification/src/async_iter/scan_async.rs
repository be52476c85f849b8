//! `ScanAsync`: threads a state through the items with an asynchronous function.

use vstd::prelude::*;
use crate::poll::{Poll, Step, SizeHint};
use crate::async_iter::map_async::held_on_iter;
use crate::async_iter::map_while_async::held_item_on_held;

verus! {

/// A function that scans an item of type `T` on a state of type `S`; its
/// output is what [`ScanAsync`] awaits.
pub trait ScanFn<S, T>: FnMut(&mut S, T) -> <Self as ScanFn<S, T>>::Output {
    type Output;
}

impl<S, T, F, R> ScanFn<S, T> for F where F: FnMut(&mut S, T) -> R {
    type Output = R;
}

/// Yields what the future `f(&mut state, x)` resolves to, for every item `x`
/// of `iter`; a future resolving to `None` ends the answer.
#[derive(Clone)]
pub struct ScanAsync<I, S, F, Fut> {
    iter: I,
    scan_state: S,
    state: Option<Fut>,
    f: F,
}

impl<I, S, F, Fut> ScanAsync<I, S, F, Fut> {
    pub closed spec fn iter(&self) -> I {
        self.iter
    }

    /// The future in flight, if any.
    pub closed spec fn held(&self) -> Option<Fut> {
        self.state
    }

    pub closed spec fn func(&self) -> F {
        self.f
    }

    /// The state threaded through the items.
    pub closed spec fn scan_state(&self) -> S {
        self.scan_state
    }

    pub fn new(iter: I, scan_state: S, f: F) -> (r: Self)
        ensures
            r.iter() == iter,
            r.scan_state() == scan_state,
            r.held() is None,
            r.func() == f,
    {
        ScanAsync { iter, scan_state, state: None, f }
    }

    /// The underlying async iterator, for the driver to poll.
    pub fn iter_mut(&mut self) -> (r: &mut I)
        ensures
            *r == old(self).iter(),
            final(self).iter() == *final(r),
            final(self).held() == old(self).held(),
            final(self).func() == old(self).func(),
            final(self).scan_state() == old(self).scan_state(),
    {
        &mut self.iter
    }

    /// The underlying async iterator, for the driver to read.
    pub fn iter_ref(&self) -> (r: &I)
        ensures
            *r == self.iter(),
    {
        &self.iter
    }

    /// The future in flight, for the driver to poll.
    pub fn held_mut(&mut self) -> (r: &mut Fut)
        requires
            old(self).held() is Some,
        ensures
            *r == old(self).held()->0,
            final(self).held() == Some(*final(r)),
            final(self).iter() == old(self).iter(),
            final(self).func() == old(self).func(),
            final(self).scan_state() == old(self).scan_state(),
    {
        match &mut self.state {
            Some(fut) => fut,
            None => vstd::pervasive::unreached(),
        }
    }

    /// The future in flight, if any, for the driver to read.
    pub fn held_ref(&self) -> (r: Option<&Fut>)
        ensures
            r == (match self.held() {
                Some(fut) => Some(&fut),
                None => None,
            }),
    {
        match &self.state {
            Some(fut) => Some(fut),
            None => None,
        }
    }

    /// The first step of a poll: the future in flight, else the iterator.
    pub fn resume<U>(&self) -> (r: Step<Option<U>>)
        ensures
            r == (if self.held() is Some {
                Step::<Option<U>>::PollHeld
            } else {
                Step::<Option<U>>::PollIter
            }),
    {
        if self.state.is_some() {
            Step::PollHeld
        } else {
            Step::PollIter
        }
    }

    /// Calls `f` on the state and `item`; the future it returns.
    fn start<T>(&mut self, item: T) -> (fut: Fut) where
        F: ScanFn<S, T, Output = Fut>,

        requires
            forall|s: &mut S|
                #![trigger call_requires(old(self).func(), (s, item))]
                *s == old(self).scan_state() ==> call_requires(old(self).func(), (s, item)),
        ensures
            final(self).iter() == old(self).iter(),
            final(self).func() == old(self).func(),
            final(self).held() == old(self).held(),
            exists|s: &mut S|
                #![trigger call_ensures(old(self).func(), (s, item), fut)]
                *s == old(self).scan_state() && *final(s) == final(self).scan_state()
                    && call_ensures(old(self).func(), (s, item), fut),
    {
        let scan_state = &mut self.scan_state;
        assert(call_requires(old(self).func(), (scan_state, item)));
        (self.f)(scan_state, item)
    }

    /// The step to take after the underlying iterator answered `polled`:
    /// an item starts its future on the state.
    pub fn on_iter<T, U>(&mut self, polled: Poll<Option<T>>) -> (r: Step<Option<U>>) where
        F: ScanFn<S, T, Output = Fut>,

        requires
            old(self).held() is None,
            polled matches Poll::Ready(Some(x)) ==> forall|s: &mut S|
                #![trigger call_requires(old(self).func(), (s, x))]
                *s == old(self).scan_state() ==> call_requires(old(self).func(), (s, x)),
        ensures
            final(self).iter() == old(self).iter(),
            final(self).func() == old(self).func(),
            (final(self).held(), r) == held_on_iter::<T, U, Fut>(polled, final(self).held()->0),
            match polled {
                Poll::Pending => r == Step::<Option<U>>::Finish(Poll::Pending)
                    && final(self).held() is None && final(self).scan_state() == old(self).scan_state(),
                Poll::Ready(None) => r == Step::<Option<U>>::Finish(Poll::Ready(None))
                    && final(self).held() is None && final(self).scan_state() == old(self).scan_state(),
                Poll::Ready(Some(_)) => r == Step::<Option<U>>::PollHeld && final(self).held() is Some,
            },
            polled matches Poll::Ready(Some(x)) ==> exists|s: &mut S|
                #![trigger call_ensures(old(self).func(), (s, x), final(self).held()->0)]
                *s == old(self).scan_state() && *final(s) == final(self).scan_state()
                    && call_ensures(old(self).func(), (s, x), final(self).held()->0),
    {
        match polled {
            Poll::Pending => Step::Finish(Poll::Pending),
            Poll::Ready(None) => Step::Finish(Poll::Ready(None)),
            Poll::Ready(Some(item)) => {
                let fut = self.start(item);
                self.state = Some(fut);
                assert(self.held()->0 == fut);
                Step::PollHeld
            },
        }
    }

    /// The step to take after the future in flight answered `polled`:
    /// its output is the answer.
    pub fn on_held<U>(&mut self, polled: Poll<Option<U>>) -> (r: Step<Option<U>>)
        requires
            old(self).held() is Some,
        ensures
            final(self).iter() == old(self).iter(),
            final(self).func() == old(self).func(),
            (final(self).held(), r) == held_item_on_held(old(self).held(), polled),
            final(self).scan_state() == old(self).scan_state(),
            match polled {
                Poll::Pending => r == Step::<Option<U>>::Finish(Poll::Pending) && final(self).held()
                    == old(self).held(),
                Poll::Ready(y) => r == Step::<Option<U>>::Finish(Poll::Ready(y)) && final(
                    self).held() is None,
            },
    {
        match polled {
            Poll::Pending => Step::Finish(Poll::Pending),
            Poll::Ready(item) => {
                self.state = None;
                Step::Finish(Poll::Ready(item))
            },
        }
    }

    /// No item is sure to come; at most the underlying bound, plus one for
    /// the future in flight.
    pub fn size_hint(&self, iter_hint: SizeHint) -> (r: SizeHint)
        ensures
            r == crate::poll::at_most_hint(iter_hint, self.held() is Some),
            r == (0usize, if self.held() is Some {
                crate::poll::upper_plus_one(iter_hint.1)
            } else {
                iter_hint.1
            }),
    {
        let mut candidate = (0, iter_hint.1);
        if self.state.is_some() {
            candidate.1 = crate::poll::upper_add_one(candidate.1);
        }
        candidate
    }

    /// Ended when the future in flight, or else the underlying iterator, has ended.
    pub fn is_terminated(&self, iter_terminated: bool, held_terminated: bool) -> (r: bool)
        ensures
            r == (if self.held() is Some {
                held_terminated
            } else {
                iter_terminated
            }),
    {
        if self.state.is_some() {
            held_terminated
        } else {
            iter_terminated
        }
    }
}

} // verus!
