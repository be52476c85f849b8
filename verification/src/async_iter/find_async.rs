//! `FindAsync`: the first item an asynchronous predicate accepts.

use vstd::prelude::*;
use crate::async_iter::states::PredicateState;
use crate::poll::{Poll, Step};

verus! {

/// A future of the first item `x` of `iter` for which the future
/// `predicate(&x)` resolves to `true`.
#[derive(Clone)]
pub struct FindAsync<I, P, T, Fut> {
    iter: I,
    predicate: P,
    state: PredicateState<T, Fut>,
}

impl<I, P, T, Fut> FindAsync<I, P, T, Fut> {
    pub closed spec fn iter(&self) -> I {
        self.iter
    }

    pub closed spec fn predicate(&self) -> P {
        self.predicate
    }

    /// The item waiting for its verdict, with the verdict's future.
    pub closed spec fn state(&self) -> PredicateState<T, Fut> {
        self.state
    }

    pub fn new(iter: I, predicate: P) -> (r: Self)
        ensures
            r.iter() == iter,
            r.predicate() == predicate,
            r.state() is Empty,
    {
        FindAsync { iter, predicate, state: PredicateState::Empty }
    }

    /// The underlying async iterator, for the driver to poll.
    pub fn iter_mut(&mut self) -> (r: &mut I)
        ensures
            *r == old(self).iter(),
            final(self).iter() == *final(r),
            final(self).predicate() == old(self).predicate(),
            final(self).state() == old(self).state(),
    {
        &mut self.iter
    }

    /// The underlying async iterator, for the driver to read.
    pub fn iter_ref(&self) -> (r: &I)
        ensures
            *r == self.iter(),
    {
        &self.iter
    }

    /// The predicate's future in flight, for the driver to poll.
    pub fn held_mut(&mut self) -> (r: &mut Fut)
        requires
            old(self).state() is Polling,
        ensures
            *r == old(self).state()->fut,
            final(self).state() == (PredicateState::Polling {
                item: old(self).state()->item,
                fut: *final(r),
            }),
            final(self).iter() == old(self).iter(),
            final(self).predicate() == old(self).predicate(),
    {
        self.state.future_mut()
    }

    /// The first step of a poll: the verdict in flight, else the iterator.
    pub fn resume(&self) -> (r: Step<Option<T>>)
        ensures
            r == crate::async_iter::filter_async::predicate_resume(self.state()),
    {
        match self.state.get_future() {
            Some(_) => Step::PollHeld,
            None => Step::PollIter,
        }
    }

    /// The step to take after the underlying iterator answered `polled`:
    /// an item waits for the verdict of the predicate's future.
    pub fn on_iter(&mut self, polled: Poll<Option<T>>) -> (r: Step<Option<T>>) where
        P: FnMut(&T) -> Fut,

        requires
            old(self).state() is Empty,
            polled matches Poll::Ready(Some(x)) ==> call_requires(old(self).predicate(), (&x,)),
        ensures
            final(self).iter() == old(self).iter(),
            final(self).predicate() == old(self).predicate(),
            (final(self).state(), r) == crate::async_iter::filter_async::predicate_on_iter(polled, final(self).state()->fut),
            polled matches Poll::Ready(Some(x)) ==> call_ensures(
                old(self).predicate(),
                (&x,),
                final(self).state()->fut,
            ),
    {
        match polled {
            Poll::Pending => Step::Finish(Poll::Pending),
            Poll::Ready(None) => Step::Finish(Poll::Ready(None)),
            Poll::Ready(Some(item)) => {
                let fut = (self.predicate)(&item);
                self.state = PredicateState::Polling { item, fut };
                Step::PollHeld
            },
        }
    }

    /// The step to take after the predicate's future answered `polled`.
    pub fn on_held(&mut self, polled: Poll<bool>) -> (r: Step<Option<T>>)
        requires
            old(self).state() is Polling,
        ensures
            final(self).iter() == old(self).iter(),
            final(self).predicate() == old(self).predicate(),
            (final(self).state(), r) == crate::async_iter::filter_async::filter_async_on_held(old(self).state(), polled),
    {
        match polled {
            Poll::Pending => Step::Finish(Poll::Pending),
            Poll::Ready(keep) => {
                let item = self.state.take_item();
                if keep {
                    Step::Finish(Poll::Ready(Some(item)))
                } else {
                    Step::PollIter
                }
            },
        }
    }

    /// The future in flight, if any, for the driver to read.
    pub fn held_ref(&self) -> (r: Option<&Fut>)
        ensures
            r == (match self.state() {
                PredicateState::Polling { fut, .. } => Some(&fut),
                PredicateState::Empty => None,
            }),
    {
        self.state.get_future()
    }

    /// Ended when the verdict in flight, or else the underlying iterator, has ended.
    pub fn is_terminated(&self, iter_terminated: bool, held_terminated: bool) -> (r: bool)
        ensures
            r == (if self.state() is Polling {
                held_terminated
            } else {
                iter_terminated
            }),
    {
        match self.state.get_future() {
            Some(_) => held_terminated,
            None => iter_terminated,
        }
    }
}

} // verus!
