//! `FlatMap`: maps every item to a sub-iterator and flattens them.

use vstd::prelude::*;
use crate::poll::{Poll, Step, SizeHint};
use crate::async_iter::map::MapIter;
use crate::async_iter::flatten::{Flatten, flatten_on_held_step, flatten_on_iter_step, flatten_hint};

verus! {

/// Yields, in order, the items of the sub-iterator `f(x)` for every item
/// `x` of `iter`.
#[derive(Clone)]
pub struct FlatMap<I, F, S> {
    inner: Flatten<MapIter<I, F>, S>,
}

impl<I, F, S> FlatMap<I, F, S> {
    pub closed spec fn iter(&self) -> I {
        self.inner.iter().iter()
    }

    pub closed spec fn func(&self) -> F {
        self.inner.iter().func()
    }

    /// The sub-iterator being drained, if any.
    pub closed spec fn sub(&self) -> Option<S> {
        self.inner.sub()
    }

    pub fn new(iter: I, f: F) -> (r: Self)
        ensures
            r.iter() == iter,
            r.func() == f,
            r.sub() is None,
    {
        FlatMap { inner: Flatten::new(MapIter::new(iter, f)) }
    }

    /// The underlying async iterator, for the driver to poll.
    pub fn iter_mut(&mut self) -> (r: &mut I)
        ensures
            *r == old(self).iter(),
            final(self).iter() == *final(r),
            final(self).func() == old(self).func(),
            final(self).sub() == old(self).sub(),
    {
        self.inner.iter_mut().iter_mut()
    }

    /// The underlying async iterator, for the driver to read.
    pub fn iter_ref(&self) -> (r: &I)
        ensures
            *r == self.iter(),
    {
        self.inner.iter_ref().iter_ref()
    }

    /// The current sub-iterator, if any, for the driver to read.
    pub fn sub_ref(&self) -> (r: Option<&S>)
        ensures
            r == (match self.sub() {
                Some(sub) => Some(&sub),
                None => None,
            }),
    {
        self.inner.sub_ref()
    }

    /// The current sub-iterator, for the driver to poll.
    pub fn held_mut(&mut self) -> (r: &mut S)
        requires
            old(self).sub() is Some,
        ensures
            *r == old(self).sub()->0,
            final(self).sub() == Some(*final(r)),
            final(self).iter() == old(self).iter(),
            final(self).func() == old(self).func(),
    {
        self.inner.held_mut()
    }

    /// The first step of a poll: the current sub-iterator, else the underlying one.
    pub fn resume<U>(&self) -> (r: Step<Option<U>>)
        ensures
            r == (if self.sub() is Some {
                Step::<Option<U>>::PollHeld
            } else {
                Step::<Option<U>>::PollIter
            }),
    {
        self.inner.resume()
    }

    /// The step to take after the underlying iterator answered `polled`: an
    /// item is mapped to the sub-iterator polled next.
    pub fn on_iter<T, U>(&mut self, polled: Poll<Option<T>>) -> (r: Step<Option<U>>) where
        F: FnMut(T) -> S,

        requires
            old(self).sub() is None,
            polled matches Poll::Ready(Some(x)) ==> call_requires(old(self).func(), (x,)),
        ensures
            final(self).iter() == old(self).iter(),
            final(self).func() == old(self).func(),
            r == flatten_on_iter_step::<T, U>(polled),
            match polled {
                Poll::Pending => r == Step::<Option<U>>::Finish(Poll::Pending) && final(self).sub() is None,
                Poll::Ready(None) => r == Step::<Option<U>>::Finish(Poll::Ready(None))
                    && final(self).sub() is None,
                Poll::Ready(Some(x)) => r == Step::<Option<U>>::PollHeld && (final(self).sub() matches Some(s)
                    && call_ensures(old(self).func(), (x,), s)),
            },
    {
        let mapped = self.inner.iter_mut().on_iter(polled);
        self.inner.on_iter(mapped)
    }

    /// The step to take after the current sub-iterator answered `polled`.
    pub fn on_held<U>(&mut self, polled: Poll<Option<U>>) -> (r: Step<Option<U>>)
        requires
            old(self).sub() is Some,
        ensures
            r == flatten_on_held_step(polled),
            final(self).iter() == old(self).iter(),
            final(self).func() == old(self).func(),
            final(self).sub() == (if polled == Poll::<Option<U>>::Ready(None) {
                None
            } else {
                old(self).sub()
            }),
    {
        self.inner.on_held(polled)
    }

    /// As for [`Flatten::size_hint`].
    pub fn size_hint(&self, iter_hint: SizeHint, sub_hint: SizeHint) -> (r: SizeHint)
        ensures
            r == flatten_hint(
                iter_hint,
                if self.sub() is Some {
                    Some(sub_hint)
                } else {
                    None
                },
            ),
    {
        self.inner.size_hint(iter_hint, sub_hint)
    }

    /// Ended when the current sub-iterator, or else the underlying iterator, has ended.
    pub fn is_terminated(&self, iter_terminated: bool, sub_terminated: bool) -> (r: bool)
        ensures
            r == (if self.sub() is Some {
                sub_terminated
            } else {
                iter_terminated
            }),
    {
        self.inner.is_terminated(iter_terminated, sub_terminated)
    }
}

} // verus!
