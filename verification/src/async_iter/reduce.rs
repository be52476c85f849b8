//! `Reduce`: combines the items with a function, the first item being the
//! initial accumulator.

use vstd::prelude::*;
use crate::poll::{Poll, Step};

verus! {

/// The accumulator after one more item `x`, where `combined` is `f(acc, x)`.
pub open spec fn reduce_next<T>(acc: Option<T>, x: T, combined: T) -> Option<T> {
    match acc {
        None => Some(x),
        Some(_) => Some(combined),
    }
}

/// The accumulator and step of `Reduce` on the underlying answer `polled`
/// from the accumulator `acc`, where `combined` is what `f` returns for the
/// accumulator and the item `polled` carries.
pub open spec fn reduce_step<T>(acc: Option<T>, polled: Poll<Option<T>>, combined: T) -> (Option<T>, Step<Option<T>>) {
    match polled {
        Poll::Pending => (acc, Step::Finish(Poll::Pending)),
        Poll::Ready(None) => (None, Step::Finish(Poll::Ready(acc))),
        Poll::Ready(Some(x)) => (reduce_next(acc, x, combined), Step::PollIter),
    }
}

/// A future of the items of `iter` combined with `f`: `None` for no items,
/// else the first item combined with each next one in turn.
#[derive(Clone)]
pub struct Reduce<I, T, F> {
    iter: I,
    acc: Option<T>,
    f: F,
}

impl<I, T, F> Reduce<I, T, F> {
    pub closed spec fn iter(&self) -> I {
        self.iter
    }

    /// The combination of the items so far, if any.
    pub closed spec fn acc(&self) -> Option<T> {
        self.acc
    }

    pub closed spec fn func(&self) -> F {
        self.f
    }

    pub fn new(iter: I, f: F) -> (r: Self)
        ensures
            r.iter() == iter,
            r.acc() is None,
            r.func() == f,
    {
        Reduce { iter, acc: None, f }
    }

    /// The underlying async iterator, for the driver to poll.
    pub fn iter_mut(&mut self) -> (r: &mut I)
        ensures
            *r == old(self).iter(),
            final(self).iter() == *final(r),
            final(self).acc() == old(self).acc(),
            final(self).func() == old(self).func(),
    {
        &mut self.iter
    }

    /// The underlying async iterator, for the driver to read.
    pub fn iter_ref(&self) -> (r: &I)
        ensures
            *r == self.iter(),
    {
        &self.iter
    }

    /// The step to take after the underlying iterator answered `polled`:
    /// an item is combined in, the end answers (and takes out) the accumulator.
    pub fn on_iter(&mut self, polled: Poll<Option<T>>) -> (r: Step<Option<T>>) where
        F: FnMut(T, T) -> T,

        requires
            old(self).acc() is Some ==> (polled matches Poll::Ready(Some(x)) ==> call_requires(
                old(self).func(),
                (old(self).acc()->0, x),
            )),
        ensures
            final(self).iter() == old(self).iter(),
            final(self).func() == old(self).func(),
            (final(self).acc(), r) == reduce_step(old(self).acc(), polled, final(self).acc()->0),
            match polled {
                Poll::Pending => r == Step::<Option<T>>::Finish(Poll::Pending) && final(self).acc()
                    == old(self).acc(),
                Poll::Ready(None) => r == Step::<Option<T>>::Finish(Poll::Ready(old(self).acc()))
                    && final(self).acc() is None,
                Poll::Ready(Some(x)) => r == Step::<Option<T>>::PollIter && final(self).acc()
                    is Some && final(self).acc() == reduce_next(
                    old(self).acc(),
                    x,
                    final(self).acc()->0,
                ) && (old(self).acc() is Some ==> call_ensures(
                    old(self).func(),
                    (old(self).acc()->0, x),
                    final(self).acc()->0,
                )),
            },
    {
        match polled {
            Poll::Pending => Step::Finish(Poll::Pending),
            Poll::Ready(None) => Step::Finish(Poll::Ready(self.acc.take())),
            Poll::Ready(Some(item)) => {
                let next = match self.acc.take() {
                    None => item,
                    Some(acc) => (self.f)(acc, item),
                };
                self.acc = Some(next);
                Step::PollIter
            },
        }
    }
}

} // verus!
