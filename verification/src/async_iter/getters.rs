//! Getters for the folds: what value of the accumulator a fold hands to its
//! function and answers at the end.

use vstd::prelude::*;

verus! {

/// The accumulator's value, copied; the accumulator stays as it is.
pub fn copy_value<T: Copy>(acc: &mut T) -> (r: T)
    ensures
        r == *old(acc),
        *final(acc) == *old(acc),
{
    *acc
}

/// A clone of the accumulator; the accumulator stays as it is.
pub fn clone_value<T: Clone>(acc: &mut T) -> (r: T)
    ensures
        cloned(*old(acc), r),
        *final(acc) == *old(acc),
{
    acc.clone()
}

/// The accumulator itself, leaving `T::default()` in its place.
pub fn take_value<T: Default>(acc: &mut T) -> (r: T)
    ensures
        r == *old(acc),
{
    let mut value = T::default();
    core::mem::swap(acc, &mut value);
    value
}

} // verus!
