//! Type-level check that a value is a future of a given output.

use vstd::prelude::*;

verus! {

/// Returns `fut` unchanged; the call only pins down the types.
pub fn assert_future<Fut, T>(fut: Fut) -> (r: Fut) where Fut: core::future::Future<Output = T>,
    ensures
        r == fut,
{
    fut
}

} // verus!
