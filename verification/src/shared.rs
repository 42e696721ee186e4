//! Shared ownership.

use std::sync::Arc;

use vstd::prelude::*;

verus! {

/// Makes another handle to a shared value with [`Arc::clone`]. The new handle points
/// to the same value as the given one.
#[verifier::external_body]
pub(crate) fn share<T>(handle: &Arc<T>) -> (copy: Arc<T>)
    ensures
        copy == *handle,
{
    Arc::clone(handle)
}

} // verus!
