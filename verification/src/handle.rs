//! Shared handles to one value.

use std::sync::Arc;
use vstd::prelude::*;

verus! {

/// Calls `Arc::clone`, which makes another handle to the same value.
#[verifier::external_body]
pub(crate) fn share<T>(handle: &Arc<T>) -> (result: Arc<T>)
    ensures
        result == *handle,
{
    Arc::clone(handle)
}

/// Calls `Arc::into_inner`, which takes the value out of a handle if no other
/// handle to it is left, and gives `None` otherwise. Whether one is left is not
/// stated: that rests on what the other tasks of the process hold at the time.
#[verifier::external_body]
pub(crate) fn reclaim<T>(handle: Arc<T>) -> (result: Option<T>)
    ensures
        result matches Some(value) ==> value == *handle,
{
    Arc::into_inner(handle)
}

} // verus!
