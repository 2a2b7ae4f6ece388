//! A single-shot page fetcher, modelled as a verified decision core.
//!
//! The library contains everything a fetch decides: whether a status code
//! counts as success, how each failure is described, and how one fetch moves
//! through its linear state machine. The host glue that performs the actual
//! network I/O drives this machine and owns nothing but the plumbing.

use vstd::prelude::*;

pub mod digits;
pub mod error;
pub mod fetch;
pub mod lifecycle;

verus! {

/// A response status code counts as success exactly when it lies in the
/// conventional 2xx range.
pub open spec fn spec_is_success(status: u16) -> bool {
    200 <= status <= 299
}

/// Status evaluation: 2xx statuses proceed to body retrieval, every other
/// status rejects the fetch.
pub fn is_success_status(status: u16) -> (r: bool)
    ensures
        r == spec_is_success(status),
{
    200 <= status && status <= 299
}

} // verus!
