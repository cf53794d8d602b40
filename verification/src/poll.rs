//! The result of one attempt to advance a future.

use vstd::prelude::*;

verus! {

/// What a single poll of a future reports: either the computation finished
/// and carries its final value, or it is not done yet and should be tried
/// again later.
#[derive(Clone, Copy, Debug, PartialEq, Eq)]
pub enum Poll<T> {
    /// The computation finished with this value.
    Ready(T),
    /// The computation is not finished yet.
    Pending,
}

} // verus!
