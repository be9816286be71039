//! Status codes that the `StoreKit` bridge reports for each call.

use vstd::prelude::*;

verus! {

/// The call succeeded.
pub const OK: i32 = 0;
/// A stream reached the end of its sequence.
pub const END_OF_STREAM: i32 = 1;
/// An argument was rejected.
pub const INVALID_ARGUMENT: i32 = -1;
/// The call did not finish in time.
pub const TIMED_OUT: i32 = -2;
/// The call is not available here.
pub const NOT_SUPPORTED: i32 = -3;
/// `StoreKit` itself reported an error.
pub const FRAMEWORK_ERROR: i32 = -4;
/// A signed payload failed verification.
pub const VERIFICATION_ERROR: i32 = -5;
/// Anything else.
pub const UNKNOWN: i32 = -99;

} // verus!
