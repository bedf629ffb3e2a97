//! OPC UA status codes as the client reads them.

use vstd::prelude::*;

verus! {

/// The status code `Good` (`UA_STATUSCODE_GOOD`): the operation succeeded.
pub const STATUS_GOOD: u32 = 0;

/// Whether `code` reports success.
pub open spec fn spec_is_good(code: u32) -> bool {
    code == STATUS_GOOD
}

/// Tells whether a status code reports success.
pub fn is_good(code: u32) -> (good: bool)
    ensures
        good == spec_is_good(code),
{
    code == STATUS_GOOD
}

/// The result of an operation that reported `code` and, on success, yields `value`.
pub open spec fn spec_outcome<T>(code: u32, value: T) -> Option<T> {
    if spec_is_good(code) {
        Some(value)
    } else {
        None
    }
}

/// Turns the status code of an operation into its result: `Some(value)` when the operation
/// succeeded, `None` otherwise.
pub fn outcome<T>(code: u32, value: T) -> (result: Option<T>)
    ensures
        result == spec_outcome(code, value),
        result is Some <==> code == 0,
        result matches Some(kept) ==> kept == value,
{
    if code == STATUS_GOOD {
        Some(value)
    } else {
        None
    }
}

/// Only the status code 0 (`Good`) reports success: every other code, uncertain or bad, gives no
/// result, and a good code gives back the value unchanged. `is_good` agrees.
pub proof fn outcome_is_some_only_for_good(code: u32, value: u64)
    ensures
        spec_outcome(code, value) is Some <==> code == 0,
        spec_outcome(code, value) matches Some(kept) ==> kept == value,
        spec_is_good(code) <==> code == 0,
{
}

} // verus!
