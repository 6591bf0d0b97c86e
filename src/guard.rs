//! The check made after every graphics call: a nonzero error code ends the run.

use vstd::prelude::*;
use crate::error::RenderError;

verus! {

/// The graphics API's code for "no error".
pub const NO_ERROR: u32 = 0;

/// Turns the error code that a graphics call left behind into the run's outcome:
/// `Ok` on `NO_ERROR`, else a `GraphicsCall` error naming the operation and the code.
pub fn check_call(operation: &str, code: u32) -> (r: Result<(), RenderError>)
    ensures
        r is Ok <==> code == NO_ERROR,
        r is Err ==> (r matches Err(RenderError::GraphicsCall { operation: op, code: c }) && op@
            == operation@ && c == code),
{
    if code == NO_ERROR {
        Ok(())
    } else {
        Err(RenderError::GraphicsCall { operation: String::from_str(operation), code })
    }
}

} // verus!
