//! Reading the status that the engine's C functions return.

use crate::tls_openssl::native::pending_errors;
use openssl::error::ErrorStack;
use vstd::prelude::*;

verus! {

/// Reads a status: a positive status is success and is handed back; any other one is a
/// failure, reported with the engine's diagnostics.
pub fn cvt(r: i32) -> (out: Result<i32, ErrorStack>)
    ensures
        out is Ok <==> r > 0,
        out matches Ok(v) ==> v == r,
{
    if r <= 0 {
        Err(pending_errors())
    } else {
        Ok(r)
    }
}

/// Reads a status of the wider kind that the engine's control functions return.
pub fn cvt_long(r: i64) -> (out: Result<i64, ErrorStack>)
    ensures
        out is Ok <==> r > 0,
        out matches Ok(v) ==> v == r,
{
    if r <= 0 {
        Err(pending_errors())
    } else {
        Ok(r)
    }
}

} // verus!
