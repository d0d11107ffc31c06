//! Turning the integer that a system call returned into a `Result`.

use vstd::prelude::*;

verus! {

/// The error number that the operating system left behind when a call failed.
#[derive(Clone, Copy, Debug, PartialEq, Eq, Structural)]
pub struct OsError {
    pub code: i32,
}

/// What [`to_ioresult`] makes of a return value and the error number that
/// came with it: a negative value is a failure.
pub open spec fn io_result(ret: i32, errno: i32) -> Result<i32, OsError> {
    if ret < 0 {
        Err(OsError { code: errno })
    } else {
        Ok(ret)
    }
}

/// Reads the return value of a system call that reports failure by a
/// negative number. `errno` is the error number as it stood right after the
/// call; it is looked at only when the call failed.
pub fn to_ioresult(ret: i32, errno: i32) -> (r: Result<i32, OsError>)
    ensures
        r == io_result(ret, errno),
{
    if ret < 0 {
        Err(OsError { code: errno })
    } else {
        Ok(ret)
    }
}

} // verus!
