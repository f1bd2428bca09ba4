use vstd::prelude::*;

verus! {

/// An operating-system failure, carrying the error code (`errno`) it reported.
#[derive(Debug, Clone, Copy, PartialEq, Eq, Structural)]
pub struct OsError {
    pub code: i32,
}

/// The outcome of a system call that reports failure by returning `-1`.
pub open spec fn os_outcome(ret: i32, errno: i32) -> Result<i32, OsError> {
    if ret == -1 {
        Err(OsError { code: errno })
    } else {
        Ok(ret)
    }
}

/// Turns the raw return value of a system call into a result: `-1` means
/// failure with the code `errno`, anything else is the call's value.
pub fn check_ret(ret: i32, errno: i32) -> (r: Result<i32, OsError>)
    ensures
        r == os_outcome(ret, errno),
{
    if ret == -1 {
        Err(OsError { code: errno })
    } else {
        Ok(ret)
    }
}

} // verus!
