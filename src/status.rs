use vstd::prelude::*;

use crate::error::SemError;

verus! {

/// The count that callers see for a count reported by the system: a
/// negative report (some systems count blocked waiters that way) means that
/// nothing is available.
pub open spec fn visible_count(raw: int) -> int {
    if raw < 0 {
        0
    } else {
        raw
    }
}

/// Outcome of a system call that reports success with a status of zero and
/// failure with any other status, the reason then being `errno`.
pub fn check_status(rc: i32, errno: i32) -> (r: Result<(), SemError>)
    ensures
        r == (if rc == 0 {
            Ok::<(), SemError>(())
        } else {
            Err(SemError::Os(errno))
        }),
{
    if rc != 0 {
        return Err(SemError::Os(errno));
    }
    Ok(())
}

/// Outcome of opening or creating a semaphore: the system either hands back
/// a handle or signals failure, the reason then being `errno`.
pub fn check_handle(failed: bool, errno: i32) -> (r: Result<(), SemError>)
    ensures
        r == (if failed {
            Err(SemError::Os(errno))
        } else {
            Ok::<(), SemError>(())
        }),
{
    if failed {
        Err(SemError::Os(errno))
    } else {
        Ok(())
    }
}

/// The count made visible to callers for a count `raw` reported by the
/// system; negative reports become zero.
pub fn normalize_count(raw: i32) -> (r: usize)
    ensures
        r as int == visible_count(raw as int),
{
    if raw < 0 {
        0
    } else {
        raw as usize
    }
}

/// Outcome of asking the system for the current count: the call's status
/// `rc`, the error number `errno` read after it, and the count `raw` it
/// wrote, which is only meaningful when the call succeeded.
pub fn read_value(rc: i32, errno: i32, raw: i32) -> (r: Result<usize, SemError>)
    ensures
        rc == 0 ==> r == Ok::<usize, SemError>(visible_count(raw as int) as usize),
        rc != 0 ==> r == Err::<usize, SemError>(SemError::Os(errno)),
{
    match check_status(rc, errno) {
        Ok(()) => Ok(normalize_count(raw)),
        Err(e) => Err(e),
    }
}

} // verus!
