//! Results of blocking positioned system calls (`pread` / `pwrite`).
use vstd::prelude::*;

verus! {

/// Turns the return value of a positioned read or write system call into a
/// byte count or an OS error code.
///
/// A negative return reports failure, and the cause is then the `errno`
/// value read right after the call; any other return is the number of bytes
/// moved.
pub fn syscall_result(ret: isize, errno: i32) -> (r: Result<usize, i32>)
    ensures
        ret < 0 ==> r == Err::<usize, i32>(errno),
        ret >= 0 ==> r == Ok::<usize, i32>(ret as usize),
{
    if ret < 0 {
        Err(errno)
    } else {
        Ok(ret as usize)
    }
}

} // verus!
