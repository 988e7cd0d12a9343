//! Completion of an overlapped request.
//!
//! An overlapped request carries its file offset as two 32-bit halves. Its
//! result arrives through a completion routine that the OS runs, possibly on
//! another thread, while the task that issued the request polls for it. The
//! two meet in a three-state cell: not yet polled, waiting with the task's
//! waker, or completed with the result. Whoever holds the cell's lock calls
//! the transitions below.
use vstd::prelude::*;

verus! {

/// Splits a file offset into the low and high 32-bit halves that an
/// overlapped request carries.
pub fn split_offset(pos: u64) -> (r: (u32, u32))
    ensures
        r.0 as int + r.1 as int * 0x1_0000_0000 == pos as int,
{
    let low: u32 = (pos & 0xffff_ffff) as u32;
    let high: u32 = (pos >> 32u64) as u32;
    assert(low as u64 + (high as u64) * 0x1_0000_0000u64 == pos) by (bit_vector)
        requires
            low == (pos & 0xffff_ffff) as u32,
            high == (pos >> 32u64) as u32,
    ;
    (low, high)
}

/// The OS code that an overlapped read reports when it starts at or past
/// the end of the file.
pub const ERROR_HANDLE_EOF: u32 = 38;

/// What a request reported as `err` and `bytes` gives the caller. A zero
/// code reports `bytes` moved. On a read, the end-of-file code is no error:
/// the read moved nothing. Any other code is an OS error.
pub open spec fn completion(read: bool, err: u32, bytes: u32) -> Result<usize, i32> {
    if err == 0 {
        Ok(bytes as usize)
    } else if read && err == ERROR_HANDLE_EOF {
        Ok(0)
    } else {
        Err(err as i32)
    }
}

/// The result that a completion routine reports for a read (`read`) or a
/// write: an error code, or, when the code is zero, the number of bytes
/// moved.
pub fn completion_result(read: bool, err: u32, bytes: u32) -> (r: Result<usize, i32>)
    ensures
        r == completion(read, err, bytes),
{
    if err == 0 {
        Ok(bytes as usize)
    } else if read && err == ERROR_HANDLE_EOF {
        Ok(0)
    } else {
        Err(err as i32)
    }
}

/// The result of a read (`read`) or a write whose request the OS refused
/// at once with the error `code`: on a read, the end-of-file code means
/// that nothing was read; any other code is returned as the error.
pub fn refused_result(read: bool, code: i32) -> (r: Result<usize, i32>)
    ensures
        read && code == ERROR_HANDLE_EOF as i32 ==> r == Ok::<usize, i32>(0),
        !(read && code == ERROR_HANDLE_EOF as i32) ==> r == Err::<usize, i32>(code),
{
    if read && code == ERROR_HANDLE_EOF as i32 {
        Ok(0)
    } else {
        Err(code)
    }
}

/// The cell shared by a polling task and a completion routine. `W` is the
/// task's waker.
#[derive(Debug)]
pub enum OpState<W> {
    /// Neither polled nor completed yet.
    Idle,
    /// Polled before completion: the waker to call when the result arrives.
    Waiting(W),
    /// Completed with this result, not yet handed to the task.
    Done(Result<usize, i32>),
}

impl<W> OpState<W> {
    /// A fresh cell.
    pub fn new() -> (r: OpState<W>)
        ensures
            r is Idle,
    {
        OpState::Idle
    }

    /// A poll by the task. Returns the result if the request has completed,
    /// and then leaves the cell idle; otherwise records `waker` unless a
    /// waker is already recorded, and returns `None`.
    pub fn poll(&mut self, waker: W) -> (r: Option<Result<usize, i32>>)
        ensures
            *old(self) is Idle ==> r is None && *final(self) == OpState::Waiting(waker),
            *old(self) is Waiting ==> r is None && *final(self) == *old(self),
            *old(self) matches OpState::Done(res) ==> r == Some(res) && *final(self) is Idle,
    {
        let mut cur = OpState::Idle;
        std::mem::swap(self, &mut cur);
        match cur {
            OpState::Idle => {
                *self = OpState::Waiting(waker);
                None
            },
            OpState::Waiting(w) => {
                *self = OpState::Waiting(w);
                None
            },
            OpState::Done(res) => Some(res),
        }
    }

    /// The completion routine's step for a read (`read`) or a write: stores
    /// the result that `err` and `bytes` report, and returns the waker to
    /// call, if the task had polled before.
    pub fn complete(&mut self, read: bool, err: u32, bytes: u32) -> (r: Option<W>)
        ensures
            *final(self) == OpState::<W>::Done(completion(read, err, bytes)),
            *old(self) matches OpState::Waiting(w) ==> r == Some(w),
            !(*old(self) is Waiting) ==> r is None,
    {
        let mut cur = OpState::Done(completion_result(read, err, bytes));
        std::mem::swap(self, &mut cur);
        match cur {
            OpState::Waiting(w) => Some(w),
            _ => None,
        }
    }
}

} // verus!
