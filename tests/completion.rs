use async_pio::aio::{AioAction, AioOp, AioPhase, Readiness};
use async_pio::overlapped::{completion_result, refused_result, split_offset, OpState, ERROR_HANDLE_EOF};
use async_pio::posio::syscall_result;

#[test]
fn offset_halves() {
    assert_eq!(split_offset(0), (0, 0));
    assert_eq!(split_offset(0x1234_5678_9abc_def0), (0x9abc_def0, 0x1234_5678));
    assert_eq!(split_offset(u64::MAX), (u32::MAX, u32::MAX));
    assert_eq!(split_offset(0x1_0000_0000), (0, 1));
}

#[test]
fn completion_routine_results() {
    assert_eq!(completion_result(false, 0, 5), Ok(5));
    assert_eq!(completion_result(true, 0, 5), Ok(5));
    assert_eq!(completion_result(false, 5, 7), Err(5));
    assert_eq!(completion_result(true, 5, 7), Err(5));
    assert_eq!(completion_result(true, 0, 0), Ok(0));
}

#[test]
fn overlapped_read_at_end_of_file_gives_zero() {
    assert_eq!(ERROR_HANDLE_EOF, 38);
    assert_eq!(completion_result(true, 38, 0), Ok(0));
    assert_eq!(refused_result(true, 38), Ok(0));
    let mut cell: OpState<u32> = OpState::new();
    assert_eq!(cell.poll(1), None);
    assert_eq!(cell.complete(true, 38, 0), Some(1));
    assert_eq!(cell.poll(2), Some(Ok(0)));
}

#[test]
fn end_of_file_code_on_a_write_is_an_error() {
    assert_eq!(completion_result(false, 38, 0), Err(38));
    assert_eq!(refused_result(false, 38), Err(38));
    assert_eq!(refused_result(true, 5), Err(5));
}

#[test]
fn poll_before_completion_wakes_task() {
    let mut cell: OpState<u32> = OpState::new();
    assert_eq!(cell.poll(7), None);
    assert_eq!(cell.poll(8), None);
    assert_eq!(cell.complete(false, 0, 10), Some(7));
    assert_eq!(cell.poll(9), Some(Ok(10)));
}

#[test]
fn completion_before_poll_needs_no_wake() {
    let mut cell: OpState<u32> = OpState::new();
    assert_eq!(cell.complete(false, 6, 0), None);
    assert_eq!(cell.poll(1), Some(Err(6)));
}

#[test]
fn syscall_return_values() {
    assert_eq!(syscall_result(-1, 9), Err(9));
    assert_eq!(syscall_result(0, 9), Ok(0));
    assert_eq!(syscall_result(4096, 0), Ok(4096));
}

#[test]
fn aio_submit_wait_retrieve() {
    let mut op = AioOp::new();
    assert_eq!(op.poll(Readiness::Pending), AioAction::Submit);
    assert_eq!(op.submitted(Ok(())), None);
    assert_eq!(op.current_phase(), AioPhase::Submitted);
    assert_eq!(op.poll(Readiness::Pending), AioAction::Wait);
    assert_eq!(op.poll(Readiness::Complete), AioAction::Retrieve);
    assert_eq!(op.current_phase(), AioPhase::Finished);
}

#[test]
fn aio_queue_error_is_surfaced_without_retrieval() {
    let mut op = AioOp::new();
    assert_eq!(op.poll(Readiness::Pending), AioAction::Submit);
    assert_eq!(op.submitted(Ok(())), None);
    assert_eq!(op.poll(Readiness::Error), AioAction::SurfaceError);
    assert_eq!(op.current_phase(), AioPhase::Finished);
}

#[test]
fn aio_failed_submission_ends_operation() {
    let mut op = AioOp::new();
    assert_eq!(op.poll(Readiness::Pending), AioAction::Submit);
    assert_eq!(op.submitted(Err(11)), Some(11));
    assert_eq!(op.current_phase(), AioPhase::Finished);
}

#[test]
fn aio_queue_error_before_submission_is_surfaced() {
    let mut op = AioOp::new();
    assert_eq!(op.poll(Readiness::Error), AioAction::SurfaceError);
    assert_eq!(op.current_phase(), AioPhase::Finished);
}

#[test]
fn aio_unsubmitted_block_is_submitted_first() {
    let mut op = AioOp::new();
    assert_eq!(op.poll(Readiness::Complete), AioAction::Submit);
    assert_eq!(op.current_phase(), AioPhase::NotSubmitted);
}
