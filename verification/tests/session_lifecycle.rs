use windows_capture_python::errors::InnerNativeWindowsCaptureError;
use windows_capture_python::session::CallbackOutcome;
use windows_capture_python::session::CaptureSession;
use windows_capture_python::session::ClosedOutcome;
use windows_capture_python::session::FrameCall;
use windows_capture_python::session::FrameDecision;
use windows_capture_python::session::FrameMeta;
use windows_capture_python::session::SessionPhase;

fn frame(width: u32, height: u32, timestamp: i64) -> FrameMeta {
    FrameMeta {
        addr: 0x1000,
        len: (width as usize) * (height as usize) * 4,
        width,
        height,
        timestamp,
    }
}

fn deliver(session: &mut CaptureSession, meta: &FrameMeta, outcome: CallbackOutcome) -> FrameCall {
    let decision = session.begin_frame(meta, false);
    let call = match decision {
        FrameDecision::Deliver(call) => call,
        FrameDecision::Interrupted => panic!("no interrupt was pending"),
    };
    session.finish_frame(outcome);
    call
}

#[test]
fn frame_call_arguments_pass_through() {
    let mut session = CaptureSession::new();
    let meta = frame(640, 480, 777);
    let call = deliver(&mut session, &meta, CallbackOutcome::Returned { stop: false });
    assert_eq!(call.addr, 0x1000);
    assert_eq!(call.len, 640 * 480 * 4);
    assert_eq!(call.width, 640);
    assert_eq!(call.height, 480);
    assert_eq!(call.timestamp, 777);
    assert!(!call.stop_initial);
    assert_eq!(session.phase, SessionPhase::Idle);
    assert_eq!(session.frame_count(), 1);
}

#[test]
fn frame_counter_saturates_at_maximum() {
    let mut session = CaptureSession::new();
    session.frames_delivered = u64::MAX;
    let meta = frame(1, 1, 0);
    deliver(&mut session, &meta, CallbackOutcome::Returned { stop: false });
    assert_eq!(session.frame_count(), u64::MAX);
}

#[test]
fn stop_signal_ends_session_after_callback() {
    let mut session = CaptureSession::new();
    let meta = frame(2, 2, 1);
    deliver(&mut session, &meta, CallbackOutcome::Returned { stop: false });
    deliver(&mut session, &meta, CallbackOutcome::Returned { stop: true });
    // The engine loop ends after this frame: no further delivery begins.
    assert_eq!(session.phase, SessionPhase::Stopping);
    assert_eq!(session.frames_delivered, 2);
    // The closure notification still fires, exactly once.
    assert!(!session.closed_fired);
    session.close(ClosedOutcome::Returned);
    assert!(session.closed_fired);
    assert_eq!(session.phase, SessionPhase::Ended);
    // A stop is a normal successful termination, never an error.
    assert!(session.into_result().is_ok());
}

#[test]
fn failing_callback_ends_session_with_callback_error() {
    let mut session = CaptureSession::new();
    let meta = frame(2, 2, 1);
    deliver(&mut session, &meta, CallbackOutcome::Returned { stop: false });
    deliver(
        &mut session,
        &meta,
        CallbackOutcome::Failed("boom".to_string()),
    );
    assert_eq!(session.phase, SessionPhase::Failing);
    assert_eq!(session.frames_delivered, 2);
    session.close(ClosedOutcome::Returned);
    // Blocking mode surfaces the error as the run's return value.
    let err = session.into_result().unwrap_err();
    assert_eq!(
        err.cause,
        InnerNativeWindowsCaptureError::CallbackError("boom".to_string())
    );
}

#[test]
fn pending_interrupt_skips_callback_and_is_fatal() {
    let mut session = CaptureSession::new();
    let meta = frame(2, 2, 1);
    let decision = session.begin_frame(&meta, true);
    assert_eq!(decision, FrameDecision::Interrupted);
    // The frame callback was never invoked for this delivery.
    assert_eq!(session.frames_delivered, 0);
    assert_eq!(
        session.fatal,
        Some(InnerNativeWindowsCaptureError::InterruptError)
    );
    session.close(ClosedOutcome::Returned);
    let err = session.into_result().unwrap_err();
    assert_eq!(err.cause, InnerNativeWindowsCaptureError::InterruptError);
}

#[test]
fn frame_buffer_failure_is_fatal() {
    let mut session = CaptureSession::new();
    session.frame_buffer_failed("device lost".to_string());
    session.close(ClosedOutcome::Returned);
    let err = session.into_result().unwrap_err();
    assert_eq!(
        err.cause,
        InnerNativeWindowsCaptureError::FrameProcessError("device lost".to_string())
    );
}

#[test]
fn closed_callback_failure_becomes_terminal_error() {
    let mut session = CaptureSession::new();
    session.close(ClosedOutcome::Failed("closed hook raised".to_string()));
    let err = session.into_result().unwrap_err();
    assert_eq!(
        err.cause,
        InnerNativeWindowsCaptureError::CallbackError("closed hook raised".to_string())
    );
}

#[test]
fn first_fatal_error_wins_over_closed_failure() {
    let mut session = CaptureSession::new();
    let meta = frame(2, 2, 1);
    deliver(
        &mut session,
        &meta,
        CallbackOutcome::Failed("frame hook raised".to_string()),
    );
    session.close(ClosedOutcome::Failed("closed hook raised".to_string()));
    let err = session.into_result().unwrap_err();
    assert_eq!(
        err.cause,
        InnerNativeWindowsCaptureError::CallbackError("frame hook raised".to_string())
    );
}

#[test]
fn external_stop_request_ends_loop_at_frame_boundary() {
    let mut session = CaptureSession::new();
    let meta = frame(2, 2, 1);
    deliver(&mut session, &meta, CallbackOutcome::Returned { stop: false });
    session.request_stop();
    assert_eq!(session.phase, SessionPhase::Stopping);
    session.close(ClosedOutcome::Returned);
    assert!(session.into_result().is_ok());
}

#[test]
fn natural_closure_without_frames_is_success() {
    let mut session = CaptureSession::new();
    session.close(ClosedOutcome::Returned);
    assert_eq!(session.frames_delivered, 0);
    assert!(session.into_result().is_ok());
}
