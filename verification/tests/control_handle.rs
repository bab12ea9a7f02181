use windows_capture_python::capture::NativeWindowsCapture;
use windows_capture_python::capture::EngineSnapshot;
use windows_capture_python::capture::ResolvedTarget;
use windows_capture_python::control::NativeCaptureControl;
use windows_capture_python::errors::InnerNativeWindowsCaptureError;
use windows_capture_python::session::CallbackOutcome;
use windows_capture_python::session::CaptureSession;
use windows_capture_python::session::ClosedOutcome;
use windows_capture_python::session::FrameDecision;
use windows_capture_python::session::FrameMeta;
use windows_capture_python::settings::CursorCaptureSettings;

fn meta(timestamp: i64) -> FrameMeta {
    FrameMeta { addr: 0x2000, len: 16, width: 2, height: 2, timestamp }
}

fn deliver_ok(control: &mut NativeCaptureControl, timestamp: i64) {
    let decision = control.begin_frame(&meta(timestamp), false);
    assert!(matches!(decision, FrameDecision::Deliver(_)));
    control.finish_frame(CallbackOutcome::Returned { stop: false });
}

#[test]
fn wait_twice_after_end_succeeds_both_times() {
    let mut control = NativeCaptureControl::new(CaptureSession::new());
    control.close(ClosedOutcome::Returned);
    assert!(control.wait().is_ok());
    // The joinable reference is consumed: the second call short-circuits.
    assert!(control.wait().is_ok());
    assert!(control.is_finished());
}

#[test]
fn second_wait_succeeds_even_after_error() {
    let mut control = NativeCaptureControl::new(CaptureSession::new());
    let decision = control.begin_frame(&meta(1), false);
    assert!(matches!(decision, FrameDecision::Deliver(_)));
    control.finish_frame(CallbackOutcome::Failed("boom".to_string()));
    control.close(ClosedOutcome::Returned);
    let err = control.wait().unwrap_err();
    assert_eq!(
        err.cause,
        InnerNativeWindowsCaptureError::CallbackError("boom".to_string())
    );
    assert!(control.wait().is_ok());
    assert!(control.stop().is_ok());
}

#[test]
fn stop_surfaces_fatal_error_once() {
    let mut control = NativeCaptureControl::new(CaptureSession::new());
    control.start_failed("no capture device".to_string());
    assert!(control.is_finished());
    let err = control.stop().unwrap_err();
    assert_eq!(
        err.cause,
        InnerNativeWindowsCaptureError::SessionStartError("no capture device".to_string())
    );
    assert!(control.stop().is_ok());
}

#[test]
fn deferred_start_failure_surfaces_at_wait() {
    let mut control = NativeCaptureControl::new(CaptureSession::new());
    // The handle was already handed out; the engine then failed on the
    // session thread.  The failure must not be dropped.
    assert!(!control.is_finished());
    control.start_failed("adapter gone".to_string());
    let err = control.wait().unwrap_err();
    assert_eq!(
        err.cause,
        InnerNativeWindowsCaptureError::SessionStartError("adapter gone".to_string())
    );
}

#[test]
fn external_stop_then_join_is_success() {
    let mut control = NativeCaptureControl::new(CaptureSession::new());
    deliver_ok(&mut control, 1);
    control.request_stop();
    control.close(ClosedOutcome::Returned);
    assert!(control.is_finished());
    assert!(control.stop().is_ok());
}

#[test]
fn detached_three_frames_then_external_closure() {
    // Construct with monitor index 2 and cursor capture off, start
    // detached; the engine emits three frames, then the target goes away.
    let capture = NativeWindowsCapture::new(
        Some(false),
        None,
        None,
        None,
        None,
        Some(2),
        None,
        None,
    )
    .unwrap();
    assert_eq!(capture.settings.cursor_capture, CursorCaptureSettings::WithoutCursor);
    let snapshot = EngineSnapshot { monitor_count: 3, window_titles: Vec::new() };
    let (command, mut control) = capture.start_free_threaded(&snapshot).unwrap();
    assert_eq!(command.target, ResolvedTarget::Monitor(2));
    assert_eq!(command.settings.cursor_capture, CursorCaptureSettings::WithoutCursor);

    assert!(!control.is_finished());
    deliver_ok(&mut control, 1);
    deliver_ok(&mut control, 2);
    deliver_ok(&mut control, 3);
    assert!(!control.is_finished());

    // Exactly one closed notification, then the session counts as finished.
    control.close(ClosedOutcome::Returned);
    assert!(control.is_finished());

    // The join returns success with no error, twice.
    assert!(control.wait().is_ok());
    assert!(control.wait().is_ok());
}

#[test]
fn detached_stop_signal_from_frame_callback() {
    let capture = NativeWindowsCapture::new(None, None, None, None, None, None, None, None)
        .unwrap();
    let snapshot = EngineSnapshot { monitor_count: 1, window_titles: Vec::new() };
    let (_command, mut control) = capture.start_free_threaded(&snapshot).unwrap();
    let decision = control.begin_frame(&meta(9), false);
    match decision {
        FrameDecision::Deliver(call) => assert!(!call.stop_initial),
        FrameDecision::Interrupted => panic!("no interrupt was pending"),
    }
    // The callback set the per-delivery stop signal.
    control.finish_frame(CallbackOutcome::Returned { stop: true });
    assert!(!control.is_finished());
    control.close(ClosedOutcome::Returned);
    assert!(control.is_finished());
    assert!(control.wait().is_ok());
}

#[test]
fn detached_interrupt_reported_through_wait() {
    let capture = NativeWindowsCapture::new(None, None, None, None, None, None, None, None)
        .unwrap();
    let snapshot = EngineSnapshot { monitor_count: 1, window_titles: Vec::new() };
    let (_command, mut control) = capture.start_free_threaded(&snapshot).unwrap();
    let decision = control.begin_frame(&meta(1), true);
    assert_eq!(decision, FrameDecision::Interrupted);
    control.close(ClosedOutcome::Returned);
    let err = control.wait().unwrap_err();
    assert_eq!(err.cause, InnerNativeWindowsCaptureError::InterruptError);
}
