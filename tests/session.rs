use pitch_tracker::{CaptureSession, SessionController, SessionError, SessionState, StreamCommand};

#[test]
fn start_twice_is_refused() {
    let mut c = SessionController::new();
    assert_eq!(c.request_start(), Ok(()));
    assert_eq!(c.current(), SessionState::Starting);
    assert_eq!(c.request_start(), Err(SessionError::AlreadyRunning));
    assert!(c.stream_started());
    assert_eq!(c.request_start(), Err(SessionError::AlreadyRunning));
    assert!(c.accepts_chunks());
}

#[test]
fn stop_while_idle_is_refused() {
    let mut c = SessionController::new();
    assert_eq!(c.request_stop(), Err(SessionError::NotRunning));
    assert_eq!(c.current(), SessionState::Idle);
    assert_eq!(SessionError::NotRunning.message(), "pitch detection is not running");
}

#[test]
fn restart_after_stop_succeeds() {
    let mut c = SessionController::new();
    c.request_start().unwrap();
    assert!(c.stream_started());
    assert_eq!(c.request_stop(), Ok(()));
    assert!(!c.accepts_chunks());
    assert_eq!(c.request_stop(), Err(SessionError::NotRunning));
    c.stream_released();
    assert_eq!(c.current(), SessionState::Idle);
    assert_eq!(c.request_start(), Ok(()));
}

#[test]
fn failed_start_returns_to_idle() {
    let mut c = SessionController::new();
    c.request_start().unwrap();
    let e = c.start_failed(SessionError::DeviceUnavailable);
    assert_eq!(e, SessionError::DeviceUnavailable);
    assert_eq!(e.message(), "no default input device");
    assert_eq!(c.current(), SessionState::Idle);
    assert_eq!(c.request_start(), Ok(()));
}

#[test]
fn stream_error_stops_gracefully() {
    let mut c = SessionController::new();
    c.request_start().unwrap();
    c.stream_started();
    c.stream_failed();
    assert_eq!(c.current(), SessionState::Stopping);
    c.stream_released();
    assert_eq!(c.current(), SessionState::Idle);
}

#[test]
fn stop_during_start_closes_new_stream() {
    let mut c = SessionController::new();
    c.request_start().unwrap();
    assert_eq!(c.request_stop(), Ok(()));
    assert!(!c.stream_started());
    c.stream_released();
    assert_eq!(c.current(), SessionState::Idle);
}

#[test]
fn no_windows_after_stop() {
    let mut s: CaptureSession<i32> = CaptureSession::new(4);
    assert_eq!(s.on_chunk(&[1, 2, 3, 4, 5]), vec![vec![1, 2, 3, 4]]);
    s.handle_command(StreamCommand::Stop);
    assert!(s.is_stopped());
    assert!(s.on_chunk(&[6, 7, 8, 9, 10, 11, 12, 13]).is_empty());
    assert!(s.on_chunk(&[14]).is_empty());
}
