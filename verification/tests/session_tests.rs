use heart_core::session::SessionError;
use heart_core::session::SessionState;

#[test]
fn fresh_session_is_idle() {
    let s = SessionState::new();
    assert!(!s.is_streaming());
    assert_eq!(s.selected_device(), None);
}

#[test]
fn start_without_selection_is_refused() {
    let s = SessionState::new();
    assert_eq!(s.prepare_start(), Err(SessionError::NoDeviceSelected));
}

#[test]
fn start_after_selection_hands_out_the_id() {
    let mut s = SessionState::new();
    assert_eq!(s.select_device("hrm-1".to_string()), None);
    assert_eq!(s.selected_device().as_deref(), Some("hrm-1"));
    assert_eq!(s.prepare_start(), Ok("hrm-1".to_string()));
}

#[test]
fn second_start_is_refused_and_task_kept() {
    let mut s = SessionState::new();
    s.select_device("hrm-1".to_string());
    let id = s.prepare_start().unwrap();
    assert_eq!(id, "hrm-1");
    s.mark_started(7);
    assert!(s.is_streaming());
    // A second start without an intervening stop is refused.
    assert_eq!(s.prepare_start(), Err(SessionError::AlreadyRunning));
    // The first session's task is still attached: stopping returns it.
    assert_eq!(s.stop_stream(), Ok(7));
}

#[test]
fn stop_when_idle_is_refused() {
    let mut s = SessionState::new();
    assert_eq!(s.stop_stream(), Err(SessionError::NotRunning));
    s.select_device("hrm-1".to_string());
    assert_eq!(s.stop_stream(), Err(SessionError::NotRunning));
}

#[test]
fn stop_cancels_and_clears_running() {
    let mut s = SessionState::new();
    s.select_device("hrm-1".to_string());
    s.mark_started(3);
    assert_eq!(s.stop_stream(), Ok(3));
    assert!(!s.is_streaming());
    // The selection survives the stop.
    assert_eq!(s.selected_device().as_deref(), Some("hrm-1"));
}

#[test]
fn select_while_streaming_cancels_the_task() {
    let mut s = SessionState::new();
    s.select_device("hrm-1".to_string());
    s.mark_started(11);
    let cancel = s.select_device("hrm-2".to_string());
    assert_eq!(cancel, Some(11));
    assert!(!s.is_streaming());
    assert_eq!(s.selected_device().as_deref(), Some("hrm-2"));
    // Nothing is left to stop: the implicit stop already detached the task.
    assert_eq!(s.stop_stream(), Err(SessionError::NotRunning));
}

#[test]
fn error_messages_match_the_surface() {
    assert_eq!(SessionError::AlreadyRunning.message(), "Heart rate stream is already running");
    assert_eq!(
        SessionError::NoDeviceSelected.message(),
        "No device selected. Please select a device first."
    );
    assert_eq!(SessionError::NotRunning.message(), "No heart rate stream is running");
}
