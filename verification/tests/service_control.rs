use celestial_service::lifecycle::{Mode, ServiceState};
use celestial_service::service::{
    handle_control, mode_after_dispatch, status_report, ControlDecision, ControlReply, ControlRequest,
};

#[test]
fn stop_requests_shutdown() {
    assert_eq!(
        handle_control(ControlRequest::Stop),
        ControlDecision { signal_shutdown: true, reply: ControlReply::NoError }
    );
}

#[test]
fn interrogate_is_answered() {
    assert_eq!(
        handle_control(ControlRequest::Interrogate),
        ControlDecision { signal_shutdown: false, reply: ControlReply::NoError }
    );
}

#[test]
fn other_controls_are_not_implemented() {
    assert_eq!(
        handle_control(ControlRequest::Other),
        ControlDecision { signal_shutdown: false, reply: ControlReply::NotImplemented }
    );
}

#[test]
fn running_and_stopped_reports() {
    let running = status_report(ServiceState::Running);
    assert_eq!(running.state, ServiceState::Running);
    assert!(running.accepts_stop);
    assert_eq!((running.exit_code, running.checkpoint, running.wait_hint_ms, running.process_id), (0, 0, 0, None));
    let stopped = status_report(ServiceState::Stopped);
    assert_eq!(stopped.state, ServiceState::Stopped);
    assert!(!stopped.accepts_stop);
    assert_eq!((stopped.exit_code, stopped.checkpoint, stopped.wait_hint_ms, stopped.process_id), (0, 0, 0, None));
}

#[test]
fn dispatch_failure_falls_back_to_standalone() {
    assert_eq!(mode_after_dispatch(false), Some(Mode::Standalone));
    assert_eq!(mode_after_dispatch(true), None);
}
