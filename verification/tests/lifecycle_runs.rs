use celestial_service::lifecycle::{Action, Finish, Lifecycle, Mode, RunError, ServiceState};

fn drive(mode: Mode, outcomes: &[bool]) -> Vec<Action> {
    let mut s = Lifecycle::start(mode);
    let mut out = vec![s.action()];
    let mut i = 0;
    while !s.is_finished() {
        s = s.advance(outcomes[i]);
        i += 1;
        out.push(s.action());
    }
    out
}


#[test]
fn standalone_graceful_run_releases_lock() {
    assert_eq!(
        drive(Mode::Standalone, &[true, true, true, true, true, true]),
        vec![Action::AcquirePidLock, Action::StartServer, Action::WaitForShutdown, Action::StopServer, Action::AbortServer, Action::ReleasePidLock, Action::Exit(Finish::Success)]
    );
}

#[test]
fn standalone_without_lock_skips_release() {
    assert_eq!(
        drive(Mode::Standalone, &[false, true, false, false, false]),
        vec![Action::AcquirePidLock, Action::StartServer, Action::WaitForShutdown, Action::StopServer, Action::AbortServer, Action::Exit(Finish::Success)]
    );
}

#[test]
fn standalone_server_failure() {
    assert_eq!(
        drive(Mode::Standalone, &[true, false, true]),
        vec![Action::AcquirePidLock, Action::StartServer, Action::ReleasePidLock, Action::Exit(Finish::Failure(RunError::ServerStart))]
    );
    assert_eq!(
        drive(Mode::Standalone, &[false, false]),
        vec![Action::AcquirePidLock, Action::StartServer, Action::Exit(Finish::Failure(RunError::ServerStart))]
    );
}

#[test]
fn service_graceful_run() {
    assert_eq!(
        drive(Mode::Service, &[true, true, true, true, true, true, true]),
        vec![
            Action::RegisterControlHandler,
            Action::ReportStatus(ServiceState::Running),
            Action::StartServer,
            Action::WaitForShutdown,
            Action::StopServer,
            Action::AbortServer,
            Action::ReportStatus(ServiceState::Stopped),
            Action::Exit(Finish::Success),
        ]
    );
}

#[test]
fn service_server_failure_still_reports_stopped() {
    assert_eq!(
        drive(Mode::Service, &[true, true, false, true]),
        vec![
            Action::RegisterControlHandler,
            Action::ReportStatus(ServiceState::Running),
            Action::StartServer,
            Action::ReportStatus(ServiceState::Stopped),
            Action::Exit(Finish::Success),
        ]
    );
}

#[test]
fn service_failures() {
    assert_eq!(
        drive(Mode::Service, &[false]),
        vec![Action::RegisterControlHandler, Action::Exit(Finish::Failure(RunError::ControlHandler))]
    );
    assert_eq!(
        drive(Mode::Service, &[true, false]),
        vec![Action::RegisterControlHandler, Action::ReportStatus(ServiceState::Running), Action::Exit(Finish::Failure(RunError::StatusReport))]
    );
    assert_eq!(
        drive(Mode::Service, &[true, true, true, false, false, false, false]).last(),
        Some(&Action::Exit(Finish::Failure(RunError::StatusReport)))
    );
}

#[test]
fn exit_is_final() {
    let s = Lifecycle::start(Mode::Service).advance(false);
    assert!(s.is_finished());
    assert_eq!(s.advance(true), s);
    assert_eq!(s.advance(false).action(), Action::Exit(Finish::Failure(RunError::ControlHandler)));
}
