//! The answers given to the Windows service control manager.

use vstd::prelude::*;
use crate::lifecycle::{Mode, ServiceState};

verus! {

/// A control request sent by the service control manager.
#[derive(PartialEq, Eq, Structural, Clone, Copy, Debug)]
pub enum ControlRequest {
    Stop,
    Interrogate,
    /// Any other control (pause, continue, shutdown, ...).
    Other,
}

/// The handler's answer to a control request.
#[derive(PartialEq, Eq, Structural, Clone, Copy, Debug)]
pub enum ControlReply {
    NoError,
    NotImplemented,
}

/// What the control handler does with a request.
#[derive(PartialEq, Eq, Structural, Clone, Copy, Debug)]
pub struct ControlDecision {
    /// Whether the run's shutdown signal is sent.
    pub signal_shutdown: bool,
    pub reply: ControlReply,
}

/// The control handler: Stop sends the shutdown signal and is answered
/// NoError, Interrogate is answered NoError, and every other control is
/// answered NotImplemented. Only Stop shuts the run down.
pub fn handle_control(request: ControlRequest) -> (r: ControlDecision)
    ensures
        r.signal_shutdown <==> request == ControlRequest::Stop,
        r.reply == (if request == ControlRequest::Other {
            ControlReply::NotImplemented
        } else {
            ControlReply::NoError
        }),
{
    match request {
        ControlRequest::Stop => ControlDecision { signal_shutdown: true, reply: ControlReply::NoError },
        ControlRequest::Interrogate => ControlDecision {
            signal_shutdown: false,
            reply: ControlReply::NoError,
        },
        ControlRequest::Other => ControlDecision {
            signal_shutdown: false,
            reply: ControlReply::NotImplemented,
        },
    }
}

/// A status report to the service control manager, for a service that runs in
/// its own process.
#[derive(PartialEq, Eq, Structural, Clone, Copy, Debug)]
pub struct StatusReport {
    pub state: ServiceState,
    /// Whether the Stop control is accepted (no control is, otherwise).
    pub accepts_stop: bool,
    /// The Win32 exit code.
    pub exit_code: u32,
    pub checkpoint: u32,
    pub wait_hint_ms: u64,
    pub process_id: Option<u32>,
}

/// The report for a state: a running service accepts Stop and a stopped one
/// accepts nothing; both report exit code 0, checkpoint 0, no wait hint and
/// no process id.
pub fn status_report(state: ServiceState) -> (r: StatusReport)
    ensures
        r.state == state,
        r.accepts_stop <==> state == ServiceState::Running,
        r.exit_code == 0,
        r.checkpoint == 0,
        r.wait_hint_ms == 0,
        r.process_id is None,
{
    StatusReport {
        state,
        accepts_stop: match state {
            ServiceState::Running => true,
            ServiceState::Stopped => false,
        },
        exit_code: 0,
        checkpoint: 0,
        wait_hint_ms: 0,
        process_id: None,
    }
}

/// On Windows the process first offers itself to the service dispatcher; when
/// that fails (it was not started as a service) it runs standalone instead.
/// When the dispatcher accepted it, the service run has already taken place.
pub fn mode_after_dispatch(dispatched: bool) -> (r: Option<Mode>)
    ensures
        r == (if dispatched { None } else { Some(Mode::Standalone) }),
{
    if dispatched {
        None
    } else {
        Some(Mode::Standalone)
    }
}

} // verus!
