//! The course of one run of the service: standalone (PID lock, IPC server,
//! shutdown signal) or under the Windows service control manager.
//!
//! The run is a state machine: `Lifecycle::action` is what the driver must do
//! next, and `Lifecycle::advance` takes whether that succeeded and gives the
//! next state. The driver performs the I/O; every decision is taken here.

use vstd::prelude::*;

verus! {

/// How the service was started.
#[derive(PartialEq, Eq, Structural, Clone, Copy, Debug)]
pub enum Mode {
    /// As an ordinary process, stopped by SIGINT, SIGTERM or Ctrl+C.
    Standalone,
    /// Under the Windows service control manager, stopped by a Stop control.
    Service,
}

/// The state reported to the service control manager.
#[derive(PartialEq, Eq, Structural, Clone, Copy, Debug)]
pub enum ServiceState {
    Running,
    Stopped,
}

/// Why a run ended in failure.
#[derive(PartialEq, Eq, Structural, Clone, Copy, Debug)]
pub enum RunError {
    /// The service control handler could not be registered.
    ControlHandler,
    /// A status report to the service control manager failed.
    StatusReport,
    /// The IPC server did not start.
    ServerStart,
}

/// How a run ends.
#[derive(PartialEq, Eq, Structural, Clone, Copy, Debug)]
pub enum Finish {
    Success,
    Failure(RunError),
}

/// What the driver of a run must do next.
#[derive(PartialEq, Eq, Structural, Clone, Copy, Debug)]
pub enum Action {
    /// Take the PID lock (its outcome: whether the PID file was written).
    AcquirePidLock,
    /// Register the service control handler.
    RegisterControlHandler,
    /// Report a state to the service control manager.
    ReportStatus(ServiceState),
    /// Start the IPC server.
    StartServer,
    /// Wait for the shutdown signal (its outcome is not looked at).
    WaitForShutdown,
    /// Ask the IPC server to stop (its outcome is not looked at).
    StopServer,
    /// Abort the IPC server's task (its outcome is not looked at).
    AbortServer,
    /// Remove the PID file that this run wrote (its outcome is not looked at).
    ReleasePidLock,
    /// The run is over.
    Exit(Finish),
}

/// The state of a run: the action it waits on, whether it holds the PID lock,
/// and how it ends once the lock is released.
#[derive(PartialEq, Eq, Structural, Clone, Copy, Debug)]
pub struct Lifecycle {
    pub mode: Mode,
    pub lock_held: bool,
    pub after_release: Finish,
    pub pending: Action,
}

/// Leave the run with `finish`, releasing the PID lock first if it is held.
pub open spec fn spec_end_with(s: Lifecycle, finish: Finish) -> Lifecycle {
    if s.lock_held {
        Lifecycle { after_release: finish, pending: Action::ReleasePidLock, ..s }
    } else {
        Lifecycle { pending: Action::Exit(finish), ..s }
    }
}

/// The first state of a run in the given mode.
pub open spec fn spec_start(mode: Mode) -> Lifecycle {
    Lifecycle {
        mode,
        lock_held: false,
        after_release: Finish::Success,
        pending: match mode {
            Mode::Standalone => Action::AcquirePidLock,
            Mode::Service => Action::RegisterControlHandler,
        },
    }
}

/// The state after the pending action of `s` completed, successfully or not.
pub open spec fn spec_advance(s: Lifecycle, ok: bool) -> Lifecycle {
    match s.pending {
        Action::AcquirePidLock => Lifecycle { lock_held: ok, pending: Action::StartServer, ..s },
        Action::RegisterControlHandler => if ok {
            Lifecycle { pending: Action::ReportStatus(ServiceState::Running), ..s }
        } else {
            spec_end_with(s, Finish::Failure(RunError::ControlHandler))
        },
        Action::ReportStatus(ServiceState::Running) => if ok {
            Lifecycle { pending: Action::StartServer, ..s }
        } else {
            spec_end_with(s, Finish::Failure(RunError::StatusReport))
        },
        Action::StartServer => if ok {
            Lifecycle { pending: Action::WaitForShutdown, ..s }
        } else {
            match s.mode {
                Mode::Standalone => spec_end_with(s, Finish::Failure(RunError::ServerStart)),
                Mode::Service => Lifecycle { pending: Action::ReportStatus(ServiceState::Stopped), ..s },
            }
        },
        Action::WaitForShutdown => Lifecycle { pending: Action::StopServer, ..s },
        Action::StopServer => Lifecycle { pending: Action::AbortServer, ..s },
        Action::AbortServer => match s.mode {
            Mode::Standalone => spec_end_with(s, Finish::Success),
            Mode::Service => Lifecycle { pending: Action::ReportStatus(ServiceState::Stopped), ..s },
        },
        Action::ReportStatus(ServiceState::Stopped) => if ok {
            spec_end_with(s, Finish::Success)
        } else {
            spec_end_with(s, Finish::Failure(RunError::StatusReport))
        },
        Action::ReleasePidLock => Lifecycle {
            lock_held: false,
            pending: Action::Exit(s.after_release),
            ..s
        },
        Action::Exit(_) => s,
    }
}

/// How many actions at most remain before the run exits.
pub open spec fn rank(a: Action) -> nat {
    match a {
        Action::RegisterControlHandler => 9,
        Action::AcquirePidLock => 8,
        Action::ReportStatus(ServiceState::Running) => 8,
        Action::StartServer => 7,
        Action::WaitForShutdown => 6,
        Action::StopServer => 5,
        Action::AbortServer => 4,
        Action::ReportStatus(ServiceState::Stopped) => 3,
        Action::ReleasePidLock => 2,
        Action::Exit(_) => 0,
    }
}

/// The actions a run performs from `s` when its actions have the given
/// outcomes, one outcome consumed per action; the last element is the action
/// pending when the outcomes run out or the run has exited.
pub open spec fn trace(s: Lifecycle, outcomes: Seq<bool>) -> Seq<Action>
    decreases outcomes.len(),
{
    if s.pending is Exit || outcomes.len() == 0 {
        seq![s.pending]
    } else {
        seq![s.pending] + trace(spec_advance(s, outcomes[0]), outcomes.drop_first())
    }
}

impl Lifecycle {
    /// The first state of a run in the given mode: a standalone run begins by
    /// taking the PID lock, a service run by registering its control handler.
    pub fn start(mode: Mode) -> (r: Lifecycle)
        ensures
            r == spec_start(mode),
    {
        Lifecycle {
            mode,
            lock_held: false,
            after_release: Finish::Success,
            pending: match mode {
                Mode::Standalone => Action::AcquirePidLock,
                Mode::Service => Action::RegisterControlHandler,
            },
        }
    }

    /// The action the driver must perform next.
    pub fn action(&self) -> (r: Action)
        ensures
            r == self.pending,
    {
        self.pending
    }

    /// Whether the run is over.
    pub fn is_finished(&self) -> (r: bool)
        ensures
            r == self.pending is Exit,
    {
        match self.pending {
            Action::Exit(_) => true,
            _ => false,
        }
    }

    fn end_with(self, finish: Finish) -> (r: Lifecycle)
        ensures
            r == spec_end_with(self, finish),
    {
        if self.lock_held {
            Lifecycle { after_release: finish, pending: Action::ReleasePidLock, ..self }
        } else {
            Lifecycle { pending: Action::Exit(finish), ..self }
        }
    }

    /// The state after the pending action completed (`ok`) or failed. A run
    /// that is not over comes strictly closer to its end.
    pub fn advance(self, ok: bool) -> (r: Lifecycle)
        ensures
            r == spec_advance(self, ok),
            !(self.pending is Exit) ==> rank(r.pending) < rank(self.pending),
            r.mode == self.mode,
    {
        match self.pending {
            Action::AcquirePidLock => Lifecycle { lock_held: ok, pending: Action::StartServer, ..self },
            Action::RegisterControlHandler => if ok {
                Lifecycle { pending: Action::ReportStatus(ServiceState::Running), ..self }
            } else {
                self.end_with(Finish::Failure(RunError::ControlHandler))
            },
            Action::ReportStatus(ServiceState::Running) => if ok {
                Lifecycle { pending: Action::StartServer, ..self }
            } else {
                self.end_with(Finish::Failure(RunError::StatusReport))
            },
            Action::StartServer => if ok {
                Lifecycle { pending: Action::WaitForShutdown, ..self }
            } else {
                match self.mode {
                    Mode::Standalone => self.end_with(Finish::Failure(RunError::ServerStart)),
                    Mode::Service => Lifecycle {
                        pending: Action::ReportStatus(ServiceState::Stopped),
                        ..self
                    },
                }
            },
            Action::WaitForShutdown => Lifecycle { pending: Action::StopServer, ..self },
            Action::StopServer => Lifecycle { pending: Action::AbortServer, ..self },
            Action::AbortServer => match self.mode {
                Mode::Standalone => self.end_with(Finish::Success),
                Mode::Service => Lifecycle {
                    pending: Action::ReportStatus(ServiceState::Stopped),
                    ..self
                },
            },
            Action::ReportStatus(ServiceState::Stopped) => if ok {
                self.end_with(Finish::Success)
            } else {
                self.end_with(Finish::Failure(RunError::StatusReport))
            },
            Action::ReleasePidLock => Lifecycle {
                lock_held: false,
                pending: Action::Exit(self.after_release),
                ..self
            },
            Action::Exit(_) => self,
        }
    }
}


/// The whole course of a standalone run, given whether the PID file was
/// written and whether the IPC server started.
pub open spec fn standalone_run(locked: bool, started: bool) -> Seq<Action> {
    seq![Action::AcquirePidLock, Action::StartServer]
        + (if started {
            seq![Action::WaitForShutdown, Action::StopServer, Action::AbortServer]
        } else {
            Seq::empty()
        })
        + (if locked { seq![Action::ReleasePidLock] } else { Seq::empty() })
        + seq![Action::Exit(if started { Finish::Success } else { Finish::Failure(RunError::ServerStart) })]
}

/// A standalone run takes the PID lock, starts the IPC server and, once it is
/// up, waits for the shutdown signal, then stops and aborts the server; it
/// removes the PID file it wrote before it exits, and it fails exactly when
/// the server did not start. Six outcomes always suffice to reach the exit.
pub proof fn law_standalone_run(outcomes: Seq<bool>)
    requires
        outcomes.len() >= 6,
    ensures
        trace(spec_start(Mode::Standalone), outcomes) == standalone_run(outcomes[0], outcomes[1]),
{
    reveal_with_fuel(trace, 8);
    let o = outcomes;
    assert(o.drop_first().drop_first() =~= o.subrange(2, o.len() as int));
    assert(o.subrange(2, o.len() as int).drop_first() =~= o.subrange(3, o.len() as int));
    assert(o.subrange(3, o.len() as int).drop_first() =~= o.subrange(4, o.len() as int));
    assert(o.subrange(4, o.len() as int).drop_first() =~= o.subrange(5, o.len() as int));
    assert(o.subrange(5, o.len() as int).drop_first() =~= o.subrange(6, o.len() as int));
    assert(trace(spec_start(Mode::Standalone), outcomes) =~= standalone_run(outcomes[0], outcomes[1]));
}

/// The whole course of a service run, given whether the control handler was
/// registered, whether the Running report went through, whether the IPC
/// server started and whether the Stopped report went through.
pub open spec fn service_run(registered: bool, running: bool, started: bool, stopped: bool) -> Seq<Action> {
    if !registered {
        seq![Action::RegisterControlHandler, Action::Exit(Finish::Failure(RunError::ControlHandler))]
    } else if !running {
        seq![
            Action::RegisterControlHandler,
            Action::ReportStatus(ServiceState::Running),
            Action::Exit(Finish::Failure(RunError::StatusReport)),
        ]
    } else {
        seq![
            Action::RegisterControlHandler,
            Action::ReportStatus(ServiceState::Running),
            Action::StartServer,
        ] + (if started {
            seq![Action::WaitForShutdown, Action::StopServer, Action::AbortServer]
        } else {
            Seq::empty()
        }) + seq![
            Action::ReportStatus(ServiceState::Stopped),
            Action::Exit(if stopped { Finish::Success } else { Finish::Failure(RunError::StatusReport) }),
        ]
    }
}

/// A service run registers its control handler and reports Running; then it
/// starts the IPC server and, if it came up, waits for the Stop control, stops
/// and aborts the server; in both cases it reports Stopped last. A failure to
/// register or to report ends the run with that error; a server that does not
/// start does not. Seven outcomes always suffice to reach the exit.
pub proof fn law_service_run(outcomes: Seq<bool>)
    requires
        outcomes.len() >= 7,
    ensures
        trace(spec_start(Mode::Service), outcomes) == service_run(
            outcomes[0],
            outcomes[1],
            outcomes[2],
            if outcomes[2] { outcomes[6] } else { outcomes[3] },
        ),
{
    reveal_with_fuel(trace, 9);
    let o = outcomes;
    assert(o.drop_first().drop_first() =~= o.subrange(2, o.len() as int));
    assert(o.subrange(2, o.len() as int).drop_first() =~= o.subrange(3, o.len() as int));
    assert(o.subrange(3, o.len() as int).drop_first() =~= o.subrange(4, o.len() as int));
    assert(o.subrange(4, o.len() as int).drop_first() =~= o.subrange(5, o.len() as int));
    assert(o.subrange(5, o.len() as int).drop_first() =~= o.subrange(6, o.len() as int));
    assert(o.subrange(6, o.len() as int).drop_first() =~= o.subrange(7, o.len() as int));
    assert(trace(spec_start(Mode::Service), outcomes) =~= service_run(
        o[0], o[1], o[2], if o[2] { o[6] } else { o[3] }));
}

} // verus!
