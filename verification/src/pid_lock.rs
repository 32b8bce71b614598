//! Taking the PID lock: the PID file records the process id of the running
//! instance. A previous file is read, its process probed and reported on,
//! then removed, and this process's id is written in its place.
//!
//! `PidLock::action` is what the driver must do next; `PidLock::advance`
//! takes what that gave and decides the next step.

use vstd::prelude::*;
use crate::pid::{decimal_text, lemma_pid_text_round_trip, parse_pid, pid_in_text};

verus! {

/// What is said about a PID file that was already there and named a process.
#[derive(PartialEq, Eq, Structural, Clone, Copy, Debug)]
pub enum LockNotice {
    /// The named process is alive: another instance may be running (a warning).
    AnotherInstance(u32),
    /// The named process is gone: the file is stale (for information).
    Stale(u32),
}

/// The paths the lock works on.
#[derive(PartialEq, Eq, Structural, Clone, Copy, Debug)]
pub enum LockPath {
    /// The PID file (`platform::fixed_pid_file_path`, or `PID_FILE_NAME` in
    /// the temporary directory).
    PidFile,
    /// The directory that holds the PID file.
    PidFileDir,
}

/// What the driver of the PID lock must do next.
#[derive(PartialEq, Eq, Structural, Clone, Copy, Debug)]
pub enum LockAction {
    /// Create this directory and its missing ancestors (its outcome is not
    /// looked at).
    CreateDir(LockPath),
    /// Find out whether this file exists.
    CheckExists(LockPath),
    /// Read this file as text.
    ReadFile(LockPath),
    /// Find out whether the process with this id is alive.
    CheckAlive(u32),
    /// Report on the previous file.
    Report(LockNotice),
    /// Remove this file (its outcome is not looked at).
    RemoveFile(LockPath),
    /// Write the decimal text of this id (`pid::pid_text`) as this file.
    WritePid(LockPath, u32),
    /// Done: whether this process now holds the lock.
    Finished(bool),
}

/// What the driver learned from the action it performed.
pub enum LockEvent {
    /// The action was performed; its result is not looked at.
    Done,
    /// Whether the PID file exists.
    Exists(bool),
    /// The content of the PID file, or `None` if it could not be read as text.
    Content(Option<String>),
    /// Whether the probed process is alive.
    Alive(bool),
    /// Whether the PID file was written.
    Written(bool),
}

/// A `LockEvent` with the text taken by its characters.
pub enum LockEventView {
    Done,
    Exists(bool),
    Content(Option<Seq<char>>),
    Alive(bool),
    Written(bool),
}

impl View for LockEvent {
    type V = LockEventView;

    open spec fn view(&self) -> LockEventView {
        match self {
            LockEvent::Done => LockEventView::Done,
            LockEvent::Exists(b) => LockEventView::Exists(*b),
            LockEvent::Content(None) => LockEventView::Content(None),
            LockEvent::Content(Some(s)) => LockEventView::Content(Some(s@)),
            LockEvent::Alive(b) => LockEventView::Alive(*b),
            LockEvent::Written(b) => LockEventView::Written(*b),
        }
    }
}

/// The state of taking the lock for process `pid`: the action it waits on.
#[derive(PartialEq, Eq, Structural, Clone, Copy, Debug)]
pub struct PidLock {
    pub pid: u32,
    pub pending: LockAction,
}

/// The notice for a previous file that names `old_pid`.
pub open spec fn spec_notice(old_pid: u32, alive: bool) -> LockNotice {
    if alive {
        LockNotice::AnotherInstance(old_pid)
    } else {
        LockNotice::Stale(old_pid)
    }
}

/// The state after the pending action of `s` gave `e`. An event that does
/// not answer the pending action leaves the state as it is; so does any
/// event once the lock is finished.
pub open spec fn spec_advance(s: PidLock, e: LockEventView) -> PidLock {
    match s.pending {
        LockAction::CreateDir(_) => PidLock { pending: LockAction::CheckExists(LockPath::PidFile), ..s },
        LockAction::CheckExists(_) => match e {
            LockEventView::Exists(true) => PidLock { pending: LockAction::ReadFile(LockPath::PidFile), ..s },
            LockEventView::Exists(false) => PidLock { pending: LockAction::WritePid(LockPath::PidFile, s.pid), ..s },
            _ => s,
        },
        LockAction::ReadFile(_) => match e {
            LockEventView::Content(Some(c)) => match pid_in_text(c) {
                Some(old) => PidLock { pending: LockAction::CheckAlive(old), ..s },
                None => PidLock { pending: LockAction::RemoveFile(LockPath::PidFile), ..s },
            },
            LockEventView::Content(None) => PidLock { pending: LockAction::RemoveFile(LockPath::PidFile), ..s },
            _ => s,
        },
        LockAction::CheckAlive(old) => match e {
            LockEventView::Alive(a) => PidLock { pending: LockAction::Report(spec_notice(old, a)), ..s },
            _ => s,
        },
        LockAction::Report(_) => PidLock { pending: LockAction::RemoveFile(LockPath::PidFile), ..s },
        LockAction::RemoveFile(_) => PidLock { pending: LockAction::WritePid(LockPath::PidFile, s.pid), ..s },
        LockAction::WritePid(_, _) => match e {
            LockEventView::Written(ok) => PidLock { pending: LockAction::Finished(ok), ..s },
            _ => s,
        },
        LockAction::Finished(_) => s,
    }
}

impl PidLock {
    /// Begin taking the lock for process `pid`, by creating the directory of
    /// the PID file.
    pub fn start(pid: u32) -> (r: PidLock)
        ensures
            r == (PidLock { pid, pending: LockAction::CreateDir(LockPath::PidFileDir) }),
    {
        PidLock { pid, pending: LockAction::CreateDir(LockPath::PidFileDir) }
    }

    /// The action the driver must perform next.
    pub fn action(&self) -> (r: LockAction)
        ensures
            r == self.pending,
    {
        self.pending
    }

    /// The lock's result once it is finished: whether this process holds it.
    pub fn outcome(&self) -> (r: Option<bool>)
        ensures
            r == (match self.pending {
                LockAction::Finished(ok) => Some(ok),
                _ => None::<bool>,
            }),
    {
        match self.pending {
            LockAction::Finished(ok) => Some(ok),
            _ => None,
        }
    }

    /// The state after the pending action gave `event`.
    pub fn advance(self, event: LockEvent) -> (r: PidLock)
        ensures
            r == spec_advance(self, event@),
    {
        match self.pending {
            LockAction::CreateDir(_) => PidLock { pending: LockAction::CheckExists(LockPath::PidFile), ..self },
            LockAction::CheckExists(_) => match event {
                LockEvent::Exists(true) => PidLock { pending: LockAction::ReadFile(LockPath::PidFile), ..self },
                LockEvent::Exists(false) => PidLock { pending: LockAction::WritePid(LockPath::PidFile, self.pid), ..self },
                _ => self,
            },
            LockAction::ReadFile(_) => match event {
                LockEvent::Content(Some(c)) => match parse_pid(c.as_str()) {
                    Some(old) => PidLock { pending: LockAction::CheckAlive(old), ..self },
                    None => PidLock { pending: LockAction::RemoveFile(LockPath::PidFile), ..self },
                },
                LockEvent::Content(None) => PidLock { pending: LockAction::RemoveFile(LockPath::PidFile), ..self },
                _ => self,
            },
            LockAction::CheckAlive(old) => match event {
                LockEvent::Alive(a) => PidLock {
                    pending: LockAction::Report(
                        if a {
                            LockNotice::AnotherInstance(old)
                        } else {
                            LockNotice::Stale(old)
                        },
                    ),
                    ..self
                },
                _ => self,
            },
            LockAction::Report(_) => PidLock { pending: LockAction::RemoveFile(LockPath::PidFile), ..self },
            LockAction::RemoveFile(_) => PidLock { pending: LockAction::WritePid(LockPath::PidFile, self.pid), ..self },
            LockAction::WritePid(_, _) => match event {
                LockEvent::Written(ok) => PidLock { pending: LockAction::Finished(ok), ..self },
                _ => self,
            },
            LockAction::Finished(_) => self,
        }
    }
}


/// The surroundings in which the lock is taken: whether a PID file is there,
/// its text (`None` if it cannot be read as text), the ids of the processes
/// that are alive, and whether writing the file succeeds.
pub struct LockWorld {
    pub exists: bool,
    pub content: Option<Seq<char>>,
    pub alive: Set<u32>,
    pub write_ok: bool,
}

/// What performing `a` gives in the world `w`.
pub open spec fn answer(w: LockWorld, a: LockAction) -> LockEventView {
    match a {
        LockAction::CheckExists(_) => LockEventView::Exists(w.exists),
        LockAction::ReadFile(_) => LockEventView::Content(w.content),
        LockAction::CheckAlive(p) => LockEventView::Alive(w.alive.contains(p)),
        LockAction::WritePid(_, _) => LockEventView::Written(w.write_ok),
        _ => LockEventView::Done,
    }
}

/// The actions performed from `s` in the world `w`, at most `fuel` steps
/// ahead; the last element is the action pending at the end.
pub open spec fn run_in(w: LockWorld, s: PidLock, fuel: nat) -> Seq<LockAction>
    decreases fuel,
{
    if fuel == 0 || s.pending is Finished {
        seq![s.pending]
    } else {
        seq![s.pending] + run_in(w, spec_advance(s, answer(w, s.pending)), (fuel - 1) as nat)
    }
}

/// The process id that the PID file in `w` names, if it is there and names one.
pub open spec fn previous_pid(w: LockWorld) -> Option<u32> {
    if w.exists {
        match w.content {
            Some(c) => pid_in_text(c),
            None => None,
        }
    } else {
        None
    }
}

/// The whole course of taking the lock for `pid` in the world `w`.
pub open spec fn lock_run(w: LockWorld, pid: u32) -> Seq<LockAction> {
    seq![LockAction::CreateDir(LockPath::PidFileDir), LockAction::CheckExists(LockPath::PidFile)]
        + (if w.exists {
            seq![LockAction::ReadFile(LockPath::PidFile)] + (match previous_pid(w) {
                Some(p) => seq![
                    LockAction::CheckAlive(p),
                    LockAction::Report(
                        if w.alive.contains(p) {
                            LockNotice::AnotherInstance(p)
                        } else {
                            LockNotice::Stale(p)
                        },
                    ),
                ],
                None => Seq::empty(),
            }) + seq![LockAction::RemoveFile(LockPath::PidFile)]
        } else {
            Seq::empty()
        })
        + seq![LockAction::WritePid(LockPath::PidFile, pid), LockAction::Finished(w.write_ok)]
}

/// Taking the lock: the directory is created; a file already there is read,
/// the process it names (if it names one) is probed and reported as another
/// instance when alive and as stale otherwise, and the file is removed whether
/// or not it could be read; then this process's id is written, and the lock is
/// held exactly when that write succeeded. Seven steps always finish it.
pub proof fn law_lock_run(w: LockWorld, pid: u32)
    ensures
        run_in(w, PidLock { pid, pending: LockAction::CreateDir(LockPath::PidFileDir) }, 7) == lock_run(w, pid),
{
    reveal_with_fuel(run_in, 8);
    assert(run_in(w, PidLock { pid, pending: LockAction::CreateDir(LockPath::PidFileDir) }, 7) =~= lock_run(w, pid));
}

/// A process that finds the PID file written by process `p` probes `p`: the
/// text that `pid_text(p)` wrote names `p` when it is read back.
pub proof fn law_reads_back_writer(pid: u32, p: u32)
    ensures
        spec_advance(
            PidLock { pid, pending: LockAction::ReadFile(LockPath::PidFile) },
            LockEventView::Content(Some(decimal_text(p as nat))),
        ).pending == LockAction::CheckAlive(p),
{
    lemma_pid_text_round_trip(p);
}


/// What taking the lock for `pid` in `w` is allowed to do with `a`: only the
/// directory of the PID file is created; only the PID file is checked, read,
/// removed and written, and what is written is `pid`; the only process probed
/// is the one the previous file names (with signal 0, `platform::liveness_probe`).
pub open spec fn stays_within_lock(w: LockWorld, pid: u32, a: LockAction) -> bool {
    match a {
        LockAction::CreateDir(p) => p == LockPath::PidFileDir,
        LockAction::CheckExists(p) => p == LockPath::PidFile,
        LockAction::ReadFile(p) => p == LockPath::PidFile,
        LockAction::RemoveFile(p) => p == LockPath::PidFile,
        LockAction::WritePid(p, q) => p == LockPath::PidFile && q == pid,
        LockAction::CheckAlive(q) => previous_pid(w) == Some(q),
        LockAction::Report(_) => true,
        LockAction::Finished(_) => true,
    }
}

/// Taking the lock changes nothing but the PID file and its directory (which
/// may be created), writes nothing but this process's id, and probes no
/// process but the one the previous PID file names.
pub proof fn law_lock_stays_within_pid_file(w: LockWorld, pid: u32)
    ensures
        forall|i: int|
            0 <= i < run_in(w, PidLock { pid, pending: LockAction::CreateDir(LockPath::PidFileDir) }, 7).len()
                ==> stays_within_lock(
                w,
                pid,
                #[trigger] run_in(w, PidLock { pid, pending: LockAction::CreateDir(LockPath::PidFileDir) }, 7)[i],
            ),
{
    law_lock_run(w, pid);
    let r = lock_run(w, pid);
    assert forall|i: int| 0 <= i < r.len() implies stays_within_lock(w, pid, #[trigger] r[i]) by {
        if w.exists {
            match previous_pid(w) {
                Some(p) => {
                    assert(r =~= seq![
                        LockAction::CreateDir(LockPath::PidFileDir),
                        LockAction::CheckExists(LockPath::PidFile),
                        LockAction::ReadFile(LockPath::PidFile),
                        LockAction::CheckAlive(p),
                        LockAction::Report(
                            if w.alive.contains(p) {
                                LockNotice::AnotherInstance(p)
                            } else {
                                LockNotice::Stale(p)
                            },
                        ),
                        LockAction::RemoveFile(LockPath::PidFile),
                        LockAction::WritePid(LockPath::PidFile, pid),
                        LockAction::Finished(w.write_ok),
                    ]);
                },
                None => {
                    assert(r =~= seq![
                        LockAction::CreateDir(LockPath::PidFileDir),
                        LockAction::CheckExists(LockPath::PidFile),
                        LockAction::ReadFile(LockPath::PidFile),
                        LockAction::RemoveFile(LockPath::PidFile),
                        LockAction::WritePid(LockPath::PidFile, pid),
                        LockAction::Finished(w.write_ok),
                    ]);
                },
            }
        } else {
            assert(r =~= seq![
                LockAction::CreateDir(LockPath::PidFileDir),
                LockAction::CheckExists(LockPath::PidFile),
                LockAction::WritePid(LockPath::PidFile, pid),
                LockAction::Finished(w.write_ok),
            ]);
        }
    }
}


/// The verdict on a previous PID file: whatever its id, a live process is
/// reported as another running instance and a gone one as a stale file, and
/// the report names the id that was probed.
pub proof fn law_probe_verdict(pid: u32, old_pid: u32)
    ensures
        spec_advance(
            PidLock { pid, pending: LockAction::CheckAlive(old_pid) },
            LockEventView::Alive(true),
        ).pending == LockAction::Report(LockNotice::AnotherInstance(old_pid)),
        spec_advance(
            PidLock { pid, pending: LockAction::CheckAlive(old_pid) },
            LockEventView::Alive(false),
        ).pending == LockAction::Report(LockNotice::Stale(old_pid)),
{
}

} // verus!
