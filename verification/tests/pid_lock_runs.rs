use celestial_service::pid::pid_text;
use celestial_service::pid_lock::{LockAction, LockEvent, LockNotice, LockPath, PidLock};

struct World {
    exists: bool,
    content: Option<String>,
    alive: Vec<u32>,
    write_ok: bool,
}

fn drive(w: &World, pid: u32) -> Vec<LockAction> {
    let mut s = PidLock::start(pid);
    let mut out = vec![s.action()];
    while s.outcome().is_none() {
        let ev = match s.action() {
            LockAction::CheckExists(_) => LockEvent::Exists(w.exists),
            LockAction::ReadFile(_) => LockEvent::Content(w.content.clone()),
            LockAction::CheckAlive(p) => LockEvent::Alive(w.alive.contains(&p)),
            LockAction::WritePid(_, _) => LockEvent::Written(w.write_ok),
            _ => LockEvent::Done,
        };
        s = s.advance(ev);
        out.push(s.action());
    }
    out
}


#[test]
fn fresh_lock() {
    let w = World { exists: false, content: None, alive: vec![], write_ok: true };
    assert_eq!(drive(&w, 77), vec![LockAction::CreateDir(LockPath::PidFileDir), LockAction::CheckExists(LockPath::PidFile), LockAction::WritePid(LockPath::PidFile, 77), LockAction::Finished(true)]);
}

#[test]
fn stale_file_is_replaced() {
    let w = World { exists: true, content: Some("123\n".to_string()), alive: vec![], write_ok: true };
    assert_eq!(
        drive(&w, 77),
        vec![LockAction::CreateDir(LockPath::PidFileDir), LockAction::CheckExists(LockPath::PidFile), LockAction::ReadFile(LockPath::PidFile), LockAction::CheckAlive(123), LockAction::Report(LockNotice::Stale(123)), LockAction::RemoveFile(LockPath::PidFile), LockAction::WritePid(LockPath::PidFile, 77), LockAction::Finished(true)]
    );
}

#[test]
fn live_instance_is_reported_and_file_replaced() {
    let w = World { exists: true, content: Some("123".to_string()), alive: vec![123], write_ok: true };
    assert_eq!(
        drive(&w, 77),
        vec![LockAction::CreateDir(LockPath::PidFileDir), LockAction::CheckExists(LockPath::PidFile), LockAction::ReadFile(LockPath::PidFile), LockAction::CheckAlive(123), LockAction::Report(LockNotice::AnotherInstance(123)), LockAction::RemoveFile(LockPath::PidFile), LockAction::WritePid(LockPath::PidFile, 77), LockAction::Finished(true)]
    );
}

#[test]
fn garbage_or_unreadable_file_is_removed() {
    let w = World { exists: true, content: Some("not a pid".to_string()), alive: vec![], write_ok: true };
    assert_eq!(drive(&w, 5), vec![LockAction::CreateDir(LockPath::PidFileDir), LockAction::CheckExists(LockPath::PidFile), LockAction::ReadFile(LockPath::PidFile), LockAction::RemoveFile(LockPath::PidFile), LockAction::WritePid(LockPath::PidFile, 5), LockAction::Finished(true)]);
    let w = World { exists: true, content: None, alive: vec![], write_ok: false };
    assert_eq!(drive(&w, 5), vec![LockAction::CreateDir(LockPath::PidFileDir), LockAction::CheckExists(LockPath::PidFile), LockAction::ReadFile(LockPath::PidFile), LockAction::RemoveFile(LockPath::PidFile), LockAction::WritePid(LockPath::PidFile, 5), LockAction::Finished(false)]);
}

#[test]
fn failed_write_gives_no_lock() {
    let w = World { exists: false, content: None, alive: vec![], write_ok: false };
    let s = drive(&w, 9);
    assert_eq!(s.last(), Some(&LockAction::Finished(false)));
}

#[test]
fn reads_back_the_writer() {
    for p in [0u32, 1, 4242, u32::MAX] {
        let s = PidLock { pid: 1, pending: LockAction::ReadFile(LockPath::PidFile) };
        assert_eq!(s.advance(LockEvent::Content(Some(pid_text(p)))).action(), LockAction::CheckAlive(p));
    }
}

#[test]
fn unexpected_events_are_ignored() {
    let s = PidLock { pid: 1, pending: LockAction::CheckExists(LockPath::PidFile) };
    assert_eq!(s.advance(LockEvent::Written(true)), s);
    let f = PidLock { pid: 1, pending: LockAction::Finished(true) };
    assert_eq!(f.advance(LockEvent::Done), f);
    assert_eq!(f.outcome(), Some(true));
    assert_eq!(PidLock::start(3).outcome(), None);
}

#[test]
fn lock_touches_only_pid_file() {
    let w = World { exists: true, content: Some("31".to_string()), alive: vec![31], write_ok: true };
    for a in drive(&w, 8) {
        match a {
            LockAction::CreateDir(p) => assert_eq!(p, LockPath::PidFileDir),
            LockAction::CheckExists(p) | LockAction::ReadFile(p) | LockAction::RemoveFile(p) => assert_eq!(p, LockPath::PidFile),
            LockAction::WritePid(p, q) => assert_eq!((p, q), (LockPath::PidFile, 8)),
            LockAction::CheckAlive(q) => assert_eq!(q, 31),
            LockAction::Report(_) | LockAction::Finished(_) => {}
        }
    }
}
