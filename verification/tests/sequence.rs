//! Scenario walks of the daemonization state machine.

use daemonkit::config::{DaemonConfig, Identity};
use daemonkit::error::ErrorKind;
use daemonkit::machine::{Action, Daemon, Event, Phase, Step};

fn ok() -> Event {
    Event::Syscall { ret: 0, errno: 0 }
}

fn failed(errno: i32) -> Event {
    Event::Syscall { ret: -1, errno }
}

fn expect_action(s: Step) -> Action {
    match s {
        Step::Continue(a) => a,
        other => panic!("expected an action, got {:?}", other),
    }
}

fn bare_config() -> DaemonConfig {
    DaemonConfig::new(None, None, None)
}

#[test]
fn full_sequence_without_pid_file_emits_no_pid_file_actions() {
    let mut d = Daemon::new(bare_config());
    let mut actions: Vec<Action> = Vec::new();
    let mut step = d.step(Event::Start);
    loop {
        match step {
            Step::Continue(a) => {
                let event = match a {
                    Action::LookupGroup(_) | Action::LookupUser(_) => {
                        Event::Lookup { id: Some(1) }
                    }
                    _ => ok(),
                };
                actions.push(a);
                step = d.step(event);
            }
            Step::Done => break,
            other => panic!("unexpected step {:?}", other),
        }
    }
    for a in &actions {
        let touches_pid_file = matches!(
            a,
            Action::OpenPidFile(_)
                | Action::LockPidFile
                | Action::ReadProcessId
                | Action::WritePidFile(_)
                | Action::ChownPidFile { .. }
                | Action::UnlockPidFile
        );
        assert!(!touches_pid_file, "pid file touched: {:?}", a);
    }
    assert_eq!(d.phase, Phase::Daemonized);
    assert_eq!(
        actions,
        vec![
            Action::Fork,
            Action::CreateSession,
            Action::ChangeDirectory(b"/".to_vec()),
            Action::ApplyMask(0o022),
            Action::Fork,
            Action::OpenNullDevice,
            Action::RedirectStdin,
            Action::RedirectStdout,
            Action::RedirectStderr,
        ]
    );
}

#[test]
fn fork_parent_is_told_to_exit() {
    let mut d = Daemon::new(bare_config());
    assert_eq!(expect_action(d.step(Event::Start)), Action::Fork);
    let step = d.step(Event::Syscall { ret: 4321, errno: 0 });
    assert!(matches!(step, Step::ExitParent));
}

#[test]
fn fork_failure_is_tagged_with_the_captured_code() {
    let mut d = Daemon::new(bare_config());
    assert_eq!(expect_action(d.step(Event::Start)), Action::Fork);
    match d.step(failed(12)) {
        Step::Fail(e) => {
            assert_eq!(e.kind(), ErrorKind::ForkFailed);
            assert_eq!(e.as_io_error(), Some(12));
        }
        other => panic!("unexpected step {:?}", other),
    }
    assert_eq!(d.phase, Phase::Failed);
}

#[test]
fn group_change_is_issued_strictly_before_user_change() {
    let mut config = bare_config();
    config.target_group = Some(Identity::Numeric(20));
    config.target_user = Some(Identity::Numeric(1000));
    let mut d = Daemon::new(config);
    assert_eq!(expect_action(d.step(Event::Start)), Action::Fork);
    assert_eq!(expect_action(d.step(ok())), Action::CreateSession);
    assert_eq!(
        expect_action(d.step(ok())),
        Action::ChangeDirectory(b"/".to_vec())
    );
    assert_eq!(expect_action(d.step(ok())), Action::ApplyMask(0o022));
    assert_eq!(expect_action(d.step(ok())), Action::ChangeGroup(20));
    assert_eq!(expect_action(d.step(ok())), Action::ChangeUser(1000));
    assert_eq!(expect_action(d.step(ok())), Action::Fork);
}

#[test]
fn symbolic_group_and_user_resolve_in_order() {
    let mut config = bare_config();
    config.target_group = Some(Identity::Named(b"staff".to_vec()));
    config.target_user = Some(Identity::Named(b"svc".to_vec()));
    let mut d = Daemon::new(config);
    assert_eq!(expect_action(d.step(Event::Start)), Action::Fork);
    assert_eq!(expect_action(d.step(ok())), Action::CreateSession);
    assert_eq!(
        expect_action(d.step(ok())),
        Action::ChangeDirectory(b"/".to_vec())
    );
    assert_eq!(expect_action(d.step(ok())), Action::ApplyMask(0o022));
    assert_eq!(
        expect_action(d.step(ok())),
        Action::LookupGroup(b"staff".to_vec())
    );
    assert_eq!(
        expect_action(d.step(Event::Lookup { id: Some(20) })),
        Action::ChangeGroup(20)
    );
    assert_eq!(expect_action(d.step(ok())), Action::LookupUser(b"svc".to_vec()));
    assert_eq!(
        expect_action(d.step(Event::Lookup { id: Some(77) })),
        Action::ChangeUser(77)
    );
    assert_eq!(d.resolved_gid, Some(20));
    assert_eq!(d.resolved_uid, Some(77));
}

#[test]
fn held_lock_yields_lock_failure_distinguishable_from_open_failure() {
    let mut config = bare_config();
    config.pid_file_path = Some(b"/run/svc.pid".to_vec());
    let mut d = Daemon::new(config);
    assert_eq!(expect_action(d.step(Event::Start)), Action::Fork);
    assert_eq!(expect_action(d.step(ok())), Action::CreateSession);
    assert_eq!(
        expect_action(d.step(ok())),
        Action::ChangeDirectory(b"/".to_vec())
    );
    assert_eq!(expect_action(d.step(ok())), Action::ApplyMask(0o022));
    assert_eq!(expect_action(d.step(ok())), Action::Fork);
    assert_eq!(
        expect_action(d.step(ok())),
        Action::OpenPidFile(b"/run/svc.pid".to_vec())
    );
    assert_eq!(expect_action(d.step(ok())), Action::LockPidFile);
    // Another process holds the advisory lock: the OS reports "resource
    // temporarily unavailable".
    match d.step(failed(11)) {
        Step::Fail(e) => {
            assert_eq!(e.kind(), ErrorKind::PidFileLockFailed);
            assert_ne!(e.kind(), ErrorKind::PidFileOpenFailed);
            assert!(e.is_io_error());
            assert_eq!(e.as_io_error(), Some(11));
        }
        other => panic!("unexpected step {:?}", other),
    }
}

#[test]
fn pid_file_open_failure_carries_its_own_kind() {
    let mut config = bare_config();
    config.pid_file_path = Some(b"/run/svc.pid".to_vec());
    let mut d = Daemon::new(config);
    assert_eq!(expect_action(d.step(Event::Start)), Action::Fork);
    assert_eq!(expect_action(d.step(ok())), Action::CreateSession);
    assert_eq!(
        expect_action(d.step(ok())),
        Action::ChangeDirectory(b"/".to_vec())
    );
    assert_eq!(expect_action(d.step(ok())), Action::ApplyMask(0o022));
    assert_eq!(expect_action(d.step(ok())), Action::Fork);
    assert_eq!(
        expect_action(d.step(ok())),
        Action::OpenPidFile(b"/run/svc.pid".to_vec())
    );
    match d.step(failed(13)) {
        Step::Fail(e) => {
            assert_eq!(e.kind(), ErrorKind::PidFileOpenFailed);
            assert_eq!(e.as_io_error(), Some(13));
        }
        other => panic!("unexpected step {:?}", other),
    }
}

#[test]
fn failed_root_change_aborts_before_any_later_step() {
    let mut config = bare_config();
    config.chroot_path = Some(b"/does/not/exist".to_vec());
    config.target_user = Some(Identity::Numeric(1000));
    config.pid_file_path = Some(b"/run/svc.pid".to_vec());
    let mut d = Daemon::new(config);
    assert_eq!(expect_action(d.step(Event::Start)), Action::Fork);
    assert_eq!(expect_action(d.step(ok())), Action::CreateSession);
    assert_eq!(
        expect_action(d.step(ok())),
        Action::ChangeDirectory(b"/".to_vec())
    );
    assert_eq!(expect_action(d.step(ok())), Action::ApplyMask(0o022));
    assert_eq!(
        expect_action(d.step(ok())),
        Action::ChangeRoot(b"/does/not/exist".to_vec())
    );
    // The directory does not exist: the OS reports "no such file or
    // directory".
    match d.step(failed(2)) {
        Step::Fail(e) => {
            assert_eq!(e.kind(), ErrorKind::RootChangeFailed);
            assert_eq!(e.as_io_error(), Some(2));
        }
        other => panic!("unexpected step {:?}", other),
    }
    assert_eq!(d.phase, Phase::Failed);
    // No subsequent step executes: the machine only repeats the failure.
    for _ in 0..3 {
        match d.step(ok()) {
            Step::Fail(e) => assert_eq!(e.kind(), ErrorKind::RootChangeFailed),
            other => panic!("unexpected step {:?}", other),
        }
    }
}

#[test]
fn unresolvable_user_name_fails_before_any_user_change_syscall() {
    let mut config = bare_config();
    config.target_user = Some(Identity::Named(b"nosuchuser".to_vec()));
    let mut d = Daemon::new(config);
    let mut actions: Vec<Action> = Vec::new();
    actions.push(expect_action(d.step(Event::Start)));
    actions.push(expect_action(d.step(ok())));
    actions.push(expect_action(d.step(ok())));
    actions.push(expect_action(d.step(ok())));
    let lookup = expect_action(d.step(ok()));
    assert_eq!(lookup, Action::LookupUser(b"nosuchuser".to_vec()));
    actions.push(lookup);
    match d.step(Event::Lookup { id: None }) {
        Step::Fail(e) => {
            assert_eq!(e.kind(), ErrorKind::UserLookupFailed);
            assert!(!e.is_io_error());
        }
        other => panic!("unexpected step {:?}", other),
    }
    for a in &actions {
        assert!(!matches!(a, Action::ChangeUser(_)));
    }
}

#[test]
fn unresolvable_group_name_fails_the_lookup_step() {
    let mut config = bare_config();
    config.target_group = Some(Identity::Named(b"nosuchgroup".to_vec()));
    let mut d = Daemon::new(config);
    d.step(Event::Start);
    d.step(ok());
    d.step(ok());
    d.step(ok());
    assert_eq!(
        expect_action(d.step(ok())),
        Action::LookupGroup(b"nosuchgroup".to_vec())
    );
    match d.step(Event::Lookup { id: None }) {
        Step::Fail(e) => assert_eq!(e.kind(), ErrorKind::GroupLookupFailed),
        other => panic!("unexpected step {:?}", other),
    }
}

#[test]
fn session_and_pid_file_round_trip_records_the_calling_pid() {
    let mut config = DaemonConfig::new(
        Some(b"/tmp/daemon.pid".to_vec()),
        Some(b"/tmp/workdir".to_vec()),
        Some(0o027),
    );
    config.chown_pid_file = false;
    let mut d = Daemon::new(config);
    assert_eq!(expect_action(d.step(Event::Start)), Action::Fork);
    assert_eq!(expect_action(d.step(ok())), Action::CreateSession);
    // The working directory is changed to the configured one.
    assert_eq!(
        expect_action(d.step(ok())),
        Action::ChangeDirectory(b"/tmp/workdir".to_vec())
    );
    assert_eq!(expect_action(d.step(ok())), Action::ApplyMask(0o027));
    assert_eq!(expect_action(d.step(ok())), Action::Fork);
    assert_eq!(
        expect_action(d.step(ok())),
        Action::OpenPidFile(b"/tmp/daemon.pid".to_vec())
    );
    assert_eq!(expect_action(d.step(ok())), Action::LockPidFile);
    assert_eq!(expect_action(d.step(ok())), Action::ReadProcessId);
    // The id read for the calling process.
    let written = expect_action(d.step(Event::Syscall { ret: 4242, errno: 0 }));
    assert_eq!(written, Action::WritePidFile(b"4242".to_vec()));
    if let Action::WritePidFile(bytes) = written {
        // The pid file's entire content parses back to the same pid.
        assert_eq!(daemonkit::pid_text::parse_decimal(&bytes), Some(4242));
    }
    assert_eq!(d.pid, Some(4242));
    assert_eq!(expect_action(d.step(ok())), Action::UnlockPidFile);
    assert_eq!(expect_action(d.step(ok())), Action::OpenNullDevice);
}

#[test]
fn pid_file_is_re_owned_to_the_resolved_identities() {
    let mut config = bare_config();
    config.pid_file_path = Some(b"/run/svc.pid".to_vec());
    config.target_group = Some(Identity::Numeric(20));
    config.target_user = Some(Identity::Numeric(1000));
    config.chown_pid_file = true;
    let mut d = Daemon::new(config);
    d.step(Event::Start);
    d.step(ok());
    d.step(ok());
    d.step(ok());
    assert_eq!(expect_action(d.step(ok())), Action::ChangeGroup(20));
    assert_eq!(expect_action(d.step(ok())), Action::ChangeUser(1000));
    assert_eq!(expect_action(d.step(ok())), Action::Fork);
    assert_eq!(
        expect_action(d.step(ok())),
        Action::OpenPidFile(b"/run/svc.pid".to_vec())
    );
    assert_eq!(expect_action(d.step(ok())), Action::LockPidFile);
    assert_eq!(expect_action(d.step(ok())), Action::ReadProcessId);
    assert_eq!(
        expect_action(d.step(Event::Syscall { ret: 7, errno: 0 })),
        Action::WritePidFile(b"7".to_vec())
    );
    assert_eq!(
        expect_action(d.step(ok())),
        Action::ChownPidFile { uid: Some(1000), gid: Some(20) }
    );
    assert_eq!(expect_action(d.step(ok())), Action::UnlockPidFile);
    assert_eq!(expect_action(d.step(ok())), Action::OpenNullDevice);
}

#[test]
fn embedded_terminator_in_working_directory_is_rejected() {
    let mut config = bare_config();
    config.working_directory = Some(b"/tmp/bad\0dir".to_vec());
    let mut d = Daemon::new(config);
    assert_eq!(expect_action(d.step(Event::Start)), Action::Fork);
    assert_eq!(expect_action(d.step(ok())), Action::CreateSession);
    match d.step(ok()) {
        Step::Fail(e) => {
            assert_eq!(e.kind(), ErrorKind::PathEncodingFailed);
            assert!(!e.is_io_error());
        }
        other => panic!("unexpected step {:?}", other),
    }
}

#[test]
fn embedded_terminator_in_group_name_is_rejected() {
    let mut config = bare_config();
    config.target_group = Some(Identity::Named(b"bad\0name".to_vec()));
    let mut d = Daemon::new(config);
    d.step(Event::Start);
    d.step(ok());
    d.step(ok());
    d.step(ok());
    match d.step(ok()) {
        Step::Fail(e) => assert_eq!(e.kind(), ErrorKind::PathEncodingFailed),
        other => panic!("unexpected step {:?}", other),
    }
}

#[test]
fn stream_redirect_failure_is_tagged() {
    let mut d = Daemon::new(bare_config());
    d.step(Event::Start);
    d.step(ok());
    d.step(ok());
    d.step(ok());
    assert_eq!(expect_action(d.step(ok())), Action::Fork);
    assert_eq!(expect_action(d.step(ok())), Action::OpenNullDevice);
    assert_eq!(expect_action(d.step(ok())), Action::RedirectStdin);
    match d.step(failed(9)) {
        Step::Fail(e) => {
            assert_eq!(e.kind(), ErrorKind::StreamRedirectFailed);
            assert_eq!(e.as_io_error(), Some(9));
        }
        other => panic!("unexpected step {:?}", other),
    }
}
