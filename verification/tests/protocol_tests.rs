use openpty::Action;
use openpty::AllocError;
use openpty::AllocRequest;
use openpty::Allocation;
use openpty::Outcome;
use openpty::Phase;
use openpty::Step;
use openpty::TermiosConfig;
use openpty::Winsize;

fn bare_request() -> AllocRequest {
    AllocRequest { termios: None, winsize: None, path_override: None }
}

fn echo_off_modes() -> TermiosConfig {
    TermiosConfig {
        input_flags: 0,
        output_flags: 0,
        control_flags: 0,
        local_flags: 0, // every local flag cleared, echo among them
        line_discipline: 0,
        control_chars: vec![0; 32],
        input_speed: 15,
        output_speed: 15,
    }
}

#[test]
fn bare_allocation_runs_the_whole_pipeline() {
    let mut a = Allocation::new(bare_request());
    assert!(matches!(a.pending_action(), Some(Action::OpenMultiplexer)));

    assert!(matches!(a.advance(Outcome::Descriptor(5)), Step::Continue));
    assert!(matches!(a.pending_action(), Some(Action::UnlockMaster { master: 5 })));

    assert!(matches!(a.advance(Outcome::Succeeded), Step::Continue));
    assert!(matches!(a.pending_action(), Some(Action::RetrieveNumber { master: 5 })));

    assert!(matches!(a.advance(Outcome::Number(3)), Step::Continue));
    match a.pending_action() {
        Some(Action::OpenSlave { path }) => assert_eq!(path, "/dev/pts/3"),
        other => panic!("unexpected action {:?}", other),
    }

    match a.advance(Outcome::Descriptor(6)) {
        Step::Succeed { master, slave, path } => {
            assert_eq!(master, 5);
            assert_eq!(slave, 6);
            assert_eq!(path, "/dev/pts/3");
        }
        other => panic!("unexpected step {:?}", other),
    }
    assert_eq!(a.phase(), Phase::Complete);
    assert!(a.pending_action().is_none());
}

#[test]
fn override_allocation_opens_the_override() {
    let req = AllocRequest {
        termios: None,
        winsize: None,
        path_override: Some(String::from("/somewhere/else")),
    };
    let mut a = Allocation::new(req);
    a.advance(Outcome::Descriptor(4));
    a.advance(Outcome::Succeeded);
    a.advance(Outcome::Number(9));
    match a.pending_action() {
        Some(Action::OpenSlave { path }) => assert_eq!(path, "/somewhere/else"),
        other => panic!("unexpected action {:?}", other),
    }
    match a.advance(Outcome::Descriptor(7)) {
        Step::Succeed { path, .. } => assert_eq!(path, "/somewhere/else"),
        other => panic!("unexpected step {:?}", other),
    }
}

#[test]
fn modes_are_applied_to_the_open_slave() {
    let req = AllocRequest {
        termios: Some(echo_off_modes()),
        winsize: None,
        path_override: None,
    };
    let mut a = Allocation::new(req);
    a.advance(Outcome::Descriptor(5));
    a.advance(Outcome::Succeeded);
    a.advance(Outcome::Number(0));
    assert!(matches!(a.advance(Outcome::Descriptor(6)), Step::Continue));
    match a.pending_action() {
        Some(Action::ApplyModes { slave, modes }) => {
            assert_eq!(slave, 6);
            assert_eq!(*modes, echo_off_modes());
        }
        other => panic!("unexpected action {:?}", other),
    }
    assert!(matches!(
        a.advance(Outcome::Succeeded),
        Step::Succeed { master: 5, slave: 6, .. }
    ));
}

#[test]
fn size_is_applied_to_the_open_slave() {
    let size = Winsize { rows: 40, cols: 120, xpixel: 0, ypixel: 0 };
    let req = AllocRequest { termios: None, winsize: Some(size), path_override: None };
    let mut a = Allocation::new(req);
    a.advance(Outcome::Descriptor(5));
    a.advance(Outcome::Succeeded);
    a.advance(Outcome::Number(2));
    assert!(matches!(a.advance(Outcome::Descriptor(6)), Step::Continue));
    match a.pending_action() {
        Some(Action::ApplySize { slave, size: s }) => {
            assert_eq!(slave, 6);
            assert_eq!(s.rows, 40);
            assert_eq!(s.cols, 120);
        }
        other => panic!("unexpected action {:?}", other),
    }
    assert!(matches!(
        a.advance(Outcome::Succeeded),
        Step::Succeed { master: 5, slave: 6, .. }
    ));
}

#[test]
fn modes_come_before_size_and_each_once() {
    let size = Winsize { rows: 40, cols: 120, xpixel: 0, ypixel: 0 };
    let req = AllocRequest {
        termios: Some(echo_off_modes()),
        winsize: Some(size),
        path_override: None,
    };
    let mut a = Allocation::new(req);
    a.advance(Outcome::Descriptor(5));
    a.advance(Outcome::Succeeded);
    a.advance(Outcome::Number(2));
    a.advance(Outcome::Descriptor(6));
    assert!(matches!(a.pending_action(), Some(Action::ApplyModes { slave: 6, .. })));
    assert!(matches!(a.advance(Outcome::Succeeded), Step::Continue));
    assert!(matches!(a.pending_action(), Some(Action::ApplySize { slave: 6, .. })));
    assert!(matches!(a.advance(Outcome::Succeeded), Step::Succeed { .. }));
    assert!(a.pending_action().is_none());
}

#[test]
fn multiplexer_open_failure_closes_nothing() {
    let mut a = Allocation::new(bare_request());
    match a.advance(Outcome::Error(libc::ENOENT)) {
        Step::Fail { close, error } => {
            assert!(close.is_empty());
            assert_eq!(error, AllocError::MultiplexerOpenFailed(libc::ENOENT));
        }
        other => panic!("unexpected step {:?}", other),
    }
    assert_eq!(a.phase(), Phase::Aborted);
}

#[test]
fn unlock_failure_closes_the_master() {
    // A forced permission error at the unlock step: the one opened
    // descriptor is handed back for closing, and nothing else.
    let mut a = Allocation::new(bare_request());
    a.advance(Outcome::Descriptor(5));
    match a.advance(Outcome::Error(libc::EACCES)) {
        Step::Fail { close, error } => {
            assert_eq!(close, vec![5]);
            assert_eq!(error, AllocError::UnlockFailed(libc::EACCES));
            assert_eq!(error.errno(), libc::EACCES);
        }
        other => panic!("unexpected step {:?}", other),
    }
    assert_eq!(a.phase(), Phase::Aborted);
    assert!(a.pending_action().is_none());
}

#[test]
fn number_retrieval_failure_closes_the_master() {
    let mut a = Allocation::new(bare_request());
    a.advance(Outcome::Descriptor(5));
    a.advance(Outcome::Succeeded);
    match a.advance(Outcome::Error(libc::EINVAL)) {
        Step::Fail { close, error } => {
            assert_eq!(close, vec![5]);
            assert_eq!(error, AllocError::NumberRetrievalFailed(libc::EINVAL));
        }
        other => panic!("unexpected step {:?}", other),
    }
}

#[test]
fn slave_open_failure_closes_the_master() {
    let mut a = Allocation::new(bare_request());
    a.advance(Outcome::Descriptor(5));
    a.advance(Outcome::Succeeded);
    a.advance(Outcome::Number(3));
    match a.advance(Outcome::Error(libc::ENOENT)) {
        Step::Fail { close, error } => {
            assert_eq!(close, vec![5]);
            assert_eq!(error, AllocError::SlaveOpenFailed(libc::ENOENT));
        }
        other => panic!("unexpected step {:?}", other),
    }
}

#[test]
fn modes_failure_closes_both() {
    let req = AllocRequest {
        termios: Some(echo_off_modes()),
        winsize: None,
        path_override: None,
    };
    let mut a = Allocation::new(req);
    a.advance(Outcome::Descriptor(5));
    a.advance(Outcome::Succeeded);
    a.advance(Outcome::Number(3));
    a.advance(Outcome::Descriptor(6));
    match a.advance(Outcome::Error(libc::EIO)) {
        Step::Fail { close, error } => {
            assert_eq!(close, vec![6, 5]);
            assert_eq!(error, AllocError::TerminalConfigurationFailed(libc::EIO));
        }
        other => panic!("unexpected step {:?}", other),
    }
}

#[test]
fn size_failure_closes_both() {
    let size = Winsize { rows: 1, cols: 1, xpixel: 0, ypixel: 0 };
    let req = AllocRequest { termios: None, winsize: Some(size), path_override: None };
    let mut a = Allocation::new(req);
    a.advance(Outcome::Descriptor(5));
    a.advance(Outcome::Succeeded);
    a.advance(Outcome::Number(3));
    a.advance(Outcome::Descriptor(6));
    match a.advance(Outcome::Error(libc::EIO)) {
        Step::Fail { close, error } => {
            assert_eq!(close, vec![6, 5]);
            assert_eq!(error, AllocError::WindowSizeConfigurationFailed(libc::EIO));
        }
        other => panic!("unexpected step {:?}", other),
    }
}

#[test]
fn empty_request_helper_is_bare() {
    let req = AllocRequest::empty();
    assert!(req.termios.is_none());
    assert!(req.winsize.is_none());
    assert!(req.path_override.is_none());
}
