use drbug::error::DrbugError;
use drbug::process::Process;
use drbug::state::{ProcessState, WaitOutcome};

#[test]
fn wait_outcomes_translate_to_lifecycle_states() {
    assert_eq!(
        ProcessState::from_wait(WaitOutcome::Exited(0)),
        ProcessState::Exited { exit_code: 0 }
    );
    assert_eq!(
        ProcessState::from_wait(WaitOutcome::Signaled(9, false)),
        ProcessState::Terminated { signal: 9 }
    );
    // SIGTRAP is signal 5: the state a planted breakpoint produces
    assert_eq!(
        ProcessState::from_wait(WaitOutcome::Stopped(5)),
        ProcessState::Stopped { signal: Some(5) }
    );
    assert_eq!(
        ProcessState::from_wait(WaitOutcome::Continued),
        ProcessState::Unknown { status: WaitOutcome::Continued }
    );
}

#[test]
fn state_predicates_follow_the_variant() {
    assert!(ProcessState::Running.is_running());
    assert!(ProcessState::Stopped { signal: None }.is_stopped());
    assert!(ProcessState::Exited { exit_code: 1 }.is_exited());
    assert!(ProcessState::Terminated { signal: 9 }.is_terminated());
    assert!(!ProcessState::Running.is_stopped());
}

#[test]
fn attach_to_an_invalid_pid_fails_with_the_syscall() {
    match Process::attach(0) {
        Err(DrbugError::SyscallFailed(name, _)) => assert_eq!(name, "attach"),
        Err(other) => panic!("expected SyscallFailed, got {other:?}"),
        Ok(_) => panic!("attach to pid 0 cannot succeed"),
    }
}

#[test]
fn a_launch_report_with_bytes_means_the_child_failed() {
    // no child exists to reap here, so the error surfaces either as the
    // child's diagnostic or as the failing wait
    let r = Process::complete_launch(-1, b"exec failed".to_vec(), false);
    assert!(r.is_err());
}
