use thosts::outcome::{classify, Diagnostic, ElevationOutcome, RawCompletion, Step};
use thosts::text::find_bytes;

fn exited(code: Option<i32>, stderr: &str, stdout: &str) -> RawCompletion {
    RawCompletion::Exited {
        code,
        stderr: stderr.as_bytes().to_vec(),
        stdout: stdout.as_bytes().to_vec(),
    }
}

#[test]
fn find_bytes_locates_runs() {
    assert!(find_bytes(b"permission denied", b"denied"));
    assert!(find_bytes(b"denied", b"denied"));
    assert!(find_bytes(b"abc", b""));
    assert!(find_bytes(b"", b""));
    assert!(!find_bytes(b"", b"a"));
    assert!(!find_bytes(b"deni", b"denied"));
    assert!(!find_bytes(b"d e n i e d", b"denied"));
    assert!(find_bytes(b"aaab", b"aab"));
}

#[test]
fn zero_exit_is_success_whatever_the_text() {
    for step in [Step::NativeRelaunch, Step::PolicyAgent, Step::SudoAskpass, Step::SudoInteractive] {
        assert_eq!(classify(step, &exited(Some(0), "denied", "")), ElevationOutcome::Success);
    }
}

#[test]
fn policy_agent_absent_is_unavailable() {
    assert_eq!(classify(Step::PolicyAgent, &exited(Some(127), "", "")), ElevationOutcome::MechanismUnavailable);
    assert_eq!(classify(Step::PolicyAgent, &exited(Some(126), "", "")), ElevationOutcome::MechanismUnavailable);
}

#[test]
fn policy_agent_other_code_is_cancelled() {
    assert_eq!(classify(Step::PolicyAgent, &exited(Some(1), "", "")), ElevationOutcome::UserCancelled);
    assert_eq!(classify(Step::PolicyAgent, &exited(Some(2), "", "")), ElevationOutcome::UserCancelled);
}

#[test]
fn cancel_marker_outranks_unavailable_code() {
    assert_eq!(
        classify(Step::PolicyAgent, &exited(Some(127), "Request denied", "")),
        ElevationOutcome::UserCancelled
    );
}

#[test]
fn windows_cancel_code_and_markers() {
    assert_eq!(classify(Step::NativeRelaunch, &exited(Some(1223), "", "")), ElevationOutcome::UserCancelled);
    assert_eq!(
        classify(Step::NativeRelaunch, &exited(Some(1), "", "The operation was canceled by the user.")),
        ElevationOutcome::UserCancelled
    );
    assert_eq!(
        classify(Step::NativeRelaunch, &exited(Some(1), "\u{62d2}\u{7edd}\u{8bbf}\u{95ee}", "")),
        ElevationOutcome::UserCancelled
    );
}

#[test]
fn windows_other_failure_keeps_stderr_then_stdout() {
    assert_eq!(
        classify(Step::NativeRelaunch, &exited(Some(1), "disk full", "ignored")),
        ElevationOutcome::OtherFailure(Diagnostic { exit_code: Some(1), text: b"disk full".to_vec() })
    );
    assert_eq!(
        classify(Step::NativeRelaunch, &exited(Some(1), "", "file locked")),
        ElevationOutcome::OtherFailure(Diagnostic { exit_code: Some(1), text: b"file locked".to_vec() })
    );
}

#[test]
fn sudo_exit_one_is_authentication_failure() {
    assert_eq!(classify(Step::SudoInteractive, &exited(Some(1), "", "")), ElevationOutcome::AuthenticationFailed);
    assert_eq!(classify(Step::SudoAskpass, &exited(Some(1), "", "")), ElevationOutcome::AuthenticationFailed);
}

#[test]
fn auth_marker_is_authentication_failure() {
    assert_eq!(
        classify(Step::SudoInteractive, &exited(Some(3), "sudo: 3 incorrect password attempts", "")),
        ElevationOutcome::AuthenticationFailed
    );
}

#[test]
fn sudo_other_code_is_other_failure() {
    assert_eq!(
        classify(Step::SudoInteractive, &exited(Some(2), "", "")),
        ElevationOutcome::OtherFailure(Diagnostic { exit_code: Some(2), text: Vec::new() })
    );
    assert_eq!(
        classify(Step::SudoInteractive, &exited(None, "", "")),
        ElevationOutcome::OtherFailure(Diagnostic { exit_code: None, text: Vec::new() })
    );
}

#[test]
fn launch_failures_and_deadline() {
    let missing = RawCompletion::LaunchFailed { not_found: true, message: b"No such file".to_vec() };
    assert_eq!(classify(Step::SudoInteractive, &missing), ElevationOutcome::MechanismUnavailable);
    let refused = RawCompletion::LaunchFailed { not_found: false, message: b"Permission denied".to_vec() };
    assert_eq!(
        classify(Step::SudoInteractive, &refused),
        ElevationOutcome::OtherFailure(Diagnostic { exit_code: None, text: b"Permission denied".to_vec() })
    );
    assert_eq!(classify(Step::PolicyAgent, &RawCompletion::DeadlinePassed), ElevationOutcome::TimedOut);
}
