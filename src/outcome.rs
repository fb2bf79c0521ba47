//! What an elevated subprocess reported, and the typed verdict drawn from it.
use vstd::prelude::*;
use vstd::string::StringSliceAdditionalSpecFns;
use crate::text::{contains_bytes, find_bytes};

verus! {

/// One concrete elevated invocation.
#[derive(Clone, Copy, Debug, PartialEq, Eq, Structural)]
pub enum Step {
    /// An elevated PowerShell relaunched through the UAC prompt runs a helper script.
    NativeRelaunch,
    /// `pkexec cp <staged> <target>`.
    PolicyAgent,
    /// `sudo -A cp <staged> <target>` with an askpass helper and no terminal input.
    SudoAskpass,
    /// `sudo cp <staged> <target>` reading the password from the terminal.
    SudoInteractive,
}

/// The raw completion signal of one invocation, as the process runner saw it.
#[derive(Clone, Debug, PartialEq, Eq)]
pub enum RawCompletion {
    /// The subprocess ran and ended; `code` is `None` when a signal ended it.
    Exited { code: Option<i32>, stderr: Vec<u8>, stdout: Vec<u8> },
    /// The subprocess could not be launched; `not_found` when its binary is missing.
    LaunchFailed { not_found: bool, message: Vec<u8> },
    /// The deadline passed first, and the subprocess was killed.
    DeadlinePassed,
}

/// Diagnostics of a failure that no other verdict covers.
#[derive(Clone, Debug, PartialEq, Eq)]
pub struct Diagnostic {
    pub exit_code: Option<i32>,
    pub text: Vec<u8>,
}

/// The classified verdict of an elevation attempt.
#[derive(Clone, Debug, PartialEq, Eq)]
pub enum ElevationOutcome {
    Success,
    UserCancelled,
    AuthenticationFailed,
    MechanismUnavailable,
    TimedOut,
    OtherFailure(Diagnostic),
}

/// Windows' ERROR_CANCELLED, the exit code of a dismissed UAC prompt.
pub const ERROR_CANCELLED: i32 = 1223;

/// Byte spellings of the phrases that mean the user cancelled or was denied.
pub open spec fn cancel_markers() -> Seq<Seq<u8>> {
    seq!["canceled".spec_bytes(), "denied".spec_bytes(), "拒绝".spec_bytes()]
}

/// Byte spellings of the phrases that mean the password was not accepted.
pub open spec fn auth_markers() -> Seq<Seq<u8>> {
    seq!["incorrect password".spec_bytes(), "Sorry, try again".spec_bytes()]
}

/// Some marker of `markers` occurs in `text`.
pub open spec fn mentions_any(text: Seq<u8>, markers: Seq<Seq<u8>>) -> bool {
    exists|k: int| 0 <= k < markers.len() && contains_bytes(text, #[trigger] markers[k])
}

/// The text kept for diagnostics: standard error, or standard output where
/// standard error is empty.
pub open spec fn diagnostic_text(stderr: Seq<u8>, stdout: Seq<u8>) -> Seq<u8> {
    if stderr.len() > 0 { stderr } else { stdout }
}

/// An exit code by which `step` itself signals cancellation or denial.
pub open spec fn is_cancel_code(step: Step, code: Option<i32>) -> bool {
    match step {
        Step::NativeRelaunch => code == Some(ERROR_CANCELLED),
        Step::PolicyAgent => match code {
            Some(c) => c != 0 && c != 126 && c != 127,
            None => false,
        },
        _ => false,
    }
}

/// An exit code by which `step` says that it is absent or not authorised
/// as this mechanism.
pub open spec fn is_unavailable_code(step: Step, code: Option<i32>) -> bool {
    step == Step::PolicyAgent && (code == Some(126i32) || code == Some(127i32))
}

/// An exit code by which `step` signals a failed authentication.
pub open spec fn is_auth_code(step: Step, code: Option<i32>) -> bool {
    (step == Step::SudoAskpass || step == Step::SudoInteractive) && code == Some(1i32)
}

/// The mathematical value of an `ElevationOutcome`.
pub enum Verdict {
    Success,
    UserCancelled,
    AuthenticationFailed,
    MechanismUnavailable,
    TimedOut,
    OtherFailure(Option<i32>, Seq<u8>),
}

impl View for ElevationOutcome {
    type V = Verdict;

    open spec fn view(&self) -> Verdict {
        match self {
            ElevationOutcome::Success => Verdict::Success,
            ElevationOutcome::UserCancelled => Verdict::UserCancelled,
            ElevationOutcome::AuthenticationFailed => Verdict::AuthenticationFailed,
            ElevationOutcome::MechanismUnavailable => Verdict::MechanismUnavailable,
            ElevationOutcome::TimedOut => Verdict::TimedOut,
            ElevationOutcome::OtherFailure(d) => Verdict::OtherFailure(d.exit_code, d.text@),
        }
    }
}

/// The verdict on an exited subprocess, by the rules in priority order.
pub open spec fn verdict_on_exit(step: Step, code: Option<i32>, text: Seq<u8>) -> Verdict {
    if code == Some(0i32) {
        Verdict::Success
    } else if mentions_any(text, cancel_markers()) || is_cancel_code(step, code) {
        Verdict::UserCancelled
    } else if is_unavailable_code(step, code) {
        Verdict::MechanismUnavailable
    } else if mentions_any(text, auth_markers()) || is_auth_code(step, code) {
        Verdict::AuthenticationFailed
    } else {
        Verdict::OtherFailure(code, text)
    }
}

/// The verdict on any raw completion of `step`.
pub open spec fn verdict_of(step: Step, raw: RawCompletion) -> Verdict {
    match raw {
        RawCompletion::Exited { code, stderr, stdout } =>
            verdict_on_exit(step, code, diagnostic_text(stderr@, stdout@)),
        RawCompletion::LaunchFailed { not_found, message } =>
            if not_found {
                Verdict::MechanismUnavailable
            } else {
                Verdict::OtherFailure(None, message@)
            },
        RawCompletion::DeadlinePassed => Verdict::TimedOut,
    }
}

/// The byte spellings of `markers`.
pub open spec fn marker_bytes(markers: Seq<&str>) -> Seq<Seq<u8>> {
    markers.map_values(|m: &str| m.spec_bytes())
}

/// Whether `text` mentions one of `markers`.
fn mentions(text: &[u8], markers: &Vec<&str>) -> (r: bool)
    ensures
        r == mentions_any(text@, marker_bytes(markers@)),
{
    let ghost bytes = marker_bytes(markers@);
    let mut k: usize = 0;
    while k < markers.len()
        invariant
            bytes == marker_bytes(markers@),
            forall|j: int| 0 <= j < k ==> !contains_bytes(text@, #[trigger] bytes[j]),
        decreases markers@.len() - k,
    {
        if find_bytes(text, markers[k].as_bytes()) {
            assert(contains_bytes(text@, bytes[k as int]));
            return true;
        }
        k = k + 1;
    }
    false
}

fn cancel_marker_list() -> (r: Vec<&'static str>)
    ensures
        marker_bytes(r@) == cancel_markers(),
{
    let r = vec!["canceled", "denied", "拒绝"];
    assert(marker_bytes(r@) =~= cancel_markers());
    r
}

fn auth_marker_list() -> (r: Vec<&'static str>)
    ensures
        marker_bytes(r@) == auth_markers(),
{
    let r = vec!["incorrect password", "Sorry, try again"];
    assert(marker_bytes(r@) =~= auth_markers());
    r
}

/// Classifies what the subprocess of `step` reported into exactly one verdict.
pub fn classify(step: Step, raw: &RawCompletion) -> (r: ElevationOutcome)
    ensures
        r@ == verdict_of(step, *raw),
{
    match raw {
        RawCompletion::DeadlinePassed => ElevationOutcome::TimedOut,
        RawCompletion::LaunchFailed { not_found, message } => {
            if *not_found {
                ElevationOutcome::MechanismUnavailable
            } else {
                ElevationOutcome::OtherFailure(Diagnostic { exit_code: None, text: message.clone() })
            }
        },
        RawCompletion::Exited { code, stderr, stdout } => {
            let text = if stderr.len() > 0 { stderr } else { stdout };
            let code = *code;
            if code == Some(0i32) {
                return ElevationOutcome::Success;
            }
            let cancel = cancel_marker_list();
            let auth = auth_marker_list();
            let cancelled = mentions(text.as_slice(), &cancel);
            let cancel_code = match step {
                Step::NativeRelaunch => code == Some(ERROR_CANCELLED),
                Step::PolicyAgent => match code {
                    Some(c) => c != 0 && c != 126 && c != 127,
                    None => false,
                },
                _ => false,
            };
            if cancelled || cancel_code {
                return ElevationOutcome::UserCancelled;
            }
            if step == Step::PolicyAgent && (code == Some(126i32) || code == Some(127i32)) {
                return ElevationOutcome::MechanismUnavailable;
            }
            let failed_auth = mentions(text.as_slice(), &auth);
            if failed_auth || ((step == Step::SudoAskpass || step == Step::SudoInteractive) && code == Some(1i32)) {
                return ElevationOutcome::AuthenticationFailed;
            }
            ElevationOutcome::OtherFailure(Diagnostic { exit_code: code, text: text.clone() })
        },
    }
}

} // verus!
