//! The privileged write as a state machine: stage, attempt each mechanism
//! in turn, classify, fall back only where a mechanism is unavailable, and
//! remove the staged files before every return.
//!
//! The machine decides and never acts: each call of `step` takes the event
//! that the embedding program observed and hands back the next action.
use vstd::prelude::*;
use crate::command::{
    helper_script, invocation, invocation_of, join_path, joined, script_name, script_text,
    staging_name, Invocation,
};
use crate::outcome::{classify, verdict_of, ElevationOutcome, RawCompletion, Step, Verdict};
use crate::platform::{elevation_mechanisms, mechanisms_of, Mechanism, Platform};

verus! {

/// Where the privileged write stands.
#[derive(Clone, Copy, Debug, PartialEq, Eq, Structural)]
pub enum Phase {
    /// The content is being written to the staged file.
    Staging,
    /// An elevated copy is running.
    Attempting,
    /// The verdict is known; the staged files are being removed.
    Cleaning,
    /// The caller has been answered.
    Done,
}

/// Why a privileged write failed.
#[derive(Clone, Debug, PartialEq, Eq)]
pub enum WriteError {
    /// The staged file could not be written; the OS error text.
    Staging(String),
    /// Every elevation attempt that was made ended in this verdict.
    Elevation(ElevationOutcome),
}

/// What the embedding program observed since the last action.
#[derive(Debug, PartialEq, Eq)]
pub enum Event {
    /// The staged files were written, or writing them failed with this text.
    Staged(Result<(), String>),
    /// The running invocation completed.
    Completed(RawCompletion),
    /// The files named by the last removal are gone.
    CleanedUp,
}

/// What the embedding program is to do next.
#[derive(Debug, PartialEq, Eq)]
pub enum Action {
    /// Write `content` to `staged`, and each helper `(path, text)` to its path.
    Stage { staged: String, content: Vec<u8>, helper: Option<(String, String)> },
    /// Run this invocation under its deadline and report its completion.
    Run(Invocation),
    /// Remove these files; a file that is already absent is no error.
    Remove(Vec<String>),
    /// Answer the caller with this result.
    Finish(Result<(), WriteError>),
    /// The event did not fit the phase; nothing to do.
    Idle,
}

/// The step with which mechanism `m` is first attempted on platform `p`.
pub open spec fn first_step(p: Platform, m: Mechanism) -> Step {
    match m {
        Mechanism::NativeElevatedRelaunch => Step::NativeRelaunch,
        Mechanism::PolicyAgentPrompt => Step::PolicyAgent,
        Mechanism::InteractiveSudo => if p == Platform::Linux {
            Step::SudoAskpass
        } else {
            Step::SudoInteractive
        },
    }
}

/// `st` is one of the steps by which mechanism `m` is attempted on `p`.
pub open spec fn step_of(p: Platform, m: Mechanism, st: Step) -> bool {
    st == first_step(p, m) || (m == Mechanism::InteractiveSudo && st == Step::SudoInteractive)
}

/// Where the content is staged on platform `p`: in the temporary directory
/// `temp_dir`, which the caller can write without privilege.
pub open spec fn staging_path_of(p: Platform, temp_dir: Seq<char>) -> Seq<char> {
    joined(p, temp_dir, staging_name())
}

/// One privileged write of one request.
pub struct Orchestrator {
    pub platform: Platform,
    pub target: String,
    pub staged: String,
    /// The helper script's path, on platforms whose mechanism runs one.
    pub script: Option<String>,
    pub plan: Vec<Mechanism>,
    /// Position in `plan` of the mechanism being attempted.
    pub index: usize,
    pub step: Step,
    pub phase: Phase,
    /// The answer owed to the caller once the staged files are gone.
    pub result: Option<Result<(), WriteError>>,
}

impl Orchestrator {
    /// The machine's internal consistency.
    pub open spec fn wf(&self) -> bool {
        &&& self.plan@ == mechanisms_of(self.platform)
        &&& self.index < self.plan@.len()
        &&& step_of(self.platform, self.plan@[self.index as int], self.step)
        &&& (self.phase == Phase::Cleaning <==> self.result is Some)
        &&& (self.platform == Platform::Windows <==> self.script is Some)
    }

    /// The helper script's path, empty where there is none.
    pub open spec fn script_path(&self) -> Seq<char> {
        match self.script {
            Some(p) => p@,
            None => seq![],
        }
    }

    /// Every file that this write creates besides the target.
    pub open spec fn files(&self) -> Seq<Seq<char>> {
        match self.script {
            Some(p) => seq![self.staged@, p@],
            None => seq![self.staged@],
        }
    }

    /// The invocation of the current step.
    pub open spec fn current_invocation(&self) -> crate::command::InvocationView {
        invocation_of(self.step, self.staged@, self.target@, self.script_path())
    }
}

/// `a` removes exactly the files of `s`.
pub open spec fn removes_files(a: Action, s: Orchestrator) -> bool {
    match a {
        Action::Remove(paths) => paths@.map_values(|p: String| p@) == s.files(),
        _ => false,
    }
}

/// `a` runs the current step of `s`.
pub open spec fn runs_step(a: Action, s: Orchestrator) -> bool {
    match a {
        Action::Run(inv) => inv@ == s.current_invocation(),
        _ => false,
    }
}

/// `r` is a failure with verdict `v`.
pub open spec fn fails_with(r: Option<Result<(), WriteError>>, v: Verdict) -> bool {
    match r {
        Some(Err(WriteError::Elevation(o))) => o@ == v,
        _ => false,
    }
}

/// `t` serves the same request as `s`.
pub open spec fn same_request(s: Orchestrator, t: Orchestrator) -> bool {
    &&& t.platform == s.platform
    &&& t.target == s.target
    &&& t.staged == s.staged
    &&& t.script == s.script
    &&& t.plan@ == s.plan@
}

/// The reaction of `s` to an elevated step's completion `raw`.
pub open spec fn on_completion(s: Orchestrator, raw: RawCompletion, t: Orchestrator, a: Action) -> bool {
    let v = verdict_of(s.step, raw);
    if v == Verdict::Success {
        &&& t.phase == Phase::Cleaning
        &&& t.result == Some(Ok::<(), WriteError>(()))
        &&& removes_files(a, s)
    } else if s.step == Step::SudoAskpass && v != Verdict::TimedOut {
        &&& t.phase == Phase::Attempting
        &&& t.index == s.index
        &&& t.step == Step::SudoInteractive
        &&& runs_step(a, t)
    } else if v == Verdict::MechanismUnavailable && s.index + 1 < s.plan@.len() {
        &&& t.phase == Phase::Attempting
        &&& t.index == s.index + 1
        &&& t.step == first_step(s.platform, s.plan@[s.index + 1])
        &&& runs_step(a, t)
    } else {
        &&& t.phase == Phase::Cleaning
        &&& fails_with(t.result, v)
        &&& removes_files(a, s)
    }
}

/// `s` moves to `t` with action `a` on event `e`.
pub open spec fn steps(s: Orchestrator, e: Event, t: Orchestrator, a: Action) -> bool {
    &&& same_request(s, t)
    &&& match e {
        Event::Staged(Ok(())) if s.phase == Phase::Staging => {
            &&& t.phase == Phase::Attempting
            &&& t.index == 0
            &&& t.step == first_step(s.platform, s.plan@[0])
            &&& runs_step(a, t)
        },
        Event::Staged(Err(m)) if s.phase == Phase::Staging => {
            &&& t.phase == Phase::Cleaning
            &&& t.result == Some(Err::<(), WriteError>(WriteError::Staging(m)))
            &&& removes_files(a, s)
        },
        Event::Completed(raw) if s.phase == Phase::Attempting => on_completion(s, raw, t, a),
        Event::CleanedUp if s.phase == Phase::Cleaning => {
            &&& t.phase == Phase::Done
            &&& match a {
                Action::Finish(r) => s.result == Some(r),
                _ => false,
            }
        },
        _ => t == s && a == Action::Idle,
    }
}

/// `a` stages `content` for `s`, together with the helper script where `s`
/// runs one.
pub open spec fn stages(a: Action, s: Orchestrator, content: Seq<u8>) -> bool {
    match a {
        Action::Stage { staged, content: c, helper } => {
            &&& staged@ == s.staged@
            &&& c@ == content
            &&& match helper {
                Some((path, text)) => {
                    &&& s.script is Some
                    &&& path@ == s.script_path()
                    &&& text@ == script_text(s.staged@, s.target@)
                },
                None => s.script is None,
            }
        },
        _ => false,
    }
}

/// The step with which mechanism `m` is first attempted on platform `p`.
fn first_step_for(p: Platform, m: Mechanism) -> (st: Step)
    ensures
        st == first_step(p, m),
{
    match m {
        Mechanism::NativeElevatedRelaunch => Step::NativeRelaunch,
        Mechanism::PolicyAgentPrompt => Step::PolicyAgent,
        Mechanism::InteractiveSudo => if p == Platform::Linux {
            Step::SudoAskpass
        } else {
            Step::SudoInteractive
        },
    }
}

impl Orchestrator {
    /// Begins the privileged write of `content` over `target` on `platform`;
    /// `temp_dir` is a directory that the caller can write without
    /// privilege, where the content (and the helper script, where one is
    /// run) is staged. The returned action stages the content.
    pub fn start(platform: Platform, target: &str, content: Vec<u8>, temp_dir: &str) -> (r: (
        Orchestrator,
        Action,
    ))
        ensures
            r.0.wf(),
            r.0.phase == Phase::Staging,
            r.0.platform == platform,
            r.0.target@ == target@,
            r.0.staged@ == staging_path_of(platform, temp_dir@),
            r.0.script_path() == (if platform == Platform::Windows {
                joined(platform, temp_dir@, script_name())
            } else {
                seq![]
            }),
            stages(r.1, r.0, content@),
    {
        let plan = elevation_mechanisms(platform);
        let step = first_step_for(platform, plan[0]);
        let staged = join_path(platform, temp_dir, "thosts_hosts.tmp");
        if platform == Platform::Windows {
            let script = join_path(platform, temp_dir, "thosts_write.ps1");
            let text = helper_script(staged.as_str(), target);
            let s = Orchestrator {
                platform,
                target: String::from_str(target),
                staged: staged.clone(),
                script: Some(script.clone()),
                plan,
                index: 0,
                step,
                phase: Phase::Staging,
                result: None,
            };
            (s, Action::Stage { staged, content, helper: Some((script, text)) })
        } else {
            let s = Orchestrator {
                platform,
                target: String::from_str(target),
                staged: staged.clone(),
                script: None,
                plan,
                index: 0,
                step,
                phase: Phase::Staging,
                result: None,
            };
            proof { reveal_strlit(""); }
            (s, Action::Stage { staged, content, helper: None })
        }
    }

    /// The action that runs the current step.
    fn run_current(&self) -> (a: Action)
        ensures
            runs_step(a, *self),
    {
        let script: &str = match &self.script {
            Some(p) => p.as_str(),
            None => "",
        };
        proof { reveal_strlit(""); }
        Action::Run(invocation(self.step, self.staged.as_str(), self.target.as_str(), script))
    }

    /// The action that removes every staged file.
    fn removal(&self) -> (a: Action)
        ensures
            removes_files(a, *self),
    {
        let paths = match &self.script {
            Some(p) => vec![self.staged.clone(), p.clone()],
            None => vec![self.staged.clone()],
        };
        assert(paths@.map_values(|p: String| p@) =~= self.files());
        Action::Remove(paths)
    }

    /// Takes the event that the embedding program observed and returns the
    /// next action.
    pub fn step(&mut self, event: Event) -> (a: Action)
        requires
            old(self).wf(),
        ensures
            final(self).wf(),
            steps(*old(self), event, *final(self), a),
    {
        match event {
            Event::Staged(res) => {
                if self.phase != Phase::Staging {
                    return Action::Idle;
                }
                match res {
                    Ok(()) => {
                        self.phase = Phase::Attempting;
                        self.index = 0;
                        self.step = first_step_for(self.platform, self.plan[0]);
                        self.run_current()
                    },
                    Err(m) => {
                        let a = self.removal();
                        self.phase = Phase::Cleaning;
                        self.result = Some(Err(WriteError::Staging(m)));
                        a
                    },
                }
            },
            Event::Completed(raw) => {
                if self.phase != Phase::Attempting {
                    return Action::Idle;
                }
                let o = classify(self.step, &raw);
                let (success, timed_out, unavailable) = match o {
                    ElevationOutcome::Success => (true, false, false),
                    ElevationOutcome::TimedOut => (false, true, false),
                    ElevationOutcome::MechanismUnavailable => (false, false, true),
                    _ => (false, false, false),
                };
                if success {
                    let a = self.removal();
                    self.phase = Phase::Cleaning;
                    self.result = Some(Ok(()));
                    a
                } else if self.step == Step::SudoAskpass && !timed_out {
                    self.step = Step::SudoInteractive;
                    self.run_current()
                } else if unavailable && self.index + 1 < self.plan.len() {
                    self.index = self.index + 1;
                    self.step = first_step_for(self.platform, self.plan[self.index]);
                    self.run_current()
                } else {
                    let a = self.removal();
                    self.phase = Phase::Cleaning;
                    self.result = Some(Err(WriteError::Elevation(o)));
                    a
                }
            },
            Event::CleanedUp => {
                if self.phase != Phase::Cleaning {
                    return Action::Idle;
                }
                self.phase = Phase::Done;
                match self.result.take() {
                    Some(r) => Action::Finish(r),
                    None => Action::Idle,
                }
            },
        }
    }
}

} // verus!
