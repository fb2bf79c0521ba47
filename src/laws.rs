//! Properties of the privileged write as a whole, proved from the
//! transition relation that `Orchestrator::step` meets.
use vstd::prelude::*;
use crate::command::DEADLINE_SECS;
use crate::orchestrator::{
    fails_with, removes_files, runs_step, same_request, steps, Action, Event, Orchestrator, Phase,
};
use crate::outcome::{
    cancel_markers, diagnostic_text, mentions_any, RawCompletion, Step, Verdict,
};
use crate::platform::{Mechanism, Platform};

verus! {

/// On Linux, when the policy agent reports itself absent (exit 126 or 127
/// with no cancellation phrase in its output, or a binary that cannot be
/// found), the write goes on with sudo rather than ending.
pub proof fn policy_agent_absence_falls_back_to_sudo(
    s: Orchestrator,
    raw: RawCompletion,
    t: Orchestrator,
    a: Action,
)
    requires
        s.wf(),
        s.platform == Platform::Linux,
        s.phase == Phase::Attempting,
        s.step == Step::PolicyAgent,
        match raw {
            RawCompletion::Exited { code, stderr, stdout } => {
                &&& (code == Some(126i32) || code == Some(127i32))
                &&& !mentions_any(diagnostic_text(stderr@, stdout@), cancel_markers())
            },
            RawCompletion::LaunchFailed { not_found, message } => not_found,
            RawCompletion::DeadlinePassed => false,
        },
        steps(s, Event::Completed(raw), t, a),
    ensures
        t.phase == Phase::Attempting,
        t.plan@[t.index as int] == Mechanism::InteractiveSudo,
        t.step == Step::SudoAskpass,
        runs_step(a, t),
{
}

/// When the policy agent exits with any other non-zero code, the user
/// cancelled or was denied: the write ends with that verdict, removes the
/// staged files, and runs nothing further.
pub proof fn policy_agent_denial_ends_without_fallback(
    s: Orchestrator,
    code: i32,
    stderr: Vec<u8>,
    stdout: Vec<u8>,
    t: Orchestrator,
    a: Action,
)
    requires
        s.wf(),
        s.phase == Phase::Attempting,
        s.step == Step::PolicyAgent,
        code != 0,
        code != 126,
        code != 127,
        steps(s, Event::Completed(RawCompletion::Exited { code: Some(code), stderr, stdout }), t, a),
    ensures
        t.phase == Phase::Cleaning,
        fails_with(t.result, Verdict::UserCancelled),
        removes_files(a, s),
        !(a is Run),
{
}

/// Every elevated subprocess is run under the fixed deadline, and one that
/// outlives it ends the write with `TimedOut`, after the staged files are
/// removed, whichever step it was.
pub proof fn deadline_ends_in_timeout(s: Orchestrator, t: Orchestrator, a: Action, b: Action)
    requires
        s.wf(),
        s.phase == Phase::Attempting,
        steps(s, Event::Completed(RawCompletion::DeadlinePassed), t, a),
    ensures
        t.phase == Phase::Cleaning,
        fails_with(t.result, Verdict::TimedOut),
        removes_files(a, s),
        runs_step(b, s) ==> match b {
            Action::Run(inv) => inv@.deadline_secs == DEADLINE_SECS,
            _ => false,
        },
{
}

/// `states`, `events` and `actions` form a run of the machine: each event
/// takes one state to the next with one action.
pub open spec fn is_run(states: Seq<Orchestrator>, events: Seq<Event>, actions: Seq<Action>) -> bool {
    &&& states.len() == events.len() + 1
    &&& actions.len() == events.len()
    &&& forall|i: int|
        #![trigger events[i]]
        0 <= i < events.len() ==> steps(states[i], events[i], states[i + 1], actions[i])
}

/// A run never changes the request that it serves.
pub proof fn run_keeps_request(states: Seq<Orchestrator>, events: Seq<Event>, actions: Seq<Action>, k: int)
    requires
        is_run(states, events, actions),
        0 <= k < states.len(),
    ensures
        same_request(states[0], states[k]),
    decreases k,
{
    if k > 0 {
        run_keeps_request(states, events, actions, k - 1);
        assert(steps(states[k - 1], events[k - 1], states[k], actions[k - 1]));
    }
}

proof fn cleaning_follows_removal(states: Seq<Orchestrator>, events: Seq<Event>, actions: Seq<Action>, j: int)
    requires
        is_run(states, events, actions),
        states[0].phase == Phase::Staging,
        0 <= j < states.len(),
        states[j].phase == Phase::Cleaning,
    ensures
        exists|i: int|
            0 <= i < j && #[trigger] removes_files(actions[i], states[0]) && forall|k: int|
                i < k < j ==> actions[k] == Action::Idle,
    decreases j,
{
    let p = states[j - 1];
    assert(steps(p, events[j - 1], states[j], actions[j - 1]));
    run_keeps_request(states, events, actions, j - 1);
    if p.phase == Phase::Cleaning {
        cleaning_follows_removal(states, events, actions, j - 1);
        let i = choose|i: int|
            0 <= i < j - 1 && #[trigger] removes_files(actions[i], states[0]) && forall|k: int|
                i < k < j - 1 ==> actions[k] == Action::Idle;
        assert(forall|k: int| i < k < j ==> actions[k] == Action::Idle);
    } else {
        assert(removes_files(actions[j - 1], p));
        assert(removes_files(actions[j - 1], states[0]));
    }
}

/// Whatever the outcome, the caller is answered only after every staged
/// file (content and helper script) has been removed: the answer follows a
/// removal of exactly those files, nothing else was done in between, and
/// the event that brought the answer confirmed the removal.
pub proof fn answer_follows_cleanup(
    states: Seq<Orchestrator>,
    events: Seq<Event>,
    actions: Seq<Action>,
    j: int,
)
    requires
        is_run(states, events, actions),
        states[0].phase == Phase::Staging,
        0 <= j < actions.len(),
        actions[j] is Finish,
    ensures
        events[j] == Event::CleanedUp,
        exists|i: int|
            0 <= i < j && #[trigger] removes_files(actions[i], states[0]) && forall|k: int|
                i < k < j ==> actions[k] == Action::Idle,
{
    assert(steps(states[j], events[j], states[j + 1], actions[j]));
    cleaning_follows_removal(states, events, actions, j);
}

} // verus!
