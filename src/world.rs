//! A model of the files that a privileged write touches, and what holds of
//! them over a whole write: the target is never a mixture, and a write that
//! succeeds leaves exactly the new content and no staged file behind.
use vstd::prelude::*;
use crate::laws::{is_run, run_keeps_request};
use crate::orchestrator::{removes_files, stages, steps, Action, Event, Orchestrator, Phase, WriteError};
use crate::outcome::RawCompletion;

verus! {

/// The files present, each with its content.
pub type Files = Map<Seq<char>, Seq<u8>>;

/// `f` and `g` agree on path `p`.
pub open spec fn agree(f: Files, g: Files, p: Seq<char>) -> bool {
    &&& (f.contains_key(p) <==> g.contains_key(p))
    &&& (f.contains_key(p) ==> f[p] == g[p])
}

/// `e` reports the outcome of carrying out `a`.
pub open spec fn answers(a: Action, e: Event) -> bool {
    match a {
        Action::Stage { .. } => e is Staged,
        Action::Run(_) => e is Completed,
        Action::Remove(_) => e is CleanedUp,
        _ => false,
    }
}

/// Carrying out `a` of a write from `staged` onto `target`, with the
/// reported outcome `e`, takes the files from `f` to `g`. This is what the
/// embedding program and the elevated copy are assumed to do; nothing here
/// checks them. Staging writes the
/// staged files and nothing else (a failed staging may leave anything at
/// their paths); the elevated copy either replaces the target by the whole
/// staged file or leaves everything as it was, and exit code zero means it
/// did the copy; removal takes away the listed paths and nothing else.
pub open spec fn carries_out(f: Files, a: Action, e: Event, staged: Seq<char>, target: Seq<char>, g: Files) -> bool {
    match a {
        Action::Stage { staged: s, content, helper } => {
            let h = match helper {
                Some((p, _)) => p@,
                None => s@,
            };
            &&& forall|p: Seq<char>| p != s@ && p != h ==> #[trigger] agree(f, g, p)
            &&& (e matches Event::Staged(Ok(_)) ==> g.contains_key(s@) && g[s@] == content@)
        },
        Action::Run(_) => {
            let copied = f.contains_key(staged) && g == f.insert(target, f[staged]);
            &&& (g == f || copied)
            &&& (e matches Event::Completed(RawCompletion::Exited { code: Some(c), .. }) && c == 0 ==> copied)
        },
        Action::Remove(paths) => {
            let listed = paths@.map_values(|p: String| p@);
            &&& forall|p: Seq<char>| listed.contains(p) ==> !#[trigger] g.contains_key(p)
            &&& forall|p: Seq<char>| !listed.contains(p) ==> #[trigger] agree(f, g, p)
        },
        _ => g == f,
    }
}

/// The action that event `i` of a write answers: the first action for the
/// first event, the action of the step before for every later one.
pub open spec fn performed(a0: Action, actions: Seq<Action>, i: int) -> Action {
    if i == 0 {
        a0
    } else {
        actions[i - 1]
    }
}

/// A whole write of `content` begun as `s0` with first action `a0`: a run
/// of the machine in which each event answers the action before it, and
/// `worlds[i]` are the files before event `i` (the last: after the last).
pub open spec fn is_write(
    s0: Orchestrator,
    a0: Action,
    content: Seq<u8>,
    states: Seq<Orchestrator>,
    events: Seq<Event>,
    actions: Seq<Action>,
    worlds: Seq<Files>,
) -> bool {
    &&& is_run(states, events, actions)
    &&& states[0] == s0
    &&& s0.phase == Phase::Staging
    &&& stages(a0, s0, content)
    &&& worlds.len() == states.len()
    &&& forall|i: int|
        #![trigger events[i]]
        0 <= i < events.len() ==> {
            &&& answers(performed(a0, actions, i), events[i])
            &&& carries_out(worlds[i], performed(a0, actions, i), events[i], s0.staged@, s0.target@, worlds[i + 1])
        }
}

/// The target holds what it held before the write, or the whole new content.
pub open spec fn target_whole(w0: Files, w: Files, target: Seq<char>, content: Seq<u8>) -> bool {
    ||| agree(w0, w, target)
    ||| (w.contains_key(target) && w[target] == content)
}

/// No staged file of `s0` is present in `w`.
pub open spec fn no_staged_files(s0: Orchestrator, w: Files) -> bool {
    forall|p: Seq<char>| s0.files().contains(p) ==> !#[trigger] w.contains_key(p)
}

/// Every path other than the target and the staged files of `s0` is as
/// it was in `w0`.
pub open spec fn untouched_elsewhere(s0: Orchestrator, w0: Files, w: Files) -> bool {
    forall|p: Seq<char>| p != s0.target@ && !s0.files().contains(p) ==> #[trigger] agree(w0, w, p)
}

spec fn write_inv(
    s0: Orchestrator,
    a0: Action,
    content: Seq<u8>,
    states: Seq<Orchestrator>,
    actions: Seq<Action>,
    worlds: Seq<Files>,
    k: int,
) -> bool {
    let w = worlds[k];
    let a = performed(a0, actions, k);
    &&& target_whole(worlds[0], w, s0.target@, content)
    &&& untouched_elsewhere(s0, worlds[0], w)
    &&& (a is Run ==> states[k].phase == Phase::Attempting)
    &&& (states[k].phase == Phase::Staging ==> k == 0)
    &&& (states[k].phase == Phase::Attempting ==> a is Run && w.contains_key(s0.staged@) && w[s0.staged@] == content)
    &&& (states[k].phase == Phase::Cleaning ==> {
        &&& removes_files(a, s0)
        &&& (states[k].result == Some(Ok::<(), WriteError>(())) ==> w.contains_key(s0.target@) && w[s0.target@] == content)
    })
    &&& (states[k].phase == Phase::Done ==> a is Finish && no_staged_files(s0, w))
}

proof fn write_inv_holds(
    s0: Orchestrator,
    a0: Action,
    content: Seq<u8>,
    states: Seq<Orchestrator>,
    events: Seq<Event>,
    actions: Seq<Action>,
    worlds: Seq<Files>,
    k: int,
)
    requires
        is_write(s0, a0, content, states, events, actions, worlds),
        !s0.files().contains(s0.target@),
        0 <= k < states.len(),
    ensures
        write_inv(s0, a0, content, states, actions, worlds, k),
    decreases k,
{
    if k > 0 {
        let i = k - 1;
        write_inv_holds(s0, a0, content, states, events, actions, worlds, i);
        run_keeps_request(states, events, actions, i);
        let t = s0.target@;
        let st = s0.staged@;
        assert(s0.files()[0] == st);
        assert(s0.files().contains(st));
        if s0.script is Some {
            assert(s0.files()[1] == s0.script_path());
            assert(s0.files().contains(s0.script_path()));
        }
        assert(t != st);
        assert(steps(states[i], events[i], states[k], actions[i]));
        let a = performed(a0, actions, i);
        assert(answers(a, events[i]));
        assert(carries_out(worlds[i], a, events[i], st, t, worlds[k]));
        assert(states[i].files() == s0.files());
        assert forall|p: Seq<char>| p != t && !s0.files().contains(p) implies #[trigger] agree(worlds[0], worlds[k], p) by {
            assert(agree(worlds[0], worlds[i], p));
            match a {
                Action::Stage { staged, content: c, helper } => {
                    assert(agree(worlds[i], worlds[k], p));
                },
                Action::Remove(paths) => {
                    assert(agree(worlds[i], worlds[k], p));
                },
                _ => {},
            }
        }
        match a {
            Action::Stage { staged, content: c, helper } => {
                assert(i == 0);
                assert(staged@ == st);
                assert(agree(worlds[i], worlds[k], t));
            },
            Action::Remove(paths) => {
                assert(agree(worlds[i], worlds[k], t));
            },
            _ => {},
        }
    }
}

/// The target is never a mixture: before and after every event of a write
/// it holds either what it held before the write, or the whole new content.
/// This rests on the model's assumption (`carries_out`) that an elevated
/// copy either replaces the target by the whole staged file or leaves it as
/// it was; a copy killed half-way through that wrote in place would not
/// meet it.
pub proof fn target_is_never_partial(
    s0: Orchestrator,
    a0: Action,
    content: Seq<u8>,
    states: Seq<Orchestrator>,
    events: Seq<Event>,
    actions: Seq<Action>,
    worlds: Seq<Files>,
    k: int,
)
    requires
        is_write(s0, a0, content, states, events, actions, worlds),
        !s0.files().contains(s0.target@),
        0 <= k < worlds.len(),
    ensures
        target_whole(worlds[0], worlds[k], s0.target@, content),
{
    write_inv_holds(s0, a0, content, states, events, actions, worlds, k);
}

/// A write that answers success leaves the target holding exactly the new
/// content, and none of its staged files behind. This rests on the model's
/// assumptions (`carries_out`) that an elevated copy which exits with zero
/// copied the staged bytes unchanged, and that a removal takes away the
/// listed files.
pub proof fn success_leaves_content_and_no_staged_file(
    s0: Orchestrator,
    a0: Action,
    content: Seq<u8>,
    states: Seq<Orchestrator>,
    events: Seq<Event>,
    actions: Seq<Action>,
    worlds: Seq<Files>,
    j: int,
)
    requires
        is_write(s0, a0, content, states, events, actions, worlds),
        !s0.files().contains(s0.target@),
        0 <= j < actions.len(),
        actions[j] == Action::Finish(Ok(())),
    ensures
        worlds[j + 1].contains_key(s0.target@),
        worlds[j + 1][s0.target@] == content,
        no_staged_files(s0, worlds[j + 1]),
{
    write_inv_holds(s0, a0, content, states, events, actions, worlds, j);
    write_inv_holds(s0, a0, content, states, events, actions, worlds, j + 1);
    assert(steps(states[j], events[j], states[j + 1], actions[j]));
    assert(states[j].phase == Phase::Cleaning);
    let a = performed(a0, actions, j);
    assert(carries_out(worlds[j], a, events[j], s0.staged@, s0.target@, worlds[j + 1]));
    assert(s0.files()[0] == s0.staged@);
    if s0.script is Some {
        assert(s0.files()[1] == s0.script_path());
    }
    assert(agree(worlds[j], worlds[j + 1], s0.target@));
}

/// Writing the same content over the same target twice in succession,
/// each write answering success, leaves the target holding exactly that
/// content after each write, and no staged file of either write behind.
pub proof fn writing_twice_is_idempotent(
    content: Seq<u8>,
    s1: Orchestrator,
    a1: Action,
    states1: Seq<Orchestrator>,
    events1: Seq<Event>,
    actions1: Seq<Action>,
    worlds1: Seq<Files>,
    s2: Orchestrator,
    a2: Action,
    states2: Seq<Orchestrator>,
    events2: Seq<Event>,
    actions2: Seq<Action>,
    worlds2: Seq<Files>,
)
    requires
        is_write(s1, a1, content, states1, events1, actions1, worlds1),
        is_write(s2, a2, content, states2, events2, actions2, worlds2),
        s1.target@ == s2.target@,
        !s1.files().contains(s1.target@),
        !s2.files().contains(s2.target@),
        actions1.len() > 0,
        actions1.last() == Action::Finish(Ok(())),
        actions2.len() > 0,
        actions2.last() == Action::Finish(Ok(())),
        worlds2[0] == worlds1.last(),
    ensures
        worlds1.last().contains_key(s1.target@),
        worlds1.last()[s1.target@] == content,
        worlds2.last().contains_key(s2.target@),
        worlds2.last()[s2.target@] == content,
        no_staged_files(s1, worlds2.last()),
        no_staged_files(s2, worlds2.last()),
{
    let j1 = actions1.len() - 1;
    let j2 = actions2.len() - 1;
    success_leaves_content_and_no_staged_file(s1, a1, content, states1, events1, actions1, worlds1, j1);
    success_leaves_content_and_no_staged_file(s2, a2, content, states2, events2, actions2, worlds2, j2);
    write_inv_holds(s2, a2, content, states2, events2, actions2, worlds2, j2 + 1);
    let last = worlds2.last();
    assert(worlds2[j2 + 1] == last);
    assert forall|p: Seq<char>| s1.files().contains(p) implies !#[trigger] last.contains_key(p) by {
        assert(!worlds2[0].contains_key(p));
        if !s2.files().contains(p) {
            assert(agree(worlds2[0], last, p));
        }
    }
}

/// A write changes no file but its target and its own staged files.
pub proof fn nothing_else_changes(
    s0: Orchestrator,
    a0: Action,
    content: Seq<u8>,
    states: Seq<Orchestrator>,
    events: Seq<Event>,
    actions: Seq<Action>,
    worlds: Seq<Files>,
    k: int,
)
    requires
        is_write(s0, a0, content, states, events, actions, worlds),
        !s0.files().contains(s0.target@),
        0 <= k < worlds.len(),
    ensures
        untouched_elsewhere(s0, worlds[0], worlds[k]),
{
    write_inv_holds(s0, a0, content, states, events, actions, worlds, k);
}

/// An elevated subprocess is only ever run once the staged file is
/// complete: whenever the event that reports a run arrives, the staged file
/// held exactly the new content when the run began.
pub proof fn runs_only_on_complete_staged_file(
    s0: Orchestrator,
    a0: Action,
    content: Seq<u8>,
    states: Seq<Orchestrator>,
    events: Seq<Event>,
    actions: Seq<Action>,
    worlds: Seq<Files>,
    k: int,
)
    requires
        is_write(s0, a0, content, states, events, actions, worlds),
        !s0.files().contains(s0.target@),
        0 <= k < events.len(),
        performed(a0, actions, k) is Run,
    ensures
        worlds[k].contains_key(s0.staged@),
        worlds[k][s0.staged@] == content,
{
    write_inv_holds(s0, a0, content, states, events, actions, worlds, k);
}

} // verus!
