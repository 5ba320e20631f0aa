//! Laws of what happens around a session that the user is in: what is made sure of before,
//! and what is noted and cleaned up after.

use vstd::prelude::*;

use crate::commands::local::{
    enter_local_zellij_begin, start_local_zellij_session_begin, zellij_listed, zellij_runs,
    EnterLocalFlow, StartLocalFlow,
};
use crate::commands::remote::{run_codespace_begin, RunCodespaceFlow};
use crate::commands::restore::{restore_begin, RestoreFlow};
use crate::commands::RowChange;
use crate::flow::{is_run, Effect, Event, Flow};
use crate::git::Dir;
use crate::zellij::{LocalCommand, State};

verus! {

// ── Before ──────────────────────────────────────────────────────────────────

/// Before place `k` the marker of the session was written.
pub open spec fn was_marked(effects: Seq<Effect>, events: Seq<Event>, k: int, uuid: String) -> bool {
    exists|j: int|
        0 <= j < k && #[trigger] effects[j] == (Effect::WriteMarker { uuid }) && events[j]
            == Event::Done
}

proof fn starting_marks(
    session_name: String,
    uuid: String,
    dir: Dir,
    resume: bool,
    include_git: bool,
    states: Seq<StartLocalFlow>,
    effects: Seq<Effect>,
    events: Seq<Event>,
    k: int,
)
    requires
        is_run(states, effects, events),
        (states[0], effects[0]) == start_local_zellij_session_begin(
            session_name,
            uuid,
            dir,
            resume,
            include_git,
        ),
        0 <= k < effects.len(),
    ensures
        match states[k] {
            StartLocalFlow::Launcher { uuid: u, resume: r, .. } => u == uuid && r == resume,
            StartLocalFlow::Layout { uuid: u, resume: r, .. } => u == uuid && r == resume,
            StartLocalFlow::Config { uuid: u, resume: r, .. } => u == uuid && r == resume,
            StartLocalFlow::Marker { uuid: u, .. } => u == uuid && resume && effects[k] == (
            Effect::WriteMarker { uuid }),
            StartLocalFlow::Enter => resume ==> was_marked(effects, events, k, uuid),
            StartLocalFlow::Over => effects[k] is Finish,
        },
        effects[k] is EnterLocal ==> states[k] is Enter,
        effects[k] is WriteMarker ==> resume,
    decreases k,
{
    if k > 0 {
        starting_marks(session_name, uuid, dir, resume, include_git, states, effects, events, k - 1);
        assert(states[k - 1].leads_to(events[k - 1], states[k], effects[k]));
        if states[k - 1] is Marker && events[k - 1] == Event::Done {
            assert(effects[k - 1] == (Effect::WriteMarker { uuid }));
        }
    }
}

/// When a session is started again, its marker is there before zellij is entered, so that the
/// launcher resumes the conversation.
pub proof fn resumed_sessions_are_marked(
    session_name: String,
    uuid: String,
    dir: Dir,
    include_git: bool,
    states: Seq<StartLocalFlow>,
    effects: Seq<Effect>,
    events: Seq<Event>,
    k: int,
)
    requires
        is_run(states, effects, events),
        (states[0], effects[0]) == start_local_zellij_session_begin(
            session_name,
            uuid,
            dir,
            true,
            include_git,
        ),
        0 <= k < effects.len(),
        effects[k] is EnterLocal,
    ensures
        was_marked(effects, events, k, uuid),
{
    starting_marks(session_name, uuid, dir, true, include_git, states, effects, events, k);
}

/// No marker is written for a new session: its first launch begins a conversation.
pub proof fn new_sessions_are_not_marked(
    session_name: String,
    uuid: String,
    dir: Dir,
    include_git: bool,
    states: Seq<StartLocalFlow>,
    effects: Seq<Effect>,
    events: Seq<Event>,
    k: int,
)
    requires
        is_run(states, effects, events),
        (states[0], effects[0]) == start_local_zellij_session_begin(
            session_name,
            uuid,
            dir,
            false,
            include_git,
        ),
        0 <= k < effects.len(),
    ensures
        effects[k] !is WriteMarker,
{
    starting_marks(session_name, uuid, dir, false, include_git, states, effects, events, k);
}

/// The worktree of a restored session is made from its existing branch: the branch was just
/// found in the repository of the session, and no new branch is made.
pub proof fn restored_worktrees_have_their_branch(
    name: String,
    states: Seq<RestoreFlow>,
    effects: Seq<Effect>,
    events: Seq<Event>,
    k: int,
)
    requires
        is_run(states, effects, events),
        (states[0], effects[0]) == restore_begin(name),
        0 <= k < effects.len(),
        effects[k] is CreateWorktree,
    ensures
        effects[k] matches Effect::CreateWorktree { branch, new_branch, repo, .. } && !new_branch
            && k > 0 && effects[k - 1] == (Effect::BranchExists { branch, repo }) && events[k - 1]
            == Event::Flag(true),
{
    assert(k > 0);
    assert(states[k - 1].leads_to(events[k - 1], states[k], effects[k]));
    assert(states[k - 1] is Exists);
    assert(k > 1);
    assert(states[k - 2].leads_to(events[k - 2], states[k - 1], effects[k - 1]));
}

/// A Codespace is created for the repository that was just looked up, and so from its default
/// branch.
pub proof fn codespaces_are_created_for_the_repository(
    session_name: String,
    uuid: String,
    states: Seq<RunCodespaceFlow>,
    effects: Seq<Effect>,
    events: Seq<Event>,
    k: int,
)
    requires
        is_run(states, effects, events),
        (states[0], effects[0]) == run_codespace_begin(session_name, uuid),
        0 <= k < effects.len(),
        effects[k] is Create,
    ensures
        effects[k] matches Effect::Create { repo, .. } && k > 0 && events[k - 1] == Event::Repo(
            repo,
        ),
{
    assert(k > 0);
    assert(states[k - 1].leads_to(events[k - 1], states[k], effects[k]));
}

// ── After ───────────────────────────────────────────────────────────────────

/// Before place `k` the session was looked for, and was gone or its use was noted.
pub open spec fn use_was_noted(effects: Seq<Effect>, events: Seq<Event>, k: int) -> bool {
    exists|j: int|
        0 <= j < k && ((#[trigger] effects[j] is FindByUuid && events[j] == Event::Row(None)) || (
        effects[j] matches Effect::Update { change: RowChange::Touch, .. } && events[j]
            == Event::Done))
}

proof fn leaving_notes(
    session_name: String,
    uuid: String,
    command: LocalCommand,
    states: Seq<EnterLocalFlow>,
    effects: Seq<Effect>,
    events: Seq<Event>,
    k: int,
)
    requires
        is_run(states, effects, events),
        (states[0], effects[0]) == enter_local_zellij_begin(session_name, uuid, command),
        0 <= k < effects.len(),
    ensures
        match states[k] {
            EnterLocalFlow::Client { uuid: u, .. } => u == uuid && effects[k] is Client,
            EnterLocalFlow::Check { uuid: u, .. } => u == uuid && effects[k] is QueryZellij,
            EnterLocalFlow::Find { uuid: u, .. } => u == uuid && effects[k] is FindByUuid,
            EnterLocalFlow::Touch { uuid: u } => u == uuid && (effects[k] matches Effect::Update {
                change: RowChange::Touch,
                ..
            }),
            EnterLocalFlow::Query { uuid: u } => u == uuid && effects[k] is QueryZellij
                && use_was_noted(effects, events, k),
            EnterLocalFlow::Cleanup => use_was_noted(effects, events, k),
            EnterLocalFlow::Over => effects[k] == Effect::Finish(Event::Done) ==> use_was_noted(
                effects,
                events,
                k,
            ),
        },
    decreases k,
{
    if k > 0 {
        leaving_notes(session_name, uuid, command, states, effects, events, k - 1);
        assert(states[k - 1].leads_to(events[k - 1], states[k], effects[k]));
        if use_was_noted(effects, events, k - 1) {
            let j = choose|j: int|
                0 <= j < k - 1 && ((#[trigger] effects[j] is FindByUuid && events[j] == Event::Row(
                    None,
                )) || (effects[j] matches Effect::Update { change: RowChange::Touch, .. }
                    && events[j] == Event::Done));
            assert(effects[j] is FindByUuid || effects[j] is Update);
            assert(use_was_noted(effects, events, k));
        } else if states[k] is Query {
            assert(effects[k - 1] is FindByUuid || effects[k - 1] is Update);
            assert(use_was_noted(effects, events, k));
        }
    }
}

/// When the user has left a local session and all went well, the use of the session was noted,
/// unless the session is no longer stored.
pub proof fn leaving_notes_the_use(
    session_name: String,
    uuid: String,
    command: LocalCommand,
    states: Seq<EnterLocalFlow>,
    effects: Seq<Effect>,
    events: Seq<Event>,
    k: int,
)
    requires
        is_run(states, effects, events),
        (states[0], effects[0]) == enter_local_zellij_begin(session_name, uuid, command),
        0 <= k < effects.len(),
        effects[k] == Effect::Finish(Event::Done),
    ensures
        use_was_noted(effects, events, k),
{
    leaving_notes(session_name, uuid, command, states, effects, events, k);
    if k > 0 {
        leaving_notes(session_name, uuid, command, states, effects, events, k - 1);
        assert(states[k - 1].leads_to(events[k - 1], states[k], effects[k]));
    }
}

/// After the use of a session was noted, the zellij sessions are looked at: one that has
/// exited is deleted, so that it shows as stopped, and one that runs is left alone.
pub proof fn exited_sessions_are_deleted(
    session_name: String,
    uuid: String,
    command: LocalCommand,
    states: Seq<EnterLocalFlow>,
    effects: Seq<Effect>,
    events: Seq<Event>,
    k: int,
    sessions: State,
)
    requires
        is_run(states, effects, events),
        (states[0], effects[0]) == enter_local_zellij_begin(session_name, uuid, command),
        0 <= k < events.len(),
        states[k] is Query,
        events[k] == Event::Zellij(sessions),
    ensures
        effects[k + 1] == (if zellij_listed(sessions@, uuid@) && !zellij_runs(sessions@, uuid@) {
            Effect::CleanupZellij { uuid }
        } else {
            Effect::Finish(Event::Done)
        }),
{
    leaving_notes(session_name, uuid, command, states, effects, events, k);
    assert(states[k].leads_to(events[k], states[k + 1], effects[k + 1]));
}

} // verus!
