//! Laws of starting, attaching to and restoring sessions.

use vstd::prelude::*;

use crate::codespace::operations::is_shutdown;
use crate::codespace::RemoteZellijState;
use crate::commands::attach::{attach_begin, AttachFlow};
use crate::commands::local::{zellij_listed, zellij_runs};
use crate::commands::restore::{restore_begin, RestoreFlow};
use crate::commands::start::{start_begin, StartFlow};
use crate::commands::{
    details_of, CacheWord, RowChange, BACKEND_CODESPACE, BACKEND_LOCAL, STATUS_REMOVED,
};
use crate::entity::session::Model;
use crate::failure::Failure;
use crate::flow::{fail, is_run, Effect, Event, Flow};
use crate::git::{BranchRef, Dir};
use crate::laws::history::{answered, just_answered, just_failed, misanswered};
use crate::remark::{bare, Narrated, Remark, Topic};
use crate::zellij::LocalCommand;

verus! {

/// The session has the backend of a Codespace, with this Codespace, workspace and account.
pub open spec fn has_space(
    session: Model,
    name: String,
    workdir: String,
    github_login: String,
) -> bool {
    &&& session.backend@ == BACKEND_CODESPACE@
    &&& session.codespace_name == Some(name)
    &&& session.remote_workdir == Some(workdir)
    &&& session.github_login == Some(github_login)
}

/// The Codespace of the session was seen in the state `state` before place `k`.
pub open spec fn was_in_state(
    effects: Seq<Effect>,
    events: Seq<Event>,
    k: int,
    session: Model,
    state: String,
) -> bool {
    session.codespace_name matches Some(name) && session.github_login matches Some(github_login)
        && answered(
        effects,
        events,
        k,
        Effect::CurrentState { name, github_login },
        Event::Text(state),
    )
}

/// What is said of a Codespace that could not be stopped after this work failed in a start.
pub open spec fn trouble_after(effect: Effect) -> Topic {
    match effect {
        Effect::SetUp { .. } => Topic::StopAfterSetup,
        Effect::AskLauncher { .. } => Topic::StopAfterStateCheck,
        Effect::Update { .. } => Topic::StopAfterUpdate,
        _ => Topic::StopAfterStart,
    }
}

/// What is said of a Codespace that could not be stopped after this work failed in a restoration.
pub open spec fn restore_trouble_after(effect: Effect) -> Topic {
    match effect {
        Effect::SetUp { .. } => Topic::StopAfterRestoreSetup,
        Effect::Update { .. } => Topic::StopAfterRestoreUpdate,
        _ => Topic::StopAfterRestoreConnection,
    }
}

proof fn starting_remembers(
    name: String,
    session: Model,
    states: Seq<StartFlow>,
    effects: Seq<Effect>,
    events: Seq<Event>,
    k: int,
)
    requires
        is_run(states, effects, events),
        (states[0], effects[0]) == start_begin(name),
        0 < k < effects.len(),
        events[0] == Event::Row(Some(session)),
    ensures
        session.status@ != STATUS_REMOVED@ || effects[k] is Finish,
        match states[k] {
            StartFlow::Resolve => false,
            StartFlow::Query { session: s } => s == session && session.backend@ == BACKEND_LOCAL@
                && effects[k] is QueryZellij,
            StartFlow::Cleanup { session: s } => s == session && session.backend@
                == BACKEND_LOCAL@ && effects[k] is CleanupZellij,
            StartFlow::Touch { name: n, uuid, dir } => n == session.name && uuid
                == session.copilot_uuid && dir == Dir::At(session.worktree_path)
                && session.backend@ == BACKEND_LOCAL@ && effects[k] is Update,
            StartFlow::IsGit { name: n, uuid, dir } => n == session.name && uuid
                == session.copilot_uuid && dir == Dir::At(session.worktree_path)
                && session.backend@ == BACKEND_LOCAL@ && effects[k] == (Effect::IsGitRepo { dir }),
            StartFlow::Local => effects[k] is StartLocal,
            StartFlow::State { session: s, details } => s == session && has_space(
                session,
                details.name,
                details.workdir,
                details.github_login,
            ) && effects[k] == (Effect::CurrentState {
                name: details.name,
                github_login: details.github_login,
            }),
            StartFlow::SetUp { session: s, details, initial } => s == session && has_space(
                session,
                details.name,
                details.workdir,
                details.github_login,
            ) && was_in_state(effects, events, k, session, initial) && effects[k] is SetUp,
            StartFlow::Remote { session: s, details, initial } => s == session && has_space(
                session,
                details.name,
                details.workdir,
                details.github_login,
            ) && was_in_state(effects, events, k, session, initial)
                && (effects[k] matches Effect::AskLauncher { mode, .. } && mode is State),
            StartFlow::Running { name: n } => n == session.name && effects[k] is SetCache,
            StartFlow::Use { session: s, details, initial } => s == session && has_space(
                session,
                details.name,
                details.workdir,
                details.github_login,
            ) && was_in_state(effects, events, k, session, initial) && effects[k] is Update,
            StartFlow::Enter { details, name: n, uuid } => has_space(
                session,
                details.name,
                details.workdir,
                details.github_login,
            ) && n == session.name && uuid == session.copilot_uuid && effects[k] is EnterCodespace,
            StartFlow::Stop { topic, name: n, uuid, codespace, failure } => {
                &&& effects[k] is StopAndCache && just_failed(events, k, failure)
                &&& n == session.name && uuid == session.copilot_uuid
                &&& session.codespace_name == Some(codespace)
                &&& topic == trouble_after(effects[k - 1])
            },
            StartFlow::Over => effects[k] is Finish,
        },
    decreases k,
{
    assert(states[k - 1].leads_to(events[k - 1], states[k], effects[k]));
    if k > 1 {
        starting_remembers(name, session, states, effects, events, k - 1);
    }
}

/// What `start` asks for after it has found the session. The session is not a removed one. A
/// local session is started in its own directory, to be resumed, with a git tab exactly if that
/// directory was just seen to be in a repository, and only if its zellij session did not run. A
/// Codespace session is set up to be resumed and connected to, not merely attached to, and only
/// if its remote session was just seen not to run.
pub proof fn start_acts_on_the_session(
    name: String,
    session: Model,
    states: Seq<StartFlow>,
    effects: Seq<Effect>,
    events: Seq<Event>,
    k: int,
)
    requires
        is_run(states, effects, events),
        (states[0], effects[0]) == start_begin(name),
        0 < k < effects.len(),
        events[0] == Event::Row(Some(session)),
    ensures
        effects[0] == (Effect::Resolve { query: name }),
        effects[k] is Finish || session.status@ != STATUS_REMOVED@,
        match effects[k] {
            Effect::QueryZellij => k == 1 && session.backend@ == BACKEND_LOCAL@,
            Effect::CleanupZellij { uuid } => uuid == session.copilot_uuid && (events[k - 1]
                matches Event::Zellij(zellij) && !zellij_runs(zellij@, uuid@) && zellij_listed(
                zellij@,
                uuid@,
            )),
            Effect::Update { row, change } => row == session && change == RowChange::Touch && (
            effects[k - 1] is CleanupZellij || (events[k - 1] matches Event::Zellij(zellij)
                && !zellij_listed(zellij@, session.copilot_uuid@) && !zellij_runs(
                zellij@,
                session.copilot_uuid@,
            )) || (events[k - 1] matches Event::Remote(state) && state !is Running)),
            Effect::IsGitRepo { dir } => dir == Dir::At(session.worktree_path) && session.backend@
                == BACKEND_LOCAL@ && just_answered(
                effects,
                events,
                k,
                Effect::Update { row: session, change: RowChange::Touch },
                Event::Done,
            ),
            Effect::StartLocal { session_name, uuid, dir, resume, include_git } => {
                &&& session.backend@ == BACKEND_LOCAL@
                &&& session_name == session.name
                &&& uuid == session.copilot_uuid
                &&& dir == Dir::At(session.worktree_path)
                &&& resume
                &&& just_answered(
                    effects,
                    events,
                    k,
                    Effect::IsGitRepo { dir },
                    Event::Flag(include_git),
                )
            },
            Effect::CurrentState { name: space, github_login } => k == 1 && session.backend@
                == BACKEND_CODESPACE@ && session.codespace_name == Some(space)
                && session.github_login == Some(github_login),
            Effect::SetUp { name: space, workdir, uuid, resume, github_login } => {
                &&& has_space(session, space, workdir, github_login)
                &&& uuid == session.copilot_uuid
                &&& resume
                &&& effects[k - 1] == (Effect::CurrentState { name: space, github_login })
                &&& events[k - 1] is Text
            },
            Effect::AskLauncher { name: space, uuid, github_login, mode } => {
                &&& session.codespace_name == Some(space)
                &&& session.github_login == Some(github_login)
                &&& uuid == session.copilot_uuid
                &&& mode is State
                &&& effects[k - 1] is SetUp && events[k - 1] is Setup
            },
            Effect::SetCache { uuid, change } => {
                &&& uuid == session.copilot_uuid
                &&& change == (RowChange::Cache {
                    state: CacheWord::Available,
                    zellij: RemoteZellijState::Running,
                })
                &&& events[k - 1] == Event::Remote(RemoteZellijState::Running)
            },
            Effect::EnterCodespace { session: s, attach_only } => {
                &&& s == session && session.backend@ == BACKEND_CODESPACE@
                &&& !attach_only
                &&& just_answered(
                    effects,
                    events,
                    k,
                    Effect::Update { row: session, change: RowChange::Touch },
                    Event::Done,
                )
            },
            Effect::StopAndCache { name: space, github_login, uuid } => {
                &&& session.codespace_name == Some(space)
                &&& session.github_login == Some(github_login)
                &&& uuid == session.copilot_uuid
                &&& events[k - 1] is Failed
                &&& effects[k - 1] is EnterCodespace || exists|initial: String|
                    #[trigger] was_in_state(effects, events, k, session, initial) && is_shutdown(
                        initial@,
                    )
            },
            Effect::Finish(Event::Done) => events[k - 1] == Event::Done && (effects[k - 1]
                is StartLocal || effects[k - 1] is EnterCodespace),
            Effect::Finish(Event::Failed(f)) => {
                ||| just_failed(events, k, f) && effects[k - 1] !is EnterCodespace && effects[k - 1]
                    !is StopAndCache && effects[k - 1] !is CleanupZellij
                ||| effects[k - 1] is StopAndCache && just_failed(events, k - 1, f)
                ||| f == Failure::UnexpectedReply && misanswered(effects, events, k)
                ||| k == 1 && f == (Failure::Removed { name: session.name }) && session.status@
                    == STATUS_REMOVED@
                ||| k == 1 && session.backend@ == BACKEND_CODESPACE@ && (details_of(session)
                    matches Err(g) && g == f)
                ||| k == 1 && f == (Failure::UnknownBackend {
                    name: session.name,
                    backend: session.backend,
                }) && session.backend@ != BACKEND_LOCAL@ && session.backend@ != BACKEND_CODESPACE@
                ||| f == (Failure::AlreadyRunning { name: session.name }) && ((events[k - 1]
                    matches Event::Zellij(zellij) && zellij_runs(zellij@, session.copilot_uuid@))
                    || (effects[k - 1] is SetCache && events[k - 2] == Event::Remote(
                    RemoteZellijState::Running,
                )))
            },
            _ => false,
        },
{
    starting_remembers(name, session, states, effects, events, k);
    assert(states[k - 1].leads_to(events[k - 1], states[k], effects[k]));
    if k > 1 {
        starting_remembers(name, session, states, effects, events, k - 1);
        assert(states[k - 2].leads_to(events[k - 2], states[k - 1], effects[k - 1]));
        if k > 2 {
            starting_remembers(name, session, states, effects, events, k - 2);
        }
        match states[k - 1] {
            StartFlow::SetUp { initial, .. } | StartFlow::Remote { initial, .. }
            | StartFlow::Use { initial, .. } => {
                assert(was_in_state(effects, events, k, session, initial));
            },
            _ => {},
        }
    }
}

/// `start` says that it starts the session once the use is noted, and warns of a Codespace that
/// could not be stopped, with what had failed before and why; it says nothing else.
pub proof fn start_tells_of_the_session(
    name: String,
    session: Model,
    states: Seq<StartFlow>,
    effects: Seq<Effect>,
    events: Seq<Event>,
    k: int,
)
    requires
        is_run(states, effects, events),
        (states[0], effects[0]) == start_begin(name),
        0 < k < events.len(),
        events[0] == Event::Row(Some(session)),
    ensures
        ({
            let told = states[k].told(&events[k]);
            match (effects[k], events[k]) {
                (Effect::Update { .. }, Event::Done) => told == seq![
                    if session.backend@ == BACKEND_LOCAL@ {
                        Remark {
                            name: Some(&session.name),
                            uuid: Some(&session.copilot_uuid),
                            ..bare(Topic::Starting)
                        }
                    } else {
                        Remark {
                            name: Some(&session.name),
                            uuid: Some(&session.copilot_uuid),
                            codespace: Some(&session.codespace_name->0),
                            ..bare(Topic::StartingRemote)
                        }
                    },
                ],
                (Effect::StopAndCache { .. }, Event::Failed(f)) => told == seq![
                    Remark {
                        name: Some(&session.name),
                        uuid: Some(&session.copilot_uuid),
                        codespace: Some(&session.codespace_name->0),
                        error: Some(&f),
                        ..bare(trouble_after(effects[k - 1]))
                    },
                ],
                _ => told.len() == 0,
            }
        }),
{
    reveal_strlit("local");
    reveal_strlit("codespace");
    assert("local"@.len() != "codespace"@.len());
    starting_remembers(name, session, states, effects, events, k);
}

/// A session that cannot be found ends `start`, `attach` and `restore` with the reason.
pub proof fn unknown_sessions_are_refused(
    name: String,
    starting: StartFlow,
    attaching: AttachFlow,
    restoring: RestoreFlow,
    failure: Failure,
    start_next: (StartFlow, Effect),
    attach_next: (AttachFlow, Effect),
    restore_next: (RestoreFlow, Effect),
)
    requires
        starting == start_begin(name).0,
        attaching == attach_begin(name).0,
        restoring == restore_begin(name).0,
        starting.leads_to(Event::Failed(failure), start_next.0, start_next.1),
        attaching.leads_to(Event::Failed(failure), attach_next.0, attach_next.1),
        restoring.leads_to(Event::Failed(failure), restore_next.0, restore_next.1),
    ensures
        start_begin(name).1 == (Effect::Resolve { query: name }),
        attach_begin(name).1 == (Effect::Resolve { query: name }),
        restore_begin(name).1 == (Effect::Resolve { query: name }),
        start_next.1 == fail(failure),
        attach_next.1 == fail(failure),
        restore_next.1 == fail(failure),
{
}

// ── Attaching ───────────────────────────────────────────────────────────────

proof fn attaching_remembers(
    name: String,
    session: Model,
    states: Seq<AttachFlow>,
    effects: Seq<Effect>,
    events: Seq<Event>,
    k: int,
)
    requires
        is_run(states, effects, events),
        (states[0], effects[0]) == attach_begin(name),
        0 < k < effects.len(),
        events[0] == Event::Row(Some(session)),
    ensures
        session.status@ != STATUS_REMOVED@ || effects[k] is Finish,
        match states[k] {
            AttachFlow::Resolve => false,
            AttachFlow::Query { session: s } => s == session && session.backend@ == BACKEND_LOCAL@
                && effects[k] is QueryZellij,
            AttachFlow::Touch { name: n, uuid } => n == session.name && uuid
                == session.copilot_uuid && session.backend@ == BACKEND_LOCAL@ && effects[k]
                == (Effect::Update { row: session, change: RowChange::Touch }),
            AttachFlow::Local => effects[k] is EnterLocal,
            AttachFlow::State { session: s, details } => s == session && has_space(
                session,
                details.name,
                details.workdir,
                details.github_login,
            ) && effects[k] is CurrentState,
            AttachFlow::SetUp { session: s, details } => s == session && has_space(
                session,
                details.name,
                details.workdir,
                details.github_login,
            ) && effects[k] is SetUp,
            AttachFlow::Remote { session: s } => s == session && session.backend@
                == BACKEND_CODESPACE@ && session.codespace_name is Some && (effects[k] matches Effect::AskLauncher { mode, .. }
                && mode is State),
            AttachFlow::Enter => effects[k] is EnterCodespace,
            AttachFlow::Over => effects[k] is Finish,
        },
    decreases k,
{
    assert(states[k - 1].leads_to(events[k - 1], states[k], effects[k]));
    if k > 1 {
        attaching_remembers(name, session, states, effects, events, k - 1);
    }
}

/// What `attach` asks for after it has found the session. The session is not a removed one. A
/// local session is attached to only if its zellij session was just seen to run, and the use is
/// noted first. A Codespace that is shut down is not started; the remote session is attached to,
/// and not created, and only if it was just seen to run.
pub proof fn attach_needs_a_running_session(
    name: String,
    session: Model,
    states: Seq<AttachFlow>,
    effects: Seq<Effect>,
    events: Seq<Event>,
    k: int,
)
    requires
        is_run(states, effects, events),
        (states[0], effects[0]) == attach_begin(name),
        0 < k < effects.len(),
        events[0] == Event::Row(Some(session)),
    ensures
        effects[k] is Finish || session.status@ != STATUS_REMOVED@,
        match effects[k] {
            Effect::QueryZellij => k == 1 && session.backend@ == BACKEND_LOCAL@,
            Effect::Update { row, change } => row == session && change == RowChange::Touch && (
            events[k - 1] matches Event::Zellij(zellij) && zellij_runs(
                zellij@,
                session.copilot_uuid@,
            )),
            Effect::EnterLocal { session_name, uuid, command } => {
                &&& session_name == session.name
                &&& uuid == session.copilot_uuid
                &&& command == (LocalCommand::Attach { uuid })
                &&& just_answered(
                    effects,
                    events,
                    k,
                    Effect::Update { row: session, change: RowChange::Touch },
                    Event::Done,
                )
            },
            Effect::CurrentState { name: space, github_login } => k == 1 && session.backend@
                == BACKEND_CODESPACE@ && session.codespace_name == Some(space)
                && session.github_login == Some(github_login),
            Effect::SetUp { name: space, workdir, uuid, resume, github_login } => {
                &&& has_space(session, space, workdir, github_login)
                &&& uuid == session.copilot_uuid
                &&& resume
                &&& effects[k - 1] is CurrentState
                &&& events[k - 1] matches Event::Text(state) && !is_shutdown(state@)
            },
            Effect::AskLauncher { name: space, uuid, github_login, mode } => {
                &&& session.codespace_name == Some(space)
                &&& session.github_login == Some(github_login)
                &&& uuid == session.copilot_uuid
                &&& mode is State
                &&& effects[k - 1] is SetUp && events[k - 1] is Setup
            },
            Effect::EnterCodespace { session: s, attach_only } => {
                &&& s == session && session.backend@ == BACKEND_CODESPACE@
                &&& attach_only
                &&& effects[k - 1] is AskLauncher
                &&& events[k - 1] == Event::Remote(RemoteZellijState::Running)
            },
            Effect::Finish(Event::Done) => events[k - 1] == Event::Done && (effects[k - 1]
                is EnterLocal || effects[k - 1] is EnterCodespace),
            Effect::Finish(Event::Failed(f)) => {
                ||| just_failed(events, k, f)
                ||| f == Failure::UnexpectedReply && misanswered(effects, events, k)
                ||| k == 1 && f == (Failure::Removed { name: session.name }) && session.status@
                    == STATUS_REMOVED@
                ||| k == 1 && session.backend@ == BACKEND_CODESPACE@ && (details_of(session)
                    matches Err(g) && g == f)
                ||| k == 1 && f == (Failure::UnknownBackend {
                    name: session.name,
                    backend: session.backend,
                }) && session.backend@ != BACKEND_LOCAL@ && session.backend@ != BACKEND_CODESPACE@
                ||| f == (Failure::Stopped { name: session.name }) && effects[k - 1]
                    is CurrentState && (events[k - 1] matches Event::Text(state) && is_shutdown(
                    state@,
                ))
                ||| f == (Failure::NotRunning { name: session.name }) && (events[k - 1]
                    matches Event::Zellij(zellij) && !zellij_runs(zellij@, session.copilot_uuid@))
                ||| f == (Failure::NotRunning { name: session.name }) && (events[k - 1]
                    matches Event::Remote(state) && state !is Running)
            },
            _ => false,
        },
{
    attaching_remembers(name, session, states, effects, events, k);
    assert(states[k - 1].leads_to(events[k - 1], states[k], effects[k]));
    if k > 1 {
        attaching_remembers(name, session, states, effects, events, k - 1);
    }
}

/// `attach` says that it attaches to the session: to a local one once the use is noted, and to one
/// in a Codespace once its remote session was seen to run. It says nothing else.
pub proof fn attach_tells_of_the_session(
    name: String,
    session: Model,
    states: Seq<AttachFlow>,
    effects: Seq<Effect>,
    events: Seq<Event>,
    k: int,
)
    requires
        is_run(states, effects, events),
        (states[0], effects[0]) == attach_begin(name),
        0 < k < events.len(),
        events[0] == Event::Row(Some(session)),
    ensures
        ({
            let told = states[k].told(&events[k]);
            match (effects[k], events[k]) {
                (Effect::Update { .. }, Event::Done) => told == seq![
                    Remark {
                        name: Some(&session.name),
                        uuid: Some(&session.copilot_uuid),
                        ..bare(Topic::Attaching)
                    },
                ],
                (Effect::AskLauncher { .. }, Event::Remote(RemoteZellijState::Running)) => told
                    == seq![
                    Remark {
                        name: Some(&session.name),
                        uuid: Some(&session.copilot_uuid),
                        codespace: Some(&session.codespace_name->0),
                        ..bare(Topic::AttachingRemote)
                    },
                ],
                _ => told.len() == 0,
            }
        }),
{
    attaching_remembers(name, session, states, effects, events, k);
}

// ── Restoring ───────────────────────────────────────────────────────────────

proof fn restoring_remembers(
    name: String,
    session: Model,
    states: Seq<RestoreFlow>,
    effects: Seq<Effect>,
    events: Seq<Event>,
    k: int,
)
    requires
        is_run(states, effects, events),
        (states[0], effects[0]) == restore_begin(name),
        0 < k < effects.len(),
        events[0] == Event::Row(Some(session)),
    ensures
        session.status@ == STATUS_REMOVED@ || effects[k] is Finish,
        match states[k] {
            RestoreFlow::Resolve => false,
            RestoreFlow::Exists { session: s } => s == session && session.backend@
                == BACKEND_LOCAL@ && effects[k] is BranchExists,
            RestoreFlow::Create { session: s } => s == session && session.backend@
                == BACKEND_LOCAL@ && effects[k] is CreateWorktree,
            RestoreFlow::Activate { name: n, uuid, dir } => n == session.name && uuid
                == session.copilot_uuid && dir == Dir::At(session.worktree_path)
                && session.backend@ == BACKEND_LOCAL@ && effects[k] == (Effect::Update {
                row: session,
                change: RowChange::Activate,
            }),
            RestoreFlow::IsGit { name: n, uuid, dir } => n == session.name && uuid
                == session.copilot_uuid && dir == Dir::At(session.worktree_path)
                && session.backend@ == BACKEND_LOCAL@ && effects[k] == (Effect::IsGitRepo { dir }),
            RestoreFlow::Local => effects[k] is StartLocal,
            RestoreFlow::State { session: s, details } => s == session && has_space(
                session,
                details.name,
                details.workdir,
                details.github_login,
            ) && effects[k] == (Effect::CurrentState {
                name: details.name,
                github_login: details.github_login,
            }),
            RestoreFlow::SetUp { session: s, details, initial } => s == session && has_space(
                session,
                details.name,
                details.workdir,
                details.github_login,
            ) && was_in_state(effects, events, k, session, initial) && effects[k] is SetUp,
            RestoreFlow::Use { session: s, details, initial } => s == session && has_space(
                session,
                details.name,
                details.workdir,
                details.github_login,
            ) && was_in_state(effects, events, k, session, initial) && effects[k]
                == (Effect::Update { row: session, change: RowChange::Activate }),
            RestoreFlow::Enter { details, name: n, uuid } => has_space(
                session,
                details.name,
                details.workdir,
                details.github_login,
            ) && n == session.name && uuid == session.copilot_uuid && effects[k] is EnterCodespace,
            RestoreFlow::Mark { details, name: n, uuid, failure } => has_space(
                session,
                details.name,
                details.workdir,
                details.github_login,
            ) && n == session.name && uuid == session.copilot_uuid && effects[k] is MarkRemoved
                && just_failed(events, k, failure),
            RestoreFlow::Stop { topic, name: n, uuid, codespace, failure } => {
                &&& effects[k] is StopAndCache && (just_failed(events, k, failure) || effects[k - 1]
                    is MarkRemoved && just_failed(events, k - 1, failure))
                &&& n == session.name && uuid == session.copilot_uuid
                &&& session.codespace_name == Some(codespace)
                &&& topic == restore_trouble_after(effects[k - 1])
            },
            RestoreFlow::Over => effects[k] is Finish,
        },
    decreases k,
{
    assert(states[k - 1].leads_to(events[k - 1], states[k], effects[k]));
    if k > 1 {
        restoring_remembers(name, session, states, effects, events, k - 1);
    }
}

/// What `restore` asks for after it has found the session. The session is a removed one. A local
/// session gets its worktree back in its own directory, from its own branch; then it is stored as
/// active and started there, to be resumed, with a git tab exactly if that directory was just seen
/// to be in a repository. A Codespace session is set up, stored as active and connected to.
pub proof fn restore_brings_the_session_back(
    name: String,
    session: Model,
    states: Seq<RestoreFlow>,
    effects: Seq<Effect>,
    events: Seq<Event>,
    k: int,
)
    requires
        is_run(states, effects, events),
        (states[0], effects[0]) == restore_begin(name),
        0 < k < effects.len(),
        events[0] == Event::Row(Some(session)),
    ensures
        effects[k] is Finish || session.status@ == STATUS_REMOVED@,
        match effects[k] {
            Effect::BranchExists { branch, repo } => k == 1 && session.backend@ == BACKEND_LOCAL@
                && branch == BranchRef::Named(session.branch) && repo == Some(session.source_repo),
            Effect::CreateWorktree { dir, branch, new_branch, repo } => {
                &&& dir == Dir::At(session.worktree_path)
                &&& branch == BranchRef::Named(session.branch)
                &&& repo == Some(session.source_repo)
                &&& !new_branch
                &&& just_answered(
                    effects,
                    events,
                    k,
                    Effect::BranchExists { branch, repo },
                    Event::Flag(true),
                )
            },
            Effect::Update { row, change } => {
                &&& row == session && change == RowChange::Activate
                &&& effects[k - 1] is CreateWorktree && events[k - 1] == Event::Done || effects[k
                    - 1] is SetUp && events[k - 1] is Setup
            },
            Effect::IsGitRepo { dir } => dir == Dir::At(session.worktree_path) && session.backend@
                == BACKEND_LOCAL@ && just_answered(
                effects,
                events,
                k,
                Effect::Update { row: session, change: RowChange::Activate },
                Event::Done,
            ),
            Effect::StartLocal { session_name, uuid, dir, resume, include_git } => {
                &&& session.backend@ == BACKEND_LOCAL@
                &&& session_name == session.name
                &&& uuid == session.copilot_uuid
                &&& dir == Dir::At(session.worktree_path)
                &&& resume
                &&& just_answered(
                    effects,
                    events,
                    k,
                    Effect::IsGitRepo { dir },
                    Event::Flag(include_git),
                )
            },
            Effect::CurrentState { name: space, github_login } => k == 1 && session.backend@
                == BACKEND_CODESPACE@ && session.codespace_name == Some(space)
                && session.github_login == Some(github_login),
            Effect::SetUp { name: space, workdir, uuid, resume, github_login } => {
                &&& has_space(session, space, workdir, github_login)
                &&& uuid == session.copilot_uuid
                &&& resume
                &&& effects[k - 1] == (Effect::CurrentState { name: space, github_login })
                &&& events[k - 1] is Text
            },
            Effect::EnterCodespace { session: s, attach_only } => {
                &&& s == session && session.backend@ == BACKEND_CODESPACE@
                &&& !attach_only
                &&& just_answered(
                    effects,
                    events,
                    k,
                    Effect::Update { row: session, change: RowChange::Activate },
                    Event::Done,
                )
            },
            Effect::MarkRemoved { uuid } => uuid == session.copilot_uuid && effects[k - 1]
                is EnterCodespace && events[k - 1] is Failed,
            Effect::StopAndCache { name: space, github_login, uuid } => {
                &&& session.codespace_name == Some(space)
                &&& session.github_login == Some(github_login)
                &&& uuid == session.copilot_uuid
                &&& effects[k - 1] is MarkRemoved || events[k - 1] is Failed && exists|
                    initial: String,
                | #[trigger]
                    was_in_state(effects, events, k, session, initial) && is_shutdown(initial@)
            },
            Effect::Finish(Event::Done) => events[k - 1] == Event::Done && (effects[k - 1]
                is StartLocal || effects[k - 1] is EnterCodespace),
            Effect::Finish(Event::Failed(f)) => {
                ||| just_failed(events, k, f) && effects[k - 1] !is EnterCodespace && effects[k - 1]
                    !is StopAndCache && effects[k - 1] !is MarkRemoved
                ||| effects[k - 1] is StopAndCache && just_failed(events, k - 1, f)
                ||| effects[k - 1] is StopAndCache && effects[k - 2] is MarkRemoved && just_failed(
                    events,
                    k - 2,
                    f,
                )
                ||| f == Failure::UnexpectedReply && misanswered(effects, events, k)
                ||| k == 1 && f == (Failure::NotRemoved {
                    name: session.name,
                    status: session.status,
                }) && session.status@ != STATUS_REMOVED@
                ||| k == 1 && session.backend@ == BACKEND_CODESPACE@ && (details_of(session)
                    matches Err(g) && g == f)
                ||| k == 1 && f == (Failure::UnknownBackend {
                    name: session.name,
                    backend: session.backend,
                }) && session.backend@ != BACKEND_LOCAL@ && session.backend@ != BACKEND_CODESPACE@
                ||| f == (Failure::BranchGone { branch: session.branch }) && effects[k - 1]
                    is BranchExists && events[k - 1] == Event::Flag(false)
            },
            _ => false,
        },
{
    restoring_remembers(name, session, states, effects, events, k);
    assert(states[k - 1].leads_to(events[k - 1], states[k], effects[k]));
    if k > 1 {
        restoring_remembers(name, session, states, effects, events, k - 1);
        match states[k - 1] {
            RestoreFlow::SetUp { initial, .. } | RestoreFlow::Use { initial, .. } => {
                assert(was_in_state(effects, events, k, session, initial));
            },
            _ => {},
        }
    }
}

/// `restore` says that the session is restored once it is stored as active, and warns where it
/// could not be stored as removed again or its Codespace could not be stopped, with what had
/// failed before and why. It says nothing else.
pub proof fn restore_tells_of_the_session(
    name: String,
    session: Model,
    states: Seq<RestoreFlow>,
    effects: Seq<Effect>,
    events: Seq<Event>,
    k: int,
)
    requires
        is_run(states, effects, events),
        (states[0], effects[0]) == restore_begin(name),
        0 < k < events.len(),
        events[0] == Event::Row(Some(session)),
    ensures
        ({
            let told = states[k].told(&events[k]);
            match (effects[k], events[k]) {
                (Effect::Update { .. }, Event::Done) => told == seq![
                    if session.backend@ == BACKEND_LOCAL@ {
                        Remark {
                            name: Some(&session.name),
                            uuid: Some(&session.copilot_uuid),
                            ..bare(Topic::Restored)
                        }
                    } else {
                        Remark {
                            name: Some(&session.name),
                            uuid: Some(&session.copilot_uuid),
                            codespace: Some(&session.codespace_name->0),
                            ..bare(Topic::RestoredRemote)
                        }
                    },
                ],
                (Effect::MarkRemoved { .. }, Event::Failed(f)) => told == seq![
                    Remark {
                        name: Some(&session.name),
                        uuid: Some(&session.copilot_uuid),
                        error: Some(&f),
                        ..bare(Topic::NotMarkedRemoved)
                    },
                ],
                (Effect::StopAndCache { .. }, Event::Failed(f)) => told == seq![
                    Remark {
                        name: Some(&session.name),
                        uuid: Some(&session.copilot_uuid),
                        codespace: Some(&session.codespace_name->0),
                        error: Some(&f),
                        ..bare(restore_trouble_after(effects[k - 1]))
                    },
                ],
                _ => told.len() == 0,
            }
        }),
{
    reveal_strlit("local");
    reveal_strlit("codespace");
    assert("local"@.len() != "codespace"@.len());
    restoring_remembers(name, session, states, effects, events, k);
}

} // verus!
