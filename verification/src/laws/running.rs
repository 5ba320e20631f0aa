//! Laws of creating, starting, entering and stopping sessions: what holds of every run.

use vstd::prelude::*;

use crate::codespace::operations::is_shutdown;
use crate::codespace::{RemoteZellijState, RepoInfo};
use crate::commands::remote::{
    cleanup_failed_codespace_creation_begin, enter_codespace_zellij_begin, run_codespace_begin,
    CleanupFailedFlow, EnterCodespaceFlow, RunCodespaceFlow,
};
use crate::commands::restore::{restore_begin, RestoreFlow};
use crate::commands::run::{run_begin, RunFlow};
use crate::commands::start::{start_begin, StartFlow};
use crate::commands::stop::{stop_begin, StopSessionsFlow};
use crate::commands::{NewSession, BACKEND_CODESPACE, STATUS_ACTIVE};
use crate::entity::session::Model;
use crate::failure::Failure;
use crate::flow::{fail, is_run, Effect, Event, Flow};
use crate::gh::LauncherMode;
use crate::git::Dir;

verus! {

// ── Creating local sessions ─────────────────────────────────────────────────

/// Before place `k` a worktree was created in the directory `dir`.
pub open spec fn was_created(effects: Seq<Effect>, events: Seq<Event>, k: int, dir: Dir) -> bool {
    exists|j: int|
        0 <= j < k && (#[trigger] effects[j] matches Effect::CreateWorktree { dir: d, .. } && d
            == dir) && events[j] == Event::Done
}

/// Before place `k` a local session called `name` was asked to be stored.
pub open spec fn was_stored(effects: Seq<Effect>, k: int, name: String) -> bool {
    exists|j: int|
        0 <= j < k && (#[trigger] effects[j] matches Effect::Insert(
            NewSession::Local { name: n, .. },
        ) && n == name)
}

proof fn later_created(effects: Seq<Effect>, events: Seq<Event>, k: int, dir: Dir)
    requires
        was_created(effects, events, k, dir),
    ensures
        was_created(effects, events, k + 1, dir),
{
    let j = choose|j: int|
        0 <= j < k && (#[trigger] effects[j] matches Effect::CreateWorktree { dir: d, .. } && d
            == dir) && events[j] == Event::Done;
    assert(effects[j] is CreateWorktree);
}

proof fn later_stored(effects: Seq<Effect>, k: int, name: String)
    requires
        was_stored(effects, k, name),
    ensures
        was_stored(effects, k + 1, name),
{
    let j = choose|j: int|
        0 <= j < k && (#[trigger] effects[j] matches Effect::Insert(
            NewSession::Local { name: n, .. },
        ) && n == name);
    assert(effects[j] is Insert);
}

proof fn run_keeps_account(
    name: String,
    here: bool,
    use_codespace: bool,
    states: Seq<RunFlow>,
    effects: Seq<Effect>,
    events: Seq<Event>,
    k: int,
)
    requires
        is_run(states, effects, events),
        (states[0], effects[0]) == run_begin(name, here, use_codespace),
        0 <= k < effects.len(),
    ensures
        match states[k] {
            RunFlow::Find { name: n, .. } => k == 0 && n == name,
            RunFlow::Confirm { name: n, .. } => effects[k] == (Effect::ConfirmResume { name: n }),
            RunFlow::Create { uuid, csm_dir, root, .. } => effects[k] matches Effect::CreateWorktree {
                dir,
                ..
            } && dir == (Dir::Worktree { csm_dir, repo_root: root, uuid }),
            RunFlow::IsGit { dir, owned, .. } => owned ==> was_created(effects, events, k, dir),
            RunFlow::Insert { session_name, dir, owned, .. } => {
                &&& owned ==> was_created(effects, events, k, dir)
                &&& effects[k] matches Effect::Insert(NewSession::Local { name: n, .. }) && n
                    == session_name
            },
            RunFlow::Start { session_name, dir, owned, .. } => {
                &&& owned ==> was_created(effects, events, k, dir)
                &&& was_stored(effects, k, session_name)
            },
            RunFlow::Forget { dir, owned, .. } => owned ==> was_created(effects, events, k, dir),
            RunFlow::Files { dir, owned, .. } => owned ==> was_created(effects, events, k, dir),
            _ => true,
        },
    decreases k,
{
    if k > 0 {
        run_keeps_account(name, here, use_codespace, states, effects, events, k - 1);
        assert(states[k - 1].leads_to(events[k - 1], states[k], effects[k]));
        match states[k - 1] {
            RunFlow::Create { uuid, csm_dir, root, .. } => {
                if events[k - 1] == Event::Done {
                    let dir = Dir::Worktree { csm_dir, repo_root: root, uuid };
                    assert(effects[k - 1] is CreateWorktree);
                    assert(was_created(effects, events, k, dir));
                }
            },
            RunFlow::IsGit { dir, owned, .. } => {
                if owned {
                    later_created(effects, events, k - 1, dir);
                }
            },
            RunFlow::Insert { session_name, dir, owned, .. } => {
                if owned {
                    later_created(effects, events, k - 1, dir);
                }
                assert(effects[k - 1] is Insert);
                assert(was_stored(effects, k, session_name));
            },
            RunFlow::Start { session_name, dir, owned, .. } => {
                if owned {
                    later_created(effects, events, k - 1, dir);
                }
            },
            RunFlow::Forget { dir, owned, .. } => {
                if owned {
                    later_created(effects, events, k - 1, dir);
                }
            },
            RunFlow::Files { dir, owned, .. } => {
                if owned {
                    later_created(effects, events, k - 1, dir);
                }
            },
            _ => {},
        }
    }
}

/// A failed `run` removes only a worktree that it created itself: the directory of the user is
/// never touched.
pub proof fn run_removes_only_what_it_created(
    name: String,
    here: bool,
    use_codespace: bool,
    states: Seq<RunFlow>,
    effects: Seq<Effect>,
    events: Seq<Event>,
    k: int,
)
    requires
        is_run(states, effects, events),
        (states[0], effects[0]) == run_begin(name, here, use_codespace),
        0 <= k < effects.len(),
    ensures
        effects[k] matches Effect::RemoveWorktree { dir, .. } ==> was_created(
            effects,
            events,
            k,
            dir,
        ),
{
    if k > 0 {
        run_keeps_account(name, here, use_codespace, states, effects, events, k - 1);
        assert(states[k - 1].leads_to(events[k - 1], states[k], effects[k]));
        match states[k - 1] {
            RunFlow::Files { dir, owned, .. } => {
                if owned {
                    later_created(effects, events, k - 1, dir);
                }
            },
            _ => {},
        }
    }
}

/// An existing branch is resumed only after the user agreed to it.
pub proof fn branches_are_resumed_with_consent(
    name: String,
    here: bool,
    use_codespace: bool,
    states: Seq<RunFlow>,
    effects: Seq<Effect>,
    events: Seq<Event>,
    k: int,
)
    requires
        is_run(states, effects, events),
        (states[0], effects[0]) == run_begin(name, here, use_codespace),
        0 <= k < effects.len(),
    ensures
        effects[k] matches Effect::CreateWorktree { new_branch, .. } ==> new_branch || (k > 0
            && effects[k - 1] is ConfirmResume && events[k - 1] == Event::Flag(true)),
{
    if k > 0 {
        run_keeps_account(name, here, use_codespace, states, effects, events, k - 1);
        assert(states[k - 1].leads_to(events[k - 1], states[k], effects[k]));
    }
}

/// `run` deletes only two records: that of a removed local session with the requested name,
/// and that of the session that it stored itself and could not start.
pub proof fn run_deletes_only_removed_local_or_own_records(
    name: String,
    here: bool,
    use_codespace: bool,
    states: Seq<RunFlow>,
    effects: Seq<Effect>,
    events: Seq<Event>,
    k: int,
)
    requires
        is_run(states, effects, events),
        (states[0], effects[0]) == run_begin(name, here, use_codespace),
        0 <= k < effects.len(),
    ensures
        effects[k] matches Effect::DeleteByName { name: deleted } ==> (deleted == name && k == 1 && (
        events[0] matches Event::Row(Some(existing)) && existing.status@ != STATUS_ACTIVE@
            && existing.backend@ != BACKEND_CODESPACE@)) || was_stored(effects, k, deleted),
{
    if k > 0 {
        run_keeps_account(name, here, use_codespace, states, effects, events, k - 1);
        assert(states[k - 1].leads_to(events[k - 1], states[k], effects[k]));
        match states[k - 1] {
            RunFlow::Start { session_name, .. } => {
                later_stored(effects, k - 1, session_name);
            },
            _ => {},
        }
    }
}

// ── Creating Codespace sessions ─────────────────────────────────────────────

/// The effect in some place before `k` deals with a Codespace: it undoes its creation or stops
/// it.
pub open spec fn was_dealt_with(effects: Seq<Effect>, k: int, codespace: String) -> bool {
    exists|j: int|
        0 <= j < k && match #[trigger] effects[j] {
            Effect::CleanupFailed { codespace_name, .. } => codespace_name == codespace,
            Effect::StopAndCache { name, .. } => name == codespace,
            _ => false,
        }
}

proof fn creation_remembers_the_codespace(
    session_name: String,
    uuid: String,
    states: Seq<RunCodespaceFlow>,
    effects: Seq<Effect>,
    events: Seq<Event>,
    j: int,
    codespace: String,
    k: int,
)
    requires
        is_run(states, effects, events),
        (states[0], effects[0]) == run_codespace_begin(session_name, uuid),
        0 <= j < k < effects.len(),
        effects[j] is Create,
        events[j] == Event::Text(codespace),
    ensures
        match states[k] {
            RunCodespaceFlow::Insert { codespace_name, .. } => codespace_name == codespace,
            RunCodespaceFlow::SetUp { codespace_name, .. } => codespace_name == codespace,
            RunCodespaceFlow::Enter { codespace_name, .. } => codespace_name == codespace,
            RunCodespaceFlow::Undo { .. } => match effects[k] {
                Effect::CleanupFailed { codespace_name, .. } => codespace_name == codespace,
                _ => false,
            },
            RunCodespaceFlow::Stop { .. } => match effects[k] {
                Effect::StopAndCache { name, .. } => name == codespace,
                _ => false,
            },
            RunCodespaceFlow::Over => effects[k] == Effect::Finish(Event::Done) || effects[k]
                == fail(Failure::UnexpectedReply) || was_dealt_with(effects, k, codespace),
            _ => false,
        },
    decreases k,
{
    assert(states[k - 1].leads_to(events[k - 1], states[k], effects[k]));
    if k - 1 > j {
        creation_remembers_the_codespace(
            session_name,
            uuid,
            states,
            effects,
            events,
            j,
            codespace,
            k - 1,
        );
        match states[k - 1] {
            RunCodespaceFlow::Undo { .. } => {
                assert(effects[k - 1] is CleanupFailed);
                assert(was_dealt_with(effects, k, codespace));
            },
            RunCodespaceFlow::Stop { .. } => {
                assert(effects[k - 1] is StopAndCache);
                assert(was_dealt_with(effects, k, codespace));
            },
            _ => {},
        }
    } else if j > 0 {
        assert(states[j - 1].leads_to(events[j - 1], states[j], effects[j]));
    }
}

/// A Codespace that was created is not left behind when the rest fails: its creation is undone
/// or it is stopped, before the user is told of the failure.
pub proof fn created_codespaces_are_not_left_behind(
    session_name: String,
    uuid: String,
    states: Seq<RunCodespaceFlow>,
    effects: Seq<Effect>,
    events: Seq<Event>,
    j: int,
    codespace: String,
    k: int,
)
    requires
        is_run(states, effects, events),
        (states[0], effects[0]) == run_codespace_begin(session_name, uuid),
        0 <= j < k < effects.len(),
        effects[j] is Create,
        events[j] == Event::Text(codespace),
        effects[k] is Finish,
    ensures
        effects[k] == Effect::Finish(Event::Done) || effects[k] == fail(Failure::UnexpectedReply)
            || was_dealt_with(effects, k, codespace),
{
    creation_remembers_the_codespace(
        session_name,
        uuid,
        states,
        effects,
        events,
        j,
        codespace,
        k,
    );
    assert(states[k - 1].leads_to(events[k - 1], states[k], effects[k]));
}

/// Before place `k` a record for deleting the Codespace later was found or asked to be stored.
pub open spec fn is_on_record(
    effects: Seq<Effect>,
    events: Seq<Event>,
    k: int,
    uuid: String,
    codespace: String,
) -> bool {
    exists|j: int|
        0 <= j < k && ((#[trigger] events[j] matches Event::Row(Some(row)) && row.copilot_uuid@
            == uuid@) || (effects[j] matches Effect::Insert(
            NewSession::Recovery { uuid: u, codespace_name, .. },
        ) && u == uuid && codespace_name == codespace))
}

/// Before place `k` something that would have kept a record failed.
pub open spec fn a_step_failed(events: Seq<Event>, k: int) -> bool {
    exists|j: int| 1 <= j < k && #[trigger] events[j] is Failed
}

proof fn cleanup_keeps_account(
    session_name: String,
    uuid: String,
    repo: RepoInfo,
    codespace: String,
    github_login: String,
    states: Seq<CleanupFailedFlow>,
    effects: Seq<Effect>,
    events: Seq<Event>,
    k: int,
)
    requires
        is_run(states, effects, events),
        (states[0], effects[0]) == cleanup_failed_codespace_creation_begin(
            session_name,
            uuid,
            repo,
            codespace,
            github_login,
        ),
        0 <= k < effects.len(),
    ensures
        match states[k] {
            CleanupFailedFlow::Delete { uuid: u, codespace_name, .. } => k == 0 && u == uuid
                && codespace_name == codespace,
            CleanupFailedFlow::Forget { .. } => k > 0 && events[0] == Event::Done,
            CleanupFailedFlow::Files => k > 0 && events[0] == Event::Done,
            CleanupFailedFlow::Find { uuid: u, codespace_name, .. } => k > 0 && u == uuid
                && codespace_name == codespace,
            CleanupFailedFlow::Name { uuid: u, codespace_name, .. } => k > 0 && u == uuid
                && codespace_name == codespace,
            CleanupFailedFlow::Keep { .. } => k > 0 && (effects[k] matches Effect::Insert(
                NewSession::Recovery { uuid: u, codespace_name, .. },
            ) && u == uuid && codespace_name == codespace),
            CleanupFailedFlow::Over => {
                ||| effects[k] == fail(Failure::UnexpectedReply)
                ||| k > 0 && events[0] == Event::Done
                ||| is_on_record(effects, events, k, uuid, codespace)
                ||| a_step_failed(events, k)
            },
        },
    decreases k,
{
    if k > 0 {
        cleanup_keeps_account(
            session_name,
            uuid,
            repo,
            codespace,
            github_login,
            states,
            effects,
            events,
            k - 1,
        );
        assert(states[k - 1].leads_to(events[k - 1], states[k], effects[k]));
        if states[k] is Over {
            if states[k - 1] is Keep {
                assert(events[k - 1] == events[k - 1]);
                assert(is_on_record(effects, events, k, uuid, codespace));
            }
            if states[k - 1] is Find {
                if events[k - 1] is Failed {
                    assert(a_step_failed(events, k));
                } else if events[k - 1] matches Event::Row(Some(row)) && row.copilot_uuid@
                    == uuid@ {
                    assert(is_on_record(effects, events, k, uuid, codespace));
                }
            }
            if states[k - 1] is Name && events[k - 1] is Failed {
                assert(a_step_failed(events, k));
            }
        }
    }
}

/// After a failed creation the Codespace is deleted, or there is a record with which deleting
/// it can be tried again. Only a failure while such a record is looked for or named stands in
/// the way of that.
pub proof fn undeleted_codespaces_stay_on_record(
    session_name: String,
    uuid: String,
    repo: RepoInfo,
    codespace: String,
    github_login: String,
    states: Seq<CleanupFailedFlow>,
    effects: Seq<Effect>,
    events: Seq<Event>,
    k: int,
)
    requires
        is_run(states, effects, events),
        (states[0], effects[0]) == cleanup_failed_codespace_creation_begin(
            session_name,
            uuid,
            repo,
            codespace,
            github_login,
        ),
        0 <= k < effects.len(),
        effects[k] == Effect::Finish(Event::Done),
    ensures
        events[0] == Event::Done || is_on_record(effects, events, k, uuid, codespace)
            || a_step_failed(events, k),
{
    cleanup_keeps_account(
        session_name,
        uuid,
        repo,
        codespace,
        github_login,
        states,
        effects,
        events,
        k,
    );
    if k > 0 {
        assert(states[k - 1].leads_to(events[k - 1], states[k], effects[k]));
    }
}

// ── Entering Codespace sessions ─────────────────────────────────────────────

/// The effect asks the remote launcher in a mode.
pub open spec fn asks(effect: Effect, mode: LauncherMode) -> bool {
    effect matches Effect::AskLauncher { mode: m, .. } && m == mode
}

proof fn entering_asks_as_it_says(
    session: Model,
    attach_only: bool,
    states: Seq<EnterCodespaceFlow>,
    effects: Seq<Effect>,
    events: Seq<Event>,
    k: int,
)
    requires
        is_run(states, effects, events),
        (states[0], effects[0]) == enter_codespace_zellij_begin(session, attach_only),
        0 <= k < effects.len(),
    ensures
        match states[k] {
            EnterCodespaceFlow::Remote { .. } => asks(effects[k], LauncherMode::State),
            EnterCodespaceFlow::Ready { .. } => asks(effects[k], LauncherMode::Ready),
            EnterCodespaceFlow::Cleanup { .. } => k > 0 && asks(effects[k - 1], LauncherMode::State)
                && events[k - 1] == Event::Remote(RemoteZellijState::Exited),
            EnterCodespaceFlow::Over => effects[k] is Finish,
            _ => true,
        },
        asks(effects[k], LauncherMode::State) ==> states[k] is Remote,
        asks(effects[k], LauncherMode::Ready) ==> states[k] is Ready,
    decreases k,
{
    if k > 0 {
        entering_asks_as_it_says(session, attach_only, states, effects, events, k - 1);
        assert(states[k - 1].leads_to(events[k - 1], states[k], effects[k]));
    }
}

/// Just before place `k` the remote session was seen to be missing, to lack its layout, or to
/// have exited.
pub open spec fn was_seen_idle(effects: Seq<Effect>, events: Seq<Event>, k: int) -> bool {
    ||| k > 0 && asks(effects[k - 1], LauncherMode::State) && events[k - 1] == Event::Remote(
        RemoteZellijState::Missing,
    )
    ||| k > 0 && asks(effects[k - 1], LauncherMode::Ready) && events[k - 1] == Event::Flag(false)
    ||| k > 1 && asks(effects[k - 2], LauncherMode::State) && events[k - 2] == Event::Remote(
        RemoteZellijState::Exited,
    )
}

/// A Codespace is stopped only where its remote session was seen to have exited, to be missing
/// or to lack its layout. Detaching from a session that runs, or losing the connection to it,
/// leaves it running.
pub proof fn running_codespaces_are_left_running(
    session: Model,
    attach_only: bool,
    states: Seq<EnterCodespaceFlow>,
    effects: Seq<Effect>,
    events: Seq<Event>,
    k: int,
)
    requires
        is_run(states, effects, events),
        (states[0], effects[0]) == enter_codespace_zellij_begin(session, attach_only),
        0 <= k < effects.len(),
        effects[k] is StopAndCache,
    ensures
        was_seen_idle(effects, events, k),
{
    if k > 0 {
        entering_asks_as_it_says(session, attach_only, states, effects, events, k - 1);
        assert(states[k - 1].leads_to(events[k - 1], states[k], effects[k]));
    }
}

/// Where the remote session is seen to be missing or to have exited, the Codespace is stopped
/// next, after clearing away what is left of an exited session.
pub proof fn idle_codespaces_are_stopped(
    session: Model,
    attach_only: bool,
    states: Seq<EnterCodespaceFlow>,
    effects: Seq<Effect>,
    events: Seq<Event>,
    k: int,
)
    requires
        is_run(states, effects, events),
        (states[0], effects[0]) == enter_codespace_zellij_begin(session, attach_only),
        0 <= k < events.len(),
        asks(effects[k], LauncherMode::State),
    ensures
        events[k] == Event::Remote(RemoteZellijState::Missing) ==> effects[k + 1] is StopAndCache,
        events[k] == Event::Remote(RemoteZellijState::Exited) ==> asks(
            effects[k + 1],
            LauncherMode::Cleanup,
        ) && (k + 1 < events.len() ==> effects[k + 2] is StopAndCache),
{
    entering_asks_as_it_says(session, attach_only, states, effects, events, k);
    assert(states[k].leads_to(events[k], states[k + 1], effects[k + 1]));
    if k + 1 < events.len() {
        assert(states[k + 1].leads_to(events[k + 1], states[k + 2], effects[k + 2]));
    }
}

// ── Starting and restoring ──────────────────────────────────────────────────

/// Between places `j` and `k` the Codespace was asked to be stopped.
pub open spec fn was_stopped(effects: Seq<Effect>, j: int, k: int) -> bool {
    exists|i: int| j < i < k && #[trigger] effects[i] is StopAndCache
}

/// Between places `j` and `k` the remote session was seen running.
pub open spec fn was_running(events: Seq<Event>, j: int, k: int) -> bool {
    exists|i: int|
        j < i < k && #[trigger] events[i] == Event::Remote(RemoteZellijState::Running)
}

proof fn starting_remembers_the_state(
    name: String,
    states: Seq<StartFlow>,
    effects: Seq<Effect>,
    events: Seq<Event>,
    j: int,
    initial: String,
    k: int,
)
    requires
        is_run(states, effects, events),
        (states[0], effects[0]) == start_begin(name),
        0 <= j < k < effects.len(),
        effects[j] is CurrentState,
        events[j] == Event::Text(initial),
        is_shutdown(initial@),
    ensures
        match states[k] {
            StartFlow::SetUp { initial: i, .. } => i == initial,
            StartFlow::Remote { initial: i, .. } => i == initial,
            StartFlow::Use { initial: i, .. } => i == initial,
            StartFlow::Running { .. } => was_running(events, j, k),
            StartFlow::Enter { .. } => true,
            StartFlow::Stop { .. } => effects[k] is StopAndCache,
            StartFlow::Over => effects[k] == Effect::Finish(Event::Done) || effects[k] == fail(
                Failure::UnexpectedReply,
            ) || was_stopped(effects, j, k) || was_running(events, j, k),
            _ => false,
        },
    decreases k,
{
    assert(states[k - 1].leads_to(events[k - 1], states[k], effects[k]));
    if k - 1 > j {
        starting_remembers_the_state(name, states, effects, events, j, initial, k - 1);
        match states[k - 1] {
            StartFlow::Stop { .. } => {
                assert(effects[k - 1] is StopAndCache);
                assert(was_stopped(effects, j, k));
            },
            StartFlow::Remote { .. } => {
                if events[k - 1] == Event::Remote(RemoteZellijState::Running) {
                    assert(was_running(events, j, k));
                }
            },
            StartFlow::Running { .. } => {
                let i = choose|i: int|
                    j < i < k - 1 && #[trigger] events[i] == Event::Remote(
                        RemoteZellijState::Running,
                    );
                assert(events[i] == Event::Remote(RemoteZellijState::Running));
                assert(was_running(events, j, k));
            },
            _ => {},
        }
    } else if j > 0 {
        assert(states[j - 1].leads_to(events[j - 1], states[j], effects[j]));
    }
}

/// If a Codespace was shut down when `start` began, and `start` fails after that, the Codespace
/// was asked to be stopped again, unless its session turned out to run already. A failed start
/// does not leave a Codespace on.
pub proof fn failed_start_stops_the_codespace(
    name: String,
    states: Seq<StartFlow>,
    effects: Seq<Effect>,
    events: Seq<Event>,
    j: int,
    initial: String,
    k: int,
)
    requires
        is_run(states, effects, events),
        (states[0], effects[0]) == start_begin(name),
        0 <= j < k < effects.len(),
        effects[j] is CurrentState,
        events[j] == Event::Text(initial),
        is_shutdown(initial@),
        effects[k] is Finish,
    ensures
        effects[k] == Effect::Finish(Event::Done) || effects[k] == fail(Failure::UnexpectedReply)
            || was_stopped(effects, j, k) || was_running(events, j, k),
{
    starting_remembers_the_state(name, states, effects, events, j, initial, k);
    assert(states[k - 1].leads_to(events[k - 1], states[k], effects[k]));
}

proof fn restoring_remembers_the_state(
    name: String,
    states: Seq<RestoreFlow>,
    effects: Seq<Effect>,
    events: Seq<Event>,
    j: int,
    initial: String,
    k: int,
)
    requires
        is_run(states, effects, events),
        (states[0], effects[0]) == restore_begin(name),
        0 <= j < k < effects.len(),
        effects[j] is CurrentState,
        events[j] == Event::Text(initial),
        is_shutdown(initial@),
    ensures
        match states[k] {
            RestoreFlow::SetUp { initial: i, .. } => i == initial,
            RestoreFlow::Use { initial: i, .. } => i == initial,
            RestoreFlow::Enter { .. } => true,
            RestoreFlow::Mark { .. } => effects[k] is MarkRemoved,
            RestoreFlow::Stop { .. } => effects[k] is StopAndCache,
            RestoreFlow::Over => effects[k] == Effect::Finish(Event::Done) || effects[k] == fail(
                Failure::UnexpectedReply,
            ) || was_stopped(effects, j, k),
            _ => false,
        },
    decreases k,
{
    assert(states[k - 1].leads_to(events[k - 1], states[k], effects[k]));
    if k - 1 > j {
        restoring_remembers_the_state(name, states, effects, events, j, initial, k - 1);
        if states[k - 1] is Stop {
            assert(effects[k - 1] is StopAndCache);
            assert(was_stopped(effects, j, k));
        }
    } else if j > 0 {
        assert(states[j - 1].leads_to(events[j - 1], states[j], effects[j]));
    }
}

/// If a Codespace was shut down when `restore` began, and `restore` fails after that, the
/// Codespace was asked to be stopped again.
pub proof fn failed_restore_stops_the_codespace(
    name: String,
    states: Seq<RestoreFlow>,
    effects: Seq<Effect>,
    events: Seq<Event>,
    j: int,
    initial: String,
    k: int,
)
    requires
        is_run(states, effects, events),
        (states[0], effects[0]) == restore_begin(name),
        0 <= j < k < effects.len(),
        effects[j] is CurrentState,
        events[j] == Event::Text(initial),
        is_shutdown(initial@),
        effects[k] is Finish,
    ensures
        effects[k] == Effect::Finish(Event::Done) || effects[k] == fail(Failure::UnexpectedReply)
            || was_stopped(effects, j, k),
{
    restoring_remembers_the_state(name, states, effects, events, j, initial, k);
    assert(states[k - 1].leads_to(events[k - 1], states[k], effects[k]));
}

/// If a restored session cannot be connected to, it is marked as removed again and its
/// Codespace is stopped, in this order, and then the failure is told.
pub proof fn failed_restore_is_undone(
    name: String,
    states: Seq<RestoreFlow>,
    effects: Seq<Effect>,
    events: Seq<Event>,
    k: int,
    failure: Failure,
)
    requires
        is_run(states, effects, events),
        (states[0], effects[0]) == restore_begin(name),
        0 <= k,
        k + 2 < events.len(),
        effects[k] is EnterCodespace,
        events[k] == Event::Failed(failure),
    ensures
        effects[k + 1] is MarkRemoved,
        effects[k + 2] is StopAndCache,
        effects[k + 3] == fail(failure),
{
    if k > 0 {
        assert(states[k - 1].leads_to(events[k - 1], states[k], effects[k]));
    }
    assert(states[k].leads_to(events[k], states[k + 1], effects[k + 1]));
    assert(states[k + 1].leads_to(events[k + 1], states[k + 2], effects[k + 2]));
    assert(states[k + 2].leads_to(events[k + 2], states[k + 3], effects[k + 3]));
}

// ── Stopping ────────────────────────────────────────────────────────────────

/// Before place `k`, or in it, the `i`th named session was looked for.
pub open spec fn was_looked_for(effects: Seq<Effect>, k: int, query: String) -> bool {
    exists|j: int| 0 <= j <= k && #[trigger] effects[j] == (Effect::Resolve { query })
}

spec fn place_in_list(state: StopSessionsFlow) -> int {
    match state {
        StopSessionsFlow::Resolve(list) => list.at + 1,
        StopSessionsFlow::Zellij { list, .. } => list.at + 1,
        StopSessionsFlow::Codespace { list, .. } => list.at + 1,
        StopSessionsFlow::Report(list) => list.at + 1,
        _ => 0,
    }
}

proof fn stopping_goes_through_the_list(
    names: Vec<String>,
    states: Seq<StopSessionsFlow>,
    effects: Seq<Effect>,
    events: Seq<Event>,
    k: int,
)
    requires
        is_run(states, effects, events),
        (states[0], effects[0]) == stop_begin(names),
        0 <= k < effects.len(),
    ensures
        match states[k] {
            StopSessionsFlow::Query { names: n } => n == names,
            StopSessionsFlow::Resolve(list) => list.names == names && list.at < names@.len()
                && effects[k] == (Effect::Resolve { query: names@[list.at as int] }),
            StopSessionsFlow::Zellij { list, .. } => list.names == names && list.at < names@.len(),
            StopSessionsFlow::Codespace { list, .. } => list.names == names && list.at
                < names@.len(),
            StopSessionsFlow::Report(list) => list.names == names && list.at < names@.len(),
            StopSessionsFlow::Over => effects[k] is Finish,
        },
        forall|i: int|
            0 <= i < place_in_list(states[k]) ==> was_looked_for(
                effects,
                k,
                #[trigger] names@[i],
            ),
        effects[k] == Effect::Finish(Event::Done) || (effects[k] matches Effect::Finish(
            Event::Failed(Failure::StopFailures { .. }),
        ) && k > 0 && events[k - 1] !is Failed) ==> forall|i: int|
            0 <= i < names@.len() ==> was_looked_for(effects, k, #[trigger] names@[i]),
    decreases k,
{
    if k > 0 {
        stopping_goes_through_the_list(names, states, effects, events, k - 1);
        assert(states[k - 1].leads_to(events[k - 1], states[k], effects[k]));
        let before = place_in_list(states[k - 1]);
        assert forall|i: int| 0 <= i < before implies was_looked_for(
            effects,
            k,
            #[trigger] names@[i],
        ) by {
            assert(was_looked_for(effects, k - 1, names@[i]));
            let j = choose|j: int|
                0 <= j <= k - 1 && #[trigger] effects[j] == (Effect::Resolve {
                    query: names@[i],
                });
            assert(effects[j] == (Effect::Resolve { query: names@[i] }));
        }
        match states[k] {
            StopSessionsFlow::Resolve(list) => {
                assert(effects[k] == (Effect::Resolve { query: names@[list.at as int] }));
                assert(was_looked_for(effects, k, names@[list.at as int]));
            },
            _ => {},
        }
    }
}

/// `stop` ends well only after it has looked for every session that was named: one that cannot
/// be found or stopped does not keep the others from being stopped.
pub proof fn every_named_session_is_dealt_with(
    names: Vec<String>,
    states: Seq<StopSessionsFlow>,
    effects: Seq<Effect>,
    events: Seq<Event>,
    k: int,
    i: int,
)
    requires
        is_run(states, effects, events),
        (states[0], effects[0]) == stop_begin(names),
        0 <= k < effects.len(),
        effects[k] == Effect::Finish(Event::Done),
        0 <= i < names@.len(),
    ensures
        was_looked_for(effects, k, names@[i]),
{
    stopping_goes_through_the_list(names, states, effects, events, k);
}

} // verus!
