//! Laws of sessions in Codespaces.

use vstd::prelude::*;

use crate::codespace::operations::is_shutdown;
use crate::codespace::{workdir_text, workspace_path, RemoteZellijState, RepoInfo};
use crate::commands::remote::{
    cleanup_failed_codespace_creation_begin, enter_codespace_zellij_begin, run_codespace_begin,
    set_up_begin, CleanupFailedFlow, EnterCodespaceFlow, RunCodespaceFlow, SetUpFlow,
};
use crate::commands::{
    details_of, CacheWord, CodespaceDetails, NameBase, NewSession, RowChange,
};
use crate::entity::session::Model;
use crate::failure::Failure;
use crate::flow::{is_run, Effect, Event, Flow};
use crate::gh::{GhCall, LauncherMode};
use crate::laws::history::{just_failed, misanswered};
use crate::remark::{bare, Narrated, Remark, Topic};

verus! {

/// The session has this Codespace, workspace and account.
pub open spec fn lives_in(
    session: Model,
    name: String,
    workdir: String,
    github_login: String,
) -> bool {
    &&& session.codespace_name == Some(name)
    &&& session.remote_workdir == Some(workdir)
    &&& session.github_login == Some(github_login)
}

// ── Setting up ──────────────────────────────────────────────────────────────

proof fn set_up_remembers(
    name: String,
    workdir: String,
    uuid: String,
    resume: bool,
    github_login: String,
    states: Seq<SetUpFlow>,
    effects: Seq<Effect>,
    events: Seq<Event>,
    k: int,
)
    requires
        is_run(states, effects, events),
        (states[0], effects[0]) == set_up_begin(name, workdir, uuid, resume, github_login),
        0 <= k < effects.len(),
    ensures
        match states[k] {
            SetUpFlow::Launcher { name: n, workdir: w, uuid: u, resume: r, github_login: l } => k
                == 0 && n == name && w == workdir && u == uuid && r == resume && l == github_login,
            SetUpFlow::Layout { name: n, workdir: w, uuid: u, resume: r, github_login: l, launcher } =>
                k == 1 && n == name && w == workdir && u == uuid && r == resume && l
                == github_login && events[0] == Event::Text(launcher),
            SetUpFlow::Config {
                name: n,
                workdir: w,
                uuid: u,
                resume: r,
                github_login: l,
                launcher,
                layout,
            } => k == 2 && n == name && w == workdir && u == uuid && r == resume && l
                == github_login && events[0] == Event::Text(launcher) && events[1] == Event::Text(
                layout,
            ),
            SetUpFlow::Prepare => k == 3 && effects[k] is Prepare,
            SetUpFlow::Over => effects[k] is Finish,
        },
    decreases k,
{
    if k > 0 {
        set_up_remembers(
            name,
            workdir,
            uuid,
            resume,
            github_login,
            states,
            effects,
            events,
            k - 1,
        );
        assert(states[k - 1].leads_to(events[k - 1], states[k], effects[k]));
    }
}

/// Setting up a Codespace writes the launcher, then a layout for the UUID, the Codespace and the
/// workspace, then the configuration, and has just these three files copied into just this
/// Codespace, for the given account and to resume or not as was asked. What the preparation
/// found is the outcome.
pub proof fn codespace_is_set_up_as_asked(
    name: String,
    workdir: String,
    uuid: String,
    resume: bool,
    github_login: String,
    states: Seq<SetUpFlow>,
    effects: Seq<Effect>,
    events: Seq<Event>,
    k: int,
)
    requires
        is_run(states, effects, events),
        (states[0], effects[0]) == set_up_begin(name, workdir, uuid, resume, github_login),
        0 <= k < effects.len(),
    ensures
        match effects[k] {
            Effect::WriteCodespaceLauncher => k == 0,
            Effect::WriteCodespaceLayout { uuid: u, name: n, workdir: w } => k == 1 && u == uuid && n
                == name && w == workdir && events[0] is Text,
            Effect::WriteConfig => k == 2 && events[1] is Text,
            Effect::Prepare(setup) => {
                &&& k == 3
                &&& setup.name == name && setup.workdir == workdir && setup.uuid == uuid
                &&& setup.resume == resume && setup.github_login == github_login
                &&& events[0] == Event::Text(setup.launcher)
                &&& events[1] == Event::Text(setup.layout)
                &&& events[2] == Event::Text(setup.config)
            },
            Effect::Finish(Event::Setup(outcome)) => k == 4 && events[3] == Event::Setup(outcome),
            Effect::Finish(Event::Failed(f)) => just_failed(events, k, f) || f
                == Failure::UnexpectedReply && misanswered(effects, events, k),
            _ => false,
        },
{
    set_up_remembers(name, workdir, uuid, resume, github_login, states, effects, events, k);
    if k > 0 {
        set_up_remembers(
            name,
            workdir,
            uuid,
            resume,
            github_login,
            states,
            effects,
            events,
            k - 1,
        );
        assert(states[k - 1].leads_to(events[k - 1], states[k], effects[k]));
    }
}

// ── Creating ────────────────────────────────────────────────────────────────

/// The fields of a Codespace session that is being created are those that were found.
spec fn found(
    events: Seq<Event>,
    github_login: String,
    repo: RepoInfo,
    codespace_name: String,
) -> bool {
    &&& events[2] == Event::Text(github_login)
    &&& events[3] == Event::Repo(repo)
    &&& events[4] == Event::Text(codespace_name)
}

proof fn creating_remembers(
    session_name: String,
    uuid: String,
    states: Seq<RunCodespaceFlow>,
    effects: Seq<Effect>,
    events: Seq<Event>,
    k: int,
)
    requires
        is_run(states, effects, events),
        (states[0], effects[0]) == run_codespace_begin(session_name, uuid),
        0 <= k < effects.len(),
    ensures
        match states[k] {
            RunCodespaceFlow::Root { session_name: n, uuid: u } => k == 0 && n == session_name && u
                == uuid && effects[k] is RepoRoot,
            RunCodespaceFlow::Auth { session_name: n, uuid: u, root } => k == 1 && n == session_name
                && u == uuid && events[0] == Event::Text(root),
            RunCodespaceFlow::Login { session_name: n, uuid: u, root } => k == 2 && n
                == session_name && u == uuid && events[0] == Event::Text(root),
            RunCodespaceFlow::Repo { session_name: n, uuid: u, github_login } => k == 3 && n
                == session_name && u == uuid && events[2] == Event::Text(github_login),
            RunCodespaceFlow::Create { session_name: n, uuid: u, github_login, repo } => k == 4 && n
                == session_name && u == uuid && events[2] == Event::Text(github_login)
                && events[3] == Event::Repo(repo),
            RunCodespaceFlow::Insert { session_name: n, uuid: u, github_login, repo, codespace_name } =>
                k == 5 && n == session_name && u == uuid && found(
                events,
                github_login,
                repo,
                codespace_name,
            ),
            RunCodespaceFlow::SetUp {
                session,
                session_name: n,
                uuid: u,
                github_login,
                repo,
                codespace_name,
            } => k == 6 && n == session_name && u == uuid && found(
                events,
                github_login,
                repo,
                codespace_name,
            ) && events[5] == Event::Row(Some(session)) && effects[k] is SetUp,
            RunCodespaceFlow::Enter { session_name: n, codespace_name, github_login, uuid: u } => k
                == 7 && n == session_name && u == uuid && events[2] == Event::Text(github_login)
                && events[4] == Event::Text(codespace_name) && effects[k] is EnterCodespace,
            RunCodespaceFlow::Undo { failure } => effects[k] is CleanupFailed && 6 <= k <= 7 && (
            just_failed(events, k, failure) || k == 6 && (events[5] matches Event::Row(Some(session))
                && (details_of(session) matches Err(f) && f == failure))),
            RunCodespaceFlow::Stop { failure, session_name: n, codespace_name, uuid: u } => k == 8
                && effects[k] is StopAndCache && just_failed(events, k, failure) && n
                == session_name && u == uuid && events[4] == Event::Text(codespace_name),
            RunCodespaceFlow::Over => effects[k] is Finish,
        },
    decreases k,
{
    if k > 0 {
        creating_remembers(session_name, uuid, states, effects, events, k - 1);
        assert(states[k - 1].leads_to(events[k - 1], states[k], effects[k]));
        assert(effects[k - 1] !is Finish);
    }
}

/// What the creation of a Codespace session asks for: the repository, a `gh` that is logged in,
/// its account, and what GitHub knows of the repository; then a Codespace for that repository, if
/// its workspace has a safe path; then to store the session with that Codespace, repository and
/// account. The session that was stored is set up as a new one and connected to, which creates
/// the remote session: it is not merely attached to. What fails before the connection is undone,
/// and what fails after it has the Codespace stopped; then the failure is passed on.
pub proof fn codespace_session_is_created(
    session_name: String,
    uuid: String,
    states: Seq<RunCodespaceFlow>,
    effects: Seq<Effect>,
    events: Seq<Event>,
    k: int,
)
    requires
        is_run(states, effects, events),
        (states[0], effects[0]) == run_codespace_begin(session_name, uuid),
        0 <= k < effects.len(),
    ensures
        match effects[k] {
            Effect::RepoRoot => k == 0,
            Effect::Gh(GhCall::AuthStatus) => k == 1 && events[0] is Text,
            Effect::Gh(GhCall::Login) => k == 2 && events[1] == Event::Done,
            Effect::Gh(GhCall::RepoView { root }) => k == 3 && events[2] is Text && events[0]
                == Event::Text(root),
            Effect::Create { repo, session_name: n, uuid: u } => k == 4 && n == session_name && u
                == uuid && events[3] == Event::Repo(repo) && repo.name_with_owner@.contains('/')
                && workspace_path(workdir_text(repo.name_with_owner@)),
            Effect::Insert(
                NewSession::Codespace { name, uuid: u, repo, codespace_name, github_login },
            ) => {
                &&& k == 5 && name == session_name && u == uuid
                &&& events[2] == Event::Text(github_login)
                &&& events[3] == Event::Repo(repo)
                &&& events[4] == Event::Text(codespace_name)
            },
            Effect::SetUp { name, workdir, uuid: u, resume, github_login } => {
                &&& k == 6 && u == uuid && !resume
                &&& events[5] matches Event::Row(Some(session)) && lives_in(
                    session,
                    name,
                    workdir,
                    github_login,
                )
            },
            Effect::EnterCodespace { session, attach_only } => {
                &&& k == 7 && !attach_only
                &&& events[5] == Event::Row(Some(session))
                &&& events[6] is Setup
            },
            Effect::CleanupFailed { session_name: n, uuid: u, repo, codespace_name, github_login } => {
                &&& n == session_name && u == uuid
                &&& events[2] == Event::Text(github_login)
                &&& events[3] == Event::Repo(repo)
                &&& events[4] == Event::Text(codespace_name)
                &&& k == 6 && (events[5] is Failed || (events[5] matches Event::Row(Some(session))
                    && details_of(session) is Err)) || k == 7 && events[6] is Failed
            },
            Effect::StopAndCache { name, github_login, uuid: u } => {
                &&& k == 8 && events[7] is Failed && u == uuid
                &&& events[2] == Event::Text(github_login)
                &&& events[4] == Event::Text(name)
            },
            Effect::Finish(Event::Done) => k == 8 && events[7] == Event::Done,
            Effect::Finish(Event::Failed(f)) => {
                ||| k == 1 && (events[0] matches Event::Failed(g) && f == (
                Failure::NotInRepository { cause: Box::new(g) }))
                ||| 1 < k < 6 && just_failed(events, k, f)
                ||| f == Failure::UnexpectedReply && misanswered(effects, events, k)
                ||| k == 4 && (events[3] matches Event::Repo(repo) && if repo.name_with_owner@.contains(
                    '/',
                ) {
                    !workspace_path(workdir_text(repo.name_with_owner@)) && f == (
                    Failure::UnsafeRepository { repo: repo.name_with_owner })
                } else {
                    f == Failure::RepoForm
                })
                ||| (k == 7 || k == 8) && effects[k - 1] is CleanupFailed && just_failed(
                    events,
                    k - 1,
                    f,
                )
                ||| k == 7 && effects[6] is CleanupFailed && (events[5] matches Event::Row(
                    Some(session),
                ) && (details_of(session) matches Err(g) && g == f))
                ||| k == 9 && effects[8] is StopAndCache && events[7] == Event::Failed(f)
            },
            _ => false,
        },
{
    creating_remembers(session_name, uuid, states, effects, events, k);
    if k > 0 {
        creating_remembers(session_name, uuid, states, effects, events, k - 1);
        assert(states[k - 1].leads_to(events[k - 1], states[k], effects[k]));
        assert(effects[k - 1] !is Finish);
    }
}

/// The user is told of each step of a creation once it is done, with the session and its Codespace:
/// that the Codespace is about to be created, that it is there, and that the session is ready to
/// be connected to; and is warned of a Codespace that could not be stopped.
pub proof fn creation_tells_its_steps(
    session_name: String,
    uuid: String,
    states: Seq<RunCodespaceFlow>,
    effects: Seq<Effect>,
    events: Seq<Event>,
    k: int,
)
    requires
        is_run(states, effects, events),
        (states[0], effects[0]) == run_codespace_begin(session_name, uuid),
        0 <= k < events.len(),
    ensures
        ({
            let told = states[k].told(&events[k]);
            let plain = |topic: Topic| Remark {
                name: Some(&session_name),
                uuid: Some(&uuid),
                ..bare(topic)
            };
            match (effects[k], events[k]) {
                (Effect::Gh(GhCall::RepoView { .. }), Event::Repo(repo)) => told == (
                if repo.name_with_owner@.contains('/') && workspace_path(
                    workdir_text(repo.name_with_owner@),
                ) {
                    seq![
                        Remark {
                            repository: Some(&repo.name_with_owner),
                            detail: Some(&repo.default_branch),
                            ..plain(Topic::CreatingCodespace)
                        },
                    ]
                } else {
                    Seq::empty()
                }),
                (Effect::Create { .. }, Event::Text(codespace)) => told == seq![
                    Remark { codespace: Some(&codespace), ..plain(Topic::CreatedCodespace) },
                ],
                (Effect::SetUp { .. }, Event::Setup(_)) => events[4] matches Event::Text(codespace)
                    && told == seq![
                    Remark { codespace: Some(&codespace), ..plain(Topic::CreatedCodespaceSession) },
                    Remark { codespace: Some(&codespace), ..plain(Topic::ConnectingDirectly) },
                ],
                (Effect::StopAndCache { name, .. }, Event::Failed(f)) => told == seq![
                    Remark {
                        codespace: Some(&name),
                        error: Some(&f),
                        ..plain(Topic::StopAfterConnection)
                    },
                ],
                _ => told.len() == 0,
            }
        }),
{
    creating_remembers(session_name, uuid, states, effects, events, k);
    if k > 0 {
        creating_remembers(session_name, uuid, states, effects, events, k - 1);
        assert(states[k - 1].leads_to(events[k - 1], states[k], effects[k]));
    }
}

// ── Undoing ─────────────────────────────────────────────────────────────────

proof fn undoing_remembers(
    session_name: String,
    uuid: String,
    repo: RepoInfo,
    codespace: String,
    github_login: String,
    states: Seq<CleanupFailedFlow>,
    effects: Seq<Effect>,
    events: Seq<Event>,
    k: int,
)
    requires
        is_run(states, effects, events),
        (states[0], effects[0]) == cleanup_failed_codespace_creation_begin(
            session_name,
            uuid,
            repo,
            codespace,
            github_login,
        ),
        0 <= k < effects.len(),
    ensures
        match states[k] {
            CleanupFailedFlow::Delete {
                session_name: n,
                uuid: u,
                repo: r,
                codespace_name,
                github_login: l,
            } => k == 0 && n == session_name && u == uuid && r == repo && codespace_name
                == codespace && l == github_login && effects[k] is DeleteCodespace,
            CleanupFailedFlow::Forget { session_name: n, uuid: u, codespace_name } => k == 1 && n
                == session_name && u == uuid && codespace_name == codespace && effects[k]
                is DeleteRow,
            CleanupFailedFlow::Files => k == 2 && effects[k] is CleanupFiles,
            CleanupFailedFlow::Find {
                session_name: n,
                uuid: u,
                repo: r,
                codespace_name,
                github_login: l,
                delete_error,
            } => k == 1 && n == session_name && u == uuid && r == repo && codespace_name
                == codespace && l == github_login && effects[k] is FindByName && events[0]
                == Event::Failed(delete_error),
            CleanupFailedFlow::Name {
                session_name: n,
                uuid: u,
                repo: r,
                codespace_name,
                github_login: l,
                delete_error,
            } => k == 2 && n == session_name && u == uuid && r == repo && codespace_name
                == codespace && l == github_login && effects[k] is FreeName && events[0]
                == Event::Failed(delete_error),
            CleanupFailedFlow::Keep {
                session_name: n,
                name,
                uuid: u,
                codespace_name,
                delete_error,
            } => n == session_name && u == uuid && codespace_name == codespace && (effects[k]
                matches Effect::Insert(NewSession::Recovery { name: m, .. }) && m == name)
                && events[0] == Event::Failed(delete_error),
            CleanupFailedFlow::Over => effects[k] is Finish,
        },
    decreases k,
{
    if k > 0 {
        undoing_remembers(
            session_name,
            uuid,
            repo,
            codespace,
            github_login,
            states,
            effects,
            events,
            k - 1,
        );
        assert(states[k - 1].leads_to(events[k - 1], states[k], effects[k]));
        assert(effects[k - 1] !is Finish);
    }
}

/// What the undoing of a creation asks for: to delete the Codespace; where that succeeds, to
/// delete the record of the session and its files; and where it fails, to find the record, and if
/// it is not that of the session, to store a removed session for the Codespace, under the same
/// name if that is unused and else under a free one made from it. The user is spared what fails
/// on the way.
pub proof fn creation_is_undone(
    session_name: String,
    uuid: String,
    repo: RepoInfo,
    codespace: String,
    github_login: String,
    states: Seq<CleanupFailedFlow>,
    effects: Seq<Effect>,
    events: Seq<Event>,
    k: int,
)
    requires
        is_run(states, effects, events),
        (states[0], effects[0]) == cleanup_failed_codespace_creation_begin(
            session_name,
            uuid,
            repo,
            codespace,
            github_login,
        ),
        0 <= k < effects.len(),
    ensures
        match effects[k] {
            Effect::DeleteCodespace { name, github_login: l } => k == 0 && name == codespace && l
                == github_login,
            Effect::DeleteRow { name, uuid: u } => k == 1 && events[0] == Event::Done && name
                == session_name && u == uuid,
            Effect::CleanupFiles { uuid: u } => k == 2 && u == uuid && effects[1] is DeleteRow,
            Effect::FindByName { name } => k == 1 && events[0] is Failed && name == session_name,
            Effect::FreeName { base } => {
                &&& k == 2 && base == (NameBase::Cleanup { session_name, uuid })
                &&& effects[1] is FindByName
                &&& events[1] matches Event::Row(Some(row)) && row.copilot_uuid@ != uuid@
            },
            Effect::Insert(
                NewSession::Recovery {
                    name,
                    uuid: u,
                    repo: r,
                    codespace_name,
                    github_login: l,
                },
            ) => {
                &&& u == uuid && r == repo && codespace_name == codespace && l == github_login
                &&& k == 2 && effects[1] is FindByName && events[1] == Event::Row(None) && name
                    == session_name || k == 3 && effects[2] is FreeName && events[2] == Event::Text(
                    name,
                )
            },
            Effect::Finish(Event::Done) => {
                ||| k == 3 && effects[2] is CleanupFiles
                ||| k > 0 && effects[k - 1] is Insert
                ||| k == 2 && effects[1] is FindByName && (events[1] matches Event::Row(Some(row))
                    && row.copilot_uuid@ == uuid@)
                ||| k > 1 && events[k - 1] is Failed && (effects[k - 1] is FindByName || effects[k
                    - 1] is FreeName)
            },
            Effect::Finish(Event::Failed(f)) => f == Failure::UnexpectedReply && misanswered(
                effects,
                events,
                k,
            ),
            _ => false,
        },
{
    undoing_remembers(
        session_name,
        uuid,
        repo,
        codespace,
        github_login,
        states,
        effects,
        events,
        k,
    );
    if k > 0 {
        undoing_remembers(
            session_name,
            uuid,
            repo,
            codespace,
            github_login,
            states,
            effects,
            events,
            k - 1,
        );
        assert(states[k - 1].leads_to(events[k - 1], states[k], effects[k]));
        assert(effects[k - 1] !is Finish);
    }
}

/// The user is told what became of a Codespace that could not be deleted, with the reason, and of
/// a record that could not be deleted after its Codespace was; and of nothing else.
pub proof fn undoing_tells_what_stays(
    session_name: String,
    uuid: String,
    repo: RepoInfo,
    codespace: String,
    github_login: String,
    states: Seq<CleanupFailedFlow>,
    effects: Seq<Effect>,
    events: Seq<Event>,
    k: int,
)
    requires
        is_run(states, effects, events),
        (states[0], effects[0]) == cleanup_failed_codespace_creation_begin(
            session_name,
            uuid,
            repo,
            codespace,
            github_login,
        ),
        0 <= k < events.len(),
    ensures
        ({
            let told = states[k].told(&events[k]);
            let plain = |topic: Topic| Remark {
                name: Some(&session_name),
                uuid: Some(&uuid),
                codespace: Some(&codespace),
                ..bare(topic)
            };
            let kept = |topic: Topic| Remark {
                delete_error: Some(&events[0]->Failed_0),
                ..plain(topic)
            };
            match (effects[k], events[k]) {
                (Effect::DeleteRow { .. }, Event::Failed(f)) => told == seq![
                    Remark { error: Some(&f), ..plain(Topic::RecordNotRemoved) },
                ],
                (Effect::FindByName { .. }, Event::Failed(f)) => told == seq![
                    Remark { error: Some(&f), ..kept(Topic::RecordNotInspected) },
                ],
                (Effect::FindByName { .. }, Event::Row(Some(row))) => told == (
                if row.copilot_uuid@ == uuid@ {
                    seq![kept(Topic::SessionKept)]
                } else {
                    Seq::empty()
                }),
                (Effect::FreeName { .. }, Event::Failed(f)) => told == seq![
                    Remark { error: Some(&f), ..kept(Topic::RecordNotReserved) },
                ],
                (Effect::Insert(_), Event::Failed(f)) => told == seq![
                    Remark { error: Some(&f), ..kept(Topic::RecordNotKept) },
                ],
                (Effect::Insert(NewSession::Recovery { name, .. }), _) => told == seq![
                    Remark { name: Some(&name), ..kept(Topic::RecordKept) },
                ],
                _ => told.len() == 0,
            }
        }),
{
    undoing_remembers(
        session_name,
        uuid,
        repo,
        codespace,
        github_login,
        states,
        effects,
        events,
        k,
    );
}

// ── Connecting ──────────────────────────────────────────────────────────────

/// The Codespace was seen in the state `state` before place `k`.
pub open spec fn seen_in(
    effects: Seq<Effect>,
    events: Seq<Event>,
    k: int,
    state: String,
) -> bool {
    exists|j: int|
        0 < j < k && #[trigger] effects[j] is CurrentState && events[j] == Event::Text(state)
}

/// What a connection knows while it looks after its session.
spec fn follows(
    session: Model,
    events: Seq<Event>,
    details: CodespaceDetails,
    uuid: String,
    success: bool,
    status: String,
) -> bool {
    &&& lives_in(session, details.name, details.workdir, details.github_login)
    &&& uuid == session.copilot_uuid
    &&& events[1] == (Event::Exit { success, status })
}

#[verifier::rlimit(30)]
proof fn connecting_remembers(
    session: Model,
    attach_only: bool,
    states: Seq<EnterCodespaceFlow>,
    effects: Seq<Effect>,
    events: Seq<Event>,
    k: int,
)
    requires
        is_run(states, effects, events),
        (states[0], effects[0]) == enter_codespace_zellij_begin(session, attach_only),
        0 <= k < effects.len(),
    ensures
        match states[k] {
            EnterCodespaceFlow::Connecting { session_name, details, uuid, attach_only: a } => k == 0
                && session_name == session.name && lives_in(
                session,
                details.name,
                details.workdir,
                details.github_login,
            ) && uuid == session.copilot_uuid && a == attach_only && effects[0] is SetCache,
            EnterCodespaceFlow::Connected { session_name, details, uuid, attach_only: a } => k == 1
                && session_name == session.name && lives_in(
                session,
                details.name,
                details.workdir,
                details.github_login,
            ) && uuid == session.copilot_uuid && a == attach_only && effects[k] is Connect,
            EnterCodespaceFlow::Uncache { failure } => k == 2 && effects[k] is SetCache && events[1]
                == Event::Failed(failure),
            EnterCodespaceFlow::Find { session_name, details, uuid, success, status } => k == 2
                && session_name == session.name && follows(
                session,
                events,
                details,
                uuid,
                success,
                status,
            ) && effects[k] == (Effect::FindByUuid { uuid }),
            EnterCodespaceFlow::Touch { details, uuid, success, status } => k == 3 && follows(
                session,
                events,
                details,
                uuid,
                success,
                status,
            ) && effects[k] is Update,
            EnterCodespaceFlow::State { details, uuid, success, status } => 3 <= k <= 4 && follows(
                session,
                events,
                details,
                uuid,
                success,
                status,
            ) && effects[k] is CurrentState,
            EnterCodespaceFlow::Remote { details, uuid, success, status, state } => 4 <= k <= 5
                && follows(session, events, details, uuid, success, status) && (effects[k]
                matches Effect::AskLauncher { mode, .. } && mode is State) && seen_in(
                effects,
                events,
                k,
                state,
            ),
            EnterCodespaceFlow::Ready { details, uuid, success, status, state } => 5 <= k <= 6
                && follows(session, events, details, uuid, success, status) && (effects[k]
                matches Effect::AskLauncher { mode, .. } && mode is Ready) && seen_in(
                effects,
                events,
                k,
                state,
            ),
            EnterCodespaceFlow::Settle { uuid, success, status } => k > 5 && effects[k] is SetCache
                && uuid == session.copilot_uuid && events[1] == (Event::Exit { success, status })
                && (effects[k - 1] matches Effect::AskLauncher { mode, .. } && mode is Ready),
            EnterCodespaceFlow::StopUnready => k > 5 && effects[k] is StopAndCache && (effects[k
                - 1] matches Effect::AskLauncher { mode, .. } && mode is Ready),
            EnterCodespaceFlow::Cleanup { details, uuid, success, status } => k > 4 && follows(
                session,
                events,
                details,
                uuid,
                success,
                status,
            ) && (effects[k] matches Effect::AskLauncher { mode, .. } && mode is Cleanup),
            EnterCodespaceFlow::StopExited { success, status } => k > 4 && effects[k]
                is StopAndCache && events[1] == (Event::Exit { success, status }) && (effects[k - 1]
                matches Effect::AskLauncher { mode, .. } && mode is Cleanup),
            EnterCodespaceFlow::StopMissing { success, status } => k > 4 && effects[k]
                is StopAndCache && events[1] == (Event::Exit { success, status }) && (effects[k - 1]
                matches Effect::AskLauncher { mode, .. } && mode is State),
            EnterCodespaceFlow::Store => k > 3 && effects[k] is SetCache && !(effects[k - 1]
                matches Effect::AskLauncher { mode, .. } && mode is Ready),
            EnterCodespaceFlow::Over => effects[k] is Finish,
        },
    decreases k,
{
    if k > 0 {
        connecting_remembers(session, attach_only, states, effects, events, k - 1);
        assert(states[k - 1].leads_to(events[k - 1], states[k], effects[k]));
        assert(effects[k - 1] !is Finish);
        if states[k] is Remote {
            assert(effects[k - 1] is CurrentState);
        }
        match states[k - 1] {
            EnterCodespaceFlow::Remote { state, .. } => {
                let j = choose|j: int|
                    0 < j < k - 1 && #[trigger] effects[j] is CurrentState && events[j]
                        == Event::Text(state);
                assert(effects[j] is CurrentState);
                assert(seen_in(effects, events, k, state));
            },
            _ => {},
        }
    }
}

/// What connecting to a Codespace session asks for: to store that it is being connected; the
/// connection itself, to the Codespace, workspace, UUID and account of the session, merely to
/// attach exactly if that was asked; to note the use of the session if it is still stored; the
/// state of the Codespace; and, unless it is shut down, the state of the remote session. A remote
/// session that runs with its layout is stored as running; one that runs without it, has exited
/// or is missing has the Codespace stopped. What is stored is what was just seen.
#[verifier::rlimit(30)]
pub proof fn connection_is_looked_after(
    session: Model,
    attach_only: bool,
    states: Seq<EnterCodespaceFlow>,
    effects: Seq<Effect>,
    events: Seq<Event>,
    k: int,
)
    requires
        is_run(states, effects, events),
        (states[0], effects[0]) == enter_codespace_zellij_begin(session, attach_only),
        0 <= k < effects.len(),
    ensures
        match effects[k] {
            Effect::SetCache { uuid, change } => {
                &&& uuid == session.copilot_uuid
                &&& change matches RowChange::Cache { state, zellij }
                &&& match state {
                    CacheWord::Available => {
                        ||| k == 0 && zellij is Connecting
                        ||| k == 2 && events[1] is Failed && zellij == (if attach_only {
                            RemoteZellijState::Running
                        } else {
                            RemoteZellijState::Missing
                        })
                    },
                    CacheWord::Shutdown => zellij is Missing && k > 3 && effects[k - 1]
                        is CurrentState && (events[k - 1] matches Event::Text(s) && is_shutdown(
                        s@,
                    )),
                    CacheWord::Observed(s) => seen_in(effects, events, k, s) && (zellij is LegacyTmux
                        && events[k - 1] == Event::Remote(RemoteZellijState::LegacyTmux) || zellij
                        is Running && events[k - 1] == Event::Flag(true) && events[k - 2]
                        == Event::Remote(RemoteZellijState::Running)),
                }
            },
            Effect::Connect { name, workdir, uuid, github_login, attach_only: a } => k == 1
                && lives_in(session, name, workdir, github_login) && uuid == session.copilot_uuid
                && a == attach_only && events[0] == Event::Done,
            Effect::FindByUuid { uuid } => k == 2 && uuid == session.copilot_uuid && events[1]
                is Exit,
            Effect::Update { row, change } => k == 3 && change == RowChange::Touch && events[2]
                == Event::Row(Some(row)),
            Effect::CurrentState { name, github_login } => {
                &&& session.codespace_name == Some(name)
                &&& session.github_login == Some(github_login)
                &&& k == 3 && events[2] == Event::Row(None) || k == 4 && effects[3] is Update
                    && events[3] == Event::Done
            },
            Effect::AskLauncher { name, uuid, github_login, mode } => {
                &&& k > 3
                &&& session.codespace_name == Some(name)
                &&& session.github_login == Some(github_login)
                &&& uuid == session.copilot_uuid
                &&& match mode {
                    LauncherMode::State => effects[k - 1] is CurrentState && (events[k - 1]
                        matches Event::Text(s) && !is_shutdown(s@)),
                    LauncherMode::Ready => events[k - 1] == Event::Remote(
                        RemoteZellijState::Running,
                    ),
                    LauncherMode::Cleanup => events[k - 1] == Event::Remote(
                        RemoteZellijState::Exited,
                    ),
                    LauncherMode::ClearReady => false,
                }
            },
            Effect::StopAndCache { name, github_login, uuid } => {
                &&& k > 4
                &&& session.codespace_name == Some(name)
                &&& session.github_login == Some(github_login)
                &&& uuid == session.copilot_uuid
                &&& effects[k - 1] matches Effect::AskLauncher { mode, .. }
                &&& match mode {
                    LauncherMode::State => events[k - 1] == Event::Remote(
                        RemoteZellijState::Missing,
                    ),
                    LauncherMode::Ready => events[k - 1] == Event::Flag(false),
                    LauncherMode::Cleanup => true,
                    LauncherMode::ClearReady => false,
                }
            },
            Effect::Finish(Event::Done) => {
                &&& k > 3 && events[k - 1] == Event::Done
                &&& effects[k - 1] is SetCache || effects[k - 1] is StopAndCache && (events[1]
                    matches Event::Exit { success, .. } && success) && (effects[k - 2]
                    matches Effect::AskLauncher { mode, .. } && mode !is Ready)
            },
            Effect::Finish(Event::Failed(f)) => {
                ||| k == 0 && (details_of(session) matches Err(g) && g == f)
                ||| k != 2 && just_failed(events, k, f) && match effects[k - 1] {
                    Effect::StopAndCache { .. } => effects[k - 2] matches Effect::AskLauncher {
                        mode,
                        ..
                    } && mode !is Ready,
                    Effect::AskLauncher { mode, .. } => mode !is Cleanup,
                    _ => true,
                }
                ||| f == Failure::UnexpectedReply && misanswered(effects, events, k)
                ||| k == 3 && effects[2] is SetCache && events[1] == Event::Failed(f) && events[2]
                    == Event::Done
                ||| k > 4 && f == Failure::ConnectingState && events[k - 1] == Event::Remote(
                    RemoteZellijState::Connecting,
                )
                ||| k > 5 && f == Failure::LayoutMissing && effects[k - 1] is StopAndCache && (
                effects[k - 2] matches Effect::AskLauncher { mode, .. } && mode is Ready)
                ||| k > 5 && effects[k - 1] is StopAndCache && events[k - 1] == Event::Done && (
                events[1] matches Event::Exit { success, status } && !success && (effects[k - 2]
                    matches Effect::AskLauncher { mode, .. } && match mode {
                    LauncherMode::Cleanup => f == (Failure::SshAfterExit { status }),
                    LauncherMode::State => f == (Failure::SshMissing { status }),
                    _ => false,
                }))
            },
            _ => false,
        },
{
    connecting_remembers(session, attach_only, states, effects, events, k);
    if k > 0 {
        connecting_remembers(session, attach_only, states, effects, events, k - 1);
        assert(states[k - 1].leads_to(events[k - 1], states[k], effects[k]));
        assert(effects[k - 1] !is Finish);
        match states[k - 1] {
            EnterCodespaceFlow::Remote { state, .. } | EnterCodespaceFlow::Ready { state, .. } => {
                let j = choose|j: int|
                    0 < j < k - 1 && #[trigger] effects[j] is CurrentState && events[j]
                        == Event::Text(state);
                assert(effects[j] is CurrentState);
                assert(seen_in(effects, events, k, state));
            },
            _ => {},
        }
    }
    if k > 1 {
        connecting_remembers(session, attach_only, states, effects, events, k - 2);
        assert(states[k - 2].leads_to(events[k - 2], states[k - 1], effects[k - 1]));
        assert(effects[k - 2] !is Finish);
    }
}

/// The user is told, after a connection, that the session is no longer stored; that the Codespace
/// is stopped because its remote session has exited or is gone; and that the connection broke
/// while the remote session runs, with its exit status. Nothing else is said.
#[verifier::rlimit(30)]
pub proof fn connection_tells_how_it_ended(
    session: Model,
    attach_only: bool,
    states: Seq<EnterCodespaceFlow>,
    effects: Seq<Effect>,
    events: Seq<Event>,
    k: int,
)
    requires
        is_run(states, effects, events),
        (states[0], effects[0]) == enter_codespace_zellij_begin(session, attach_only),
        0 <= k < events.len(),
    ensures
        ({
            let told = states[k].told(&events[k]);
            let plain = |topic: Topic| Remark {
                uuid: Some(&session.copilot_uuid),
                codespace: Some(&session.codespace_name->0),
                ..bare(topic)
            };
            match (effects[k], events[k]) {
                (Effect::FindByUuid { .. }, Event::Row(None)) => told == seq![
                    Remark { name: Some(&session.name), ..plain(Topic::MissingAfterExit) },
                ],
                (Effect::AskLauncher { mode: LauncherMode::Cleanup, .. }, _) => told == seq![
                    plain(Topic::StoppingExited),
                ],
                (
                    Effect::AskLauncher { mode: LauncherMode::State, .. },
                    Event::Remote(RemoteZellijState::Missing),
                ) => told == seq![plain(Topic::StoppingClosed)],
                (Effect::SetCache { .. }, Event::Done) => told == (if k > 1 && (effects[k - 1]
                    matches Effect::AskLauncher { mode, .. } && mode is Ready) && (events[1]
                    matches Event::Exit { success, .. } && !success) {
                    seq![
                        Remark {
                            uuid: Some(&session.copilot_uuid),
                            detail: Some(&events[1]->Exit_status),
                            ..bare(Topic::SshExited)
                        },
                    ]
                } else {
                    Seq::empty()
                }),
                _ => told.len() == 0,
            }
        }),
{
    connecting_remembers(session, attach_only, states, effects, events, k);
}

} // verus!
