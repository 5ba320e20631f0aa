//! `start`: start a stopped session.

use vstd::prelude::*;

use crate::codespace::operations::{is_shutdown, shut_down};
use crate::codespace::RemoteZellijState;
use crate::commands::local::{session_listed, session_runs, zellij_listed, zellij_runs};
use crate::commands::{
    codespace_details, details_of, CacheWord, CodespaceDetails, RowChange, BACKEND_CODESPACE,
    BACKEND_LOCAL, STATUS_REMOVED,
};
use crate::entity::session::Model;
use crate::failure::Failure;
use crate::flow::{fail, failing, Effect, Event, Flow};
use crate::gh::LauncherMode;
use crate::git::Dir;
use crate::remark::{one, remark, Narrated, Remark, Topic};
use crate::text::same;

verus! {

/// Starting a stopped session. A local session must not run already; what is left of an exited
/// one is cleared away. A Codespace session is prepared first, which also starts its Codespace;
/// if anything fails before it is connected, a Codespace that was shut down is stopped again.
#[derive(Debug)]
pub enum StartFlow {
    Resolve,
    Query { session: Model },
    Cleanup { session: Model },
    Touch { name: String, uuid: String, dir: Dir },
    IsGit { name: String, uuid: String, dir: Dir },
    Local,
    State { session: Model, details: CodespaceDetails },
    SetUp { session: Model, details: CodespaceDetails, initial: String },
    Remote { session: Model, details: CodespaceDetails, initial: String },
    Running { name: String },
    Use { session: Model, details: CodespaceDetails, initial: String },
    Enter { details: CodespaceDetails, name: String, uuid: String },
    Stop { failure: Failure, topic: Topic, name: String, uuid: String, codespace: String },
    Over,
}

/// How it begins.
pub open spec fn start_begin(name: String) -> (StartFlow, Effect) {
    (StartFlow::Resolve, Effect::Resolve { query: name })
}

/// Start a stopped session.
pub fn start(name: String) -> (r: (StartFlow, Effect))
    ensures
        r == start_begin(name),
{
    (StartFlow::Resolve, Effect::Resolve { query: name })
}

impl StartFlow {
    /// What comes after `event`.
    pub open spec fn step(self, event: Event) -> (StartFlow, Effect) {
        match (self, event) {
            (StartFlow::Resolve, Event::Row(Some(session))) => {
                if session.status@ == STATUS_REMOVED@ {
                    (StartFlow::Over, fail(Failure::Removed { name: session.name }))
                } else if session.backend@ == BACKEND_LOCAL@ {
                    (StartFlow::Query { session }, Effect::QueryZellij)
                } else if session.backend@ == BACKEND_CODESPACE@ {
                    match details_of(session) {
                        Err(f) => (StartFlow::Over, fail(f)),
                        Ok(details) => {
                            let name = details.name;
                            let github_login = details.github_login;
                            (
                                StartFlow::State { session, details },
                                Effect::CurrentState { name, github_login },
                            )
                        },
                    }
                } else {
                    (
                        StartFlow::Over,
                        fail(Failure::UnknownBackend { name: session.name, backend: session.backend }),
                    )
                }
            },
            (StartFlow::Query { session }, Event::Zellij(sessions)) => {
                if zellij_runs(sessions@, session.copilot_uuid@) {
                    (StartFlow::Over, fail(Failure::AlreadyRunning { name: session.name }))
                } else if zellij_listed(sessions@, session.copilot_uuid@) {
                    let uuid = session.copilot_uuid;
                    (StartFlow::Cleanup { session }, Effect::CleanupZellij { uuid })
                } else {
                    (
                        StartFlow::Touch {
                            name: session.name,
                            uuid: session.copilot_uuid,
                            dir: Dir::At(session.worktree_path),
                        },
                        Effect::Update { row: session, change: RowChange::Touch },
                    )
                }
            },
            (StartFlow::Cleanup { session }, _) => (
                StartFlow::Touch {
                    name: session.name,
                    uuid: session.copilot_uuid,
                    dir: Dir::At(session.worktree_path),
                },
                Effect::Update { row: session, change: RowChange::Touch },
            ),
            (StartFlow::Touch { name, uuid, dir }, Event::Done) => (
                StartFlow::IsGit { name, uuid, dir },
                Effect::IsGitRepo { dir },
            ),
            (StartFlow::IsGit { name, uuid, dir }, Event::Flag(include_git)) => (
                StartFlow::Local,
                Effect::StartLocal {
                    session_name: name,
                    uuid,
                    dir,
                    resume: true,
                    include_git,
                },
            ),
            (StartFlow::Local, Event::Done) => (StartFlow::Over, Effect::Finish(Event::Done)),
            (StartFlow::State { session, details }, Event::Text(initial)) => {
                let name = details.name;
                let workdir = details.workdir;
                let uuid = session.copilot_uuid;
                let github_login = details.github_login;
                (
                    StartFlow::SetUp { session, details, initial },
                    Effect::SetUp { name, workdir, uuid, resume: true, github_login },
                )
            },
            (StartFlow::SetUp { session, details, initial }, Event::Setup(outcome)) => {
                let name = details.name;
                let uuid = session.copilot_uuid;
                let github_login = details.github_login;
                (
                    StartFlow::Remote { session, details, initial },
                    Effect::AskLauncher { name, uuid, github_login, mode: LauncherMode::State },
                )
            },
            (StartFlow::SetUp { session, details, initial }, Event::Failed(failure)) => {
                if is_shutdown(initial@) {
                    (
                        StartFlow::Stop {
                            failure,
                            topic: Topic::StopAfterSetup,
                            name: session.name,
                            uuid: session.copilot_uuid,
                            codespace: details.name,
                        },
                        Effect::StopAndCache {
                            name: details.name,
                            github_login: details.github_login,
                            uuid: session.copilot_uuid,
                        },
                    )
                } else {
                    (StartFlow::Over, fail(failure))
                }
            },
            (
                StartFlow::Remote { session, details, initial },
                Event::Remote(RemoteZellijState::Running),
            ) => (
                StartFlow::Running { name: session.name },
                Effect::SetCache {
                    uuid: session.copilot_uuid,
                    change: RowChange::Cache {
                        state: CacheWord::Available,
                        zellij: RemoteZellijState::Running,
                    },
                },
            ),
            (StartFlow::Remote { session, details, initial }, Event::Remote(state)) => (
                StartFlow::Use { session, details, initial },
                Effect::Update { row: session, change: RowChange::Touch },
            ),
            (StartFlow::Remote { session, details, initial }, Event::Failed(failure)) => {
                if is_shutdown(initial@) {
                    (
                        StartFlow::Stop {
                            failure,
                            topic: Topic::StopAfterStateCheck,
                            name: session.name,
                            uuid: session.copilot_uuid,
                            codespace: details.name,
                        },
                        Effect::StopAndCache {
                            name: details.name,
                            github_login: details.github_login,
                            uuid: session.copilot_uuid,
                        },
                    )
                } else {
                    (StartFlow::Over, fail(failure))
                }
            },
            (StartFlow::Running { name }, Event::Done) => (
                StartFlow::Over,
                fail(Failure::AlreadyRunning { name }),
            ),
            (StartFlow::Use { session, details, initial }, Event::Done) => (
                StartFlow::Enter {
                    details,
                    name: session.name,
                    uuid: session.copilot_uuid,
                },
                Effect::EnterCodespace { session, attach_only: false },
            ),
            (StartFlow::Use { session, details, initial }, Event::Failed(failure)) => {
                if is_shutdown(initial@) {
                    (
                        StartFlow::Stop {
                            failure,
                            topic: Topic::StopAfterUpdate,
                            name: session.name,
                            uuid: session.copilot_uuid,
                            codespace: details.name,
                        },
                        Effect::StopAndCache {
                            name: details.name,
                            github_login: details.github_login,
                            uuid: session.copilot_uuid,
                        },
                    )
                } else {
                    (StartFlow::Over, fail(failure))
                }
            },
            (StartFlow::Enter { details, name, uuid }, Event::Done) => (
                StartFlow::Over,
                Effect::Finish(Event::Done),
            ),
            (StartFlow::Enter { details, name, uuid }, Event::Failed(failure)) => (
                StartFlow::Stop {
                    failure,
                    topic: Topic::StopAfterStart,
                    name,
                    uuid,
                    codespace: details.name,
                },
                Effect::StopAndCache {
                    name: details.name,
                    github_login: details.github_login,
                    uuid,
                },
            ),
            (StartFlow::Stop { failure, .. }, _) => (StartFlow::Over, fail(failure)),
            (_, Event::Failed(f)) => (StartFlow::Over, fail(f)),
            _ => (StartFlow::Over, fail(Failure::UnexpectedReply)),
        }
    }
}

impl Flow for StartFlow {
    open spec fn leads_to(self, event: Event, next: Self, effect: Effect) -> bool {
        (next, effect) == self.step(event)
    }

    fn next(self, event: Event) -> (r: (Self, Effect)) {
        match (self, event) {
            (StartFlow::Resolve, Event::Row(Some(session))) => {
                if same(&session.status, STATUS_REMOVED) {
                    (StartFlow::Over, failing(Failure::Removed { name: session.name }))
                } else if same(&session.backend, BACKEND_LOCAL) {
                    (StartFlow::Query { session }, Effect::QueryZellij)
                } else if same(&session.backend, BACKEND_CODESPACE) {
                    match codespace_details(&session) {
                        Err(f) => (StartFlow::Over, failing(f)),
                        Ok(details) => {
                            let name = details.name.clone();
                            let github_login = details.github_login.clone();
                            (
                                StartFlow::State { session, details },
                                Effect::CurrentState { name, github_login },
                            )
                        },
                    }
                } else {
                    (
                        StartFlow::Over,
                        failing(Failure::UnknownBackend { name: session.name, backend: session.backend }),
                    )
                }
            },
            (StartFlow::Query { session }, Event::Zellij(sessions)) => {
                if session_runs(&sessions, &session.copilot_uuid) {
                    (StartFlow::Over, failing(Failure::AlreadyRunning { name: session.name }))
                } else if session_listed(&sessions, &session.copilot_uuid) {
                    let uuid = session.copilot_uuid.clone();
                    (StartFlow::Cleanup { session }, Effect::CleanupZellij { uuid })
                } else {
                    (
                        StartFlow::Touch {
                            name: session.name.clone(),
                            uuid: session.copilot_uuid.clone(),
                            dir: Dir::At(session.worktree_path.clone()),
                        },
                        Effect::Update { row: session, change: RowChange::Touch },
                    )
                }
            },
            (StartFlow::Cleanup { session }, _) => (
                StartFlow::Touch {
                    name: session.name.clone(),
                    uuid: session.copilot_uuid.clone(),
                    dir: Dir::At(session.worktree_path.clone()),
                },
                Effect::Update { row: session, change: RowChange::Touch },
            ),
            (StartFlow::Touch { name, uuid, dir }, Event::Done) => (
                StartFlow::IsGit { name, uuid, dir: dir.clone() },
                Effect::IsGitRepo { dir },
            ),
            (StartFlow::IsGit { name, uuid, dir }, Event::Flag(include_git)) => (
                StartFlow::Local,
                Effect::StartLocal {
                    session_name: name,
                    uuid,
                    dir,
                    resume: true,
                    include_git,
                },
            ),
            (StartFlow::Local, Event::Done) => (StartFlow::Over, Effect::Finish(Event::Done)),
            (StartFlow::State { session, details }, Event::Text(initial)) => {
                let name = details.name.clone();
                let workdir = details.workdir.clone();
                let uuid = session.copilot_uuid.clone();
                let github_login = details.github_login.clone();
                (
                    StartFlow::SetUp { session, details, initial },
                    Effect::SetUp { name, workdir, uuid, resume: true, github_login },
                )
            },
            (StartFlow::SetUp { session, details, initial }, Event::Setup(outcome)) => {
                let name = details.name.clone();
                let uuid = session.copilot_uuid.clone();
                let github_login = details.github_login.clone();
                (
                    StartFlow::Remote { session, details, initial },
                    Effect::AskLauncher { name, uuid, github_login, mode: LauncherMode::State },
                )
            },
            (StartFlow::SetUp { session, details, initial }, Event::Failed(failure)) => {
                if shut_down(&initial) {
                    (
                        StartFlow::Stop {
                            failure,
                            topic: Topic::StopAfterSetup,
                            name: session.name,
                            uuid: session.copilot_uuid.clone(),
                            codespace: details.name.clone(),
                        },
                        Effect::StopAndCache {
                            name: details.name,
                            github_login: details.github_login,
                            uuid: session.copilot_uuid,
                        },
                    )
                } else {
                    (StartFlow::Over, failing(failure))
                }
            },
            (
                StartFlow::Remote { session, details, initial },
                Event::Remote(RemoteZellijState::Running),
            ) => (
                StartFlow::Running { name: session.name },
                Effect::SetCache {
                    uuid: session.copilot_uuid,
                    change: RowChange::Cache {
                        state: CacheWord::Available,
                        zellij: RemoteZellijState::Running,
                    },
                },
            ),
            (StartFlow::Remote { session, details, initial }, Event::Remote(state)) => (
                StartFlow::Use { session: session.clone(), details, initial },
                Effect::Update { row: session, change: RowChange::Touch },
            ),
            (StartFlow::Remote { session, details, initial }, Event::Failed(failure)) => {
                if shut_down(&initial) {
                    (
                        StartFlow::Stop {
                            failure,
                            topic: Topic::StopAfterStateCheck,
                            name: session.name,
                            uuid: session.copilot_uuid.clone(),
                            codespace: details.name.clone(),
                        },
                        Effect::StopAndCache {
                            name: details.name,
                            github_login: details.github_login,
                            uuid: session.copilot_uuid,
                        },
                    )
                } else {
                    (StartFlow::Over, failing(failure))
                }
            },
            (StartFlow::Running { name }, Event::Done) => (
                StartFlow::Over,
                failing(Failure::AlreadyRunning { name }),
            ),
            (StartFlow::Use { session, details, initial }, Event::Done) => (
                StartFlow::Enter {
                    details,
                    name: session.name.clone(),
                    uuid: session.copilot_uuid.clone(),
                },
                Effect::EnterCodespace { session, attach_only: false },
            ),
            (StartFlow::Use { session, details, initial }, Event::Failed(failure)) => {
                if shut_down(&initial) {
                    (
                        StartFlow::Stop {
                            failure,
                            topic: Topic::StopAfterUpdate,
                            name: session.name,
                            uuid: session.copilot_uuid.clone(),
                            codespace: details.name.clone(),
                        },
                        Effect::StopAndCache {
                            name: details.name,
                            github_login: details.github_login,
                            uuid: session.copilot_uuid,
                        },
                    )
                } else {
                    (StartFlow::Over, failing(failure))
                }
            },
            (StartFlow::Enter { details, name, uuid }, Event::Done) => (
                StartFlow::Over,
                Effect::Finish(Event::Done),
            ),
            (StartFlow::Enter { details, name, uuid }, Event::Failed(failure)) => (
                StartFlow::Stop {
                    failure,
                    topic: Topic::StopAfterStart,
                    name,
                    uuid: uuid.clone(),
                    codespace: details.name.clone(),
                },
                Effect::StopAndCache {
                    name: details.name,
                    github_login: details.github_login,
                    uuid,
                },
            ),
            (StartFlow::Stop { failure, .. }, _) => (StartFlow::Over, failing(failure)),
            (_, Event::Failed(f)) => (StartFlow::Over, failing(f)),
            _ => (StartFlow::Over, failing(Failure::UnexpectedReply)),
        }
    }
}

impl Narrated for StartFlow {
    open spec fn told<'a>(&'a self, event: &'a Event) -> Seq<Remark<'a>> {
        match (self, event) {
            (StartFlow::Touch { name, uuid, .. }, Event::Done) => seq![
                Remark { name: Some(name), uuid: Some(uuid), ..remark(Topic::Starting) },
            ],
            (StartFlow::Use { session, details, .. }, Event::Done) => seq![
                Remark {
                    name: Some(&session.name),
                    uuid: Some(&session.copilot_uuid),
                    codespace: Some(&details.name),
                    ..remark(Topic::StartingRemote)
                },
            ],
            (StartFlow::Stop { topic, name, uuid, codespace, .. }, Event::Failed(f)) => seq![
                Remark {
                    name: Some(name),
                    uuid: Some(uuid),
                    codespace: Some(codespace),
                    error: Some(f),
                    ..remark(*topic)
                },
            ],
            _ => Seq::empty(),
        }
    }

    fn remarks<'a>(&'a self, event: &'a Event) -> (r: Vec<Remark<'a>>) {
        match (self, event) {
            (StartFlow::Touch { name, uuid, .. }, Event::Done) => one(
                Remark { name: Some(name), uuid: Some(uuid), ..remark(Topic::Starting) },
            ),
            (StartFlow::Use { session, details, .. }, Event::Done) => one(
                Remark {
                    name: Some(&session.name),
                    uuid: Some(&session.copilot_uuid),
                    codespace: Some(&details.name),
                    ..remark(Topic::StartingRemote)
                },
            ),
            (StartFlow::Stop { topic, name, uuid, codespace, .. }, Event::Failed(f)) => one(
                Remark {
                    name: Some(name),
                    uuid: Some(uuid),
                    codespace: Some(codespace),
                    error: Some(f),
                    ..remark(*topic)
                },
            ),
            _ => Vec::new(),
        }
    }
}

} // verus!
