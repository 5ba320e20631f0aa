//! `attach`: attach to a running session.

use vstd::prelude::*;

use crate::codespace::operations::{is_shutdown, shut_down};
use crate::codespace::RemoteZellijState;
use crate::commands::local::{session_runs, zellij_runs};
use crate::commands::{
    codespace_details, details_of, CodespaceDetails, RowChange, BACKEND_CODESPACE, BACKEND_LOCAL,
    STATUS_REMOVED,
};
use crate::entity::session::Model;
use crate::failure::Failure;
use crate::flow::{fail, failing, Effect, Event, Flow};
use crate::gh::LauncherMode;
use crate::remark::{one, remark, Narrated, Remark, Topic};
use crate::text::same;
use crate::zellij::LocalCommand;

verus! {

/// Attaching to a running session, local or in a Codespace.
#[derive(Debug)]
pub enum AttachFlow {
    Resolve,
    Query { session: Model },
    Touch { name: String, uuid: String },
    Local,
    State { session: Model, details: CodespaceDetails },
    SetUp { session: Model, details: CodespaceDetails },
    Remote { session: Model },
    Enter,
    Over,
}

/// How it begins.
pub open spec fn attach_begin(name: String) -> (AttachFlow, Effect) {
    (AttachFlow::Resolve, Effect::Resolve { query: name })
}

/// Attach to a running session.
pub fn attach(name: String) -> (r: (AttachFlow, Effect))
    ensures
        r == attach_begin(name),
{
    (AttachFlow::Resolve, Effect::Resolve { query: name })
}

impl AttachFlow {
    /// What comes after `event`.
    pub open spec fn step(self, event: Event) -> (AttachFlow, Effect) {
        match (self, event) {
            (AttachFlow::Resolve, Event::Row(Some(session))) => {
                if session.status@ == STATUS_REMOVED@ {
                    (AttachFlow::Over, fail(Failure::Removed { name: session.name }))
                } else if session.backend@ == BACKEND_LOCAL@ {
                    (AttachFlow::Query { session }, Effect::QueryZellij)
                } else if session.backend@ == BACKEND_CODESPACE@ {
                    match details_of(session) {
                        Err(f) => (AttachFlow::Over, fail(f)),
                        Ok(details) => {
                            let name = details.name;
                            let github_login = details.github_login;
                            (
                                AttachFlow::State { session, details },
                                Effect::CurrentState { name, github_login },
                            )
                        },
                    }
                } else {
                    (
                        AttachFlow::Over,
                        fail(Failure::UnknownBackend { name: session.name, backend: session.backend }),
                    )
                }
            },
            (AttachFlow::Query { session }, Event::Zellij(sessions)) => {
                if zellij_runs(sessions@, session.copilot_uuid@) {
                    (
                        AttachFlow::Touch { name: session.name, uuid: session.copilot_uuid },
                        Effect::Update { row: session, change: RowChange::Touch },
                    )
                } else {
                    (AttachFlow::Over, fail(Failure::NotRunning { name: session.name }))
                }
            },
            (AttachFlow::Touch { name, uuid }, Event::Done) => (
                AttachFlow::Local,
                Effect::EnterLocal {
                    session_name: name,
                    uuid,
                    command: LocalCommand::Attach { uuid },
                },
            ),
            (AttachFlow::Local, Event::Done) => (AttachFlow::Over, Effect::Finish(Event::Done)),
            (AttachFlow::State { session, details }, Event::Text(state)) => {
                if is_shutdown(state@) {
                    (AttachFlow::Over, fail(Failure::Stopped { name: session.name }))
                } else {
                    let name = details.name;
                    let workdir = details.workdir;
                    let uuid = session.copilot_uuid;
                    let github_login = details.github_login;
                    (
                        AttachFlow::SetUp { session, details },
                        Effect::SetUp { name, workdir, uuid, resume: true, github_login },
                    )
                }
            },
            (AttachFlow::SetUp { session, details }, Event::Setup(outcome)) => {
                let uuid = session.copilot_uuid;
                (
                    AttachFlow::Remote { session },
                    Effect::AskLauncher {
                        name: details.name,
                        uuid,
                        github_login: details.github_login,
                        mode: LauncherMode::State,
                    },
                )
            },
            (AttachFlow::Remote { session }, Event::Remote(RemoteZellijState::Running)) => (
                AttachFlow::Enter,
                Effect::EnterCodespace { session, attach_only: true },
            ),
            (AttachFlow::Remote { session }, Event::Remote(state)) => (
                AttachFlow::Over,
                fail(Failure::NotRunning { name: session.name }),
            ),
            (AttachFlow::Enter, Event::Done) => (AttachFlow::Over, Effect::Finish(Event::Done)),
            (_, Event::Failed(f)) => (AttachFlow::Over, fail(f)),
            _ => (AttachFlow::Over, fail(Failure::UnexpectedReply)),
        }
    }
}

impl Flow for AttachFlow {
    open spec fn leads_to(self, event: Event, next: Self, effect: Effect) -> bool {
        (next, effect) == self.step(event)
    }

    fn next(self, event: Event) -> (r: (Self, Effect)) {
        match (self, event) {
            (AttachFlow::Resolve, Event::Row(Some(session))) => {
                if same(&session.status, STATUS_REMOVED) {
                    (AttachFlow::Over, failing(Failure::Removed { name: session.name }))
                } else if same(&session.backend, BACKEND_LOCAL) {
                    (AttachFlow::Query { session }, Effect::QueryZellij)
                } else if same(&session.backend, BACKEND_CODESPACE) {
                    match codespace_details(&session) {
                        Err(f) => (AttachFlow::Over, failing(f)),
                        Ok(details) => {
                            let name = details.name.clone();
                            let github_login = details.github_login.clone();
                            (
                                AttachFlow::State { session, details },
                                Effect::CurrentState { name, github_login },
                            )
                        },
                    }
                } else {
                    (
                        AttachFlow::Over,
                        failing(Failure::UnknownBackend { name: session.name, backend: session.backend }),
                    )
                }
            },
            (AttachFlow::Query { session }, Event::Zellij(sessions)) => {
                if session_runs(&sessions, &session.copilot_uuid) {
                    (
                        AttachFlow::Touch {
                            name: session.name.clone(),
                            uuid: session.copilot_uuid.clone(),
                        },
                        Effect::Update { row: session, change: RowChange::Touch },
                    )
                } else {
                    (AttachFlow::Over, failing(Failure::NotRunning { name: session.name }))
                }
            },
            (AttachFlow::Touch { name, uuid }, Event::Done) => (
                AttachFlow::Local,
                Effect::EnterLocal {
                    session_name: name,
                    uuid: uuid.clone(),
                    command: LocalCommand::Attach { uuid },
                },
            ),
            (AttachFlow::Local, Event::Done) => (AttachFlow::Over, Effect::Finish(Event::Done)),
            (AttachFlow::State { session, details }, Event::Text(state)) => {
                if shut_down(&state) {
                    (AttachFlow::Over, failing(Failure::Stopped { name: session.name }))
                } else {
                    let name = details.name.clone();
                    let workdir = details.workdir.clone();
                    let uuid = session.copilot_uuid.clone();
                    let github_login = details.github_login.clone();
                    (
                        AttachFlow::SetUp { session, details },
                        Effect::SetUp { name, workdir, uuid, resume: true, github_login },
                    )
                }
            },
            (AttachFlow::SetUp { session, details }, Event::Setup(outcome)) => {
                let uuid = session.copilot_uuid.clone();
                (
                    AttachFlow::Remote { session },
                    Effect::AskLauncher {
                        name: details.name,
                        uuid,
                        github_login: details.github_login,
                        mode: LauncherMode::State,
                    },
                )
            },
            (AttachFlow::Remote { session }, Event::Remote(RemoteZellijState::Running)) => (
                AttachFlow::Enter,
                Effect::EnterCodespace { session, attach_only: true },
            ),
            (AttachFlow::Remote { session }, Event::Remote(state)) => (
                AttachFlow::Over,
                failing(Failure::NotRunning { name: session.name }),
            ),
            (AttachFlow::Enter, Event::Done) => (AttachFlow::Over, Effect::Finish(Event::Done)),
            (_, Event::Failed(f)) => (AttachFlow::Over, failing(f)),
            _ => (AttachFlow::Over, failing(Failure::UnexpectedReply)),
        }
    }
}

impl Narrated for AttachFlow {
    open spec fn told<'a>(&'a self, event: &'a Event) -> Seq<Remark<'a>> {
        match (self, event) {
            (AttachFlow::Touch { name, uuid }, Event::Done) => seq![
                Remark { name: Some(name), uuid: Some(uuid), ..remark(Topic::Attaching) },
            ],
            (AttachFlow::Remote { session }, Event::Remote(RemoteZellijState::Running)) => seq![
                Remark {
                    name: Some(&session.name),
                    uuid: Some(&session.copilot_uuid),
                    codespace: match &session.codespace_name {
                        Some(codespace) => Some(codespace),
                        None => None,
                    },
                    ..remark(Topic::AttachingRemote)
                },
            ],
            _ => Seq::empty(),
        }
    }

    fn remarks<'a>(&'a self, event: &'a Event) -> (r: Vec<Remark<'a>>) {
        match (self, event) {
            (AttachFlow::Touch { name, uuid }, Event::Done) => one(
                Remark { name: Some(name), uuid: Some(uuid), ..remark(Topic::Attaching) },
            ),
            (AttachFlow::Remote { session }, Event::Remote(RemoteZellijState::Running)) => one(
                Remark {
                    name: Some(&session.name),
                    uuid: Some(&session.copilot_uuid),
                    codespace: match &session.codespace_name {
                        Some(codespace) => Some(codespace),
                        None => None,
                    },
                    ..remark(Topic::AttachingRemote)
                },
            ),
            _ => Vec::new(),
        }
    }
}

} // verus!
