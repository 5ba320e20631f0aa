//! Codespace sessions: creating them, connecting to them, and undoing a failed creation.

use vstd::prelude::*;

use crate::codespace::operations::{is_shutdown, shut_down};
use crate::codespace::{check_workdir, workdir_failure, RemoteSetup, RemoteZellijState, RepoInfo};
use crate::commands::{
    codespace_details, details_of, CacheWord, CodespaceDetails, NameBase, NewSession, RowChange,
};
use crate::entity::session::Model;
use crate::failure::Failure;
use crate::flow::{fail, failing, Effect, Event, Flow};
use crate::gh::{GhCall, LauncherMode};
use crate::remark::{both, one, remark, Narrated, Remark, Topic};
use crate::text::same;

verus! {

/// Connecting to the remote session of a Codespace, and looking after it when the connection
/// ends. A session that still runs is left running; where it exited or is missing, the
/// Codespace is stopped to avoid continued billing. A session that runs under tmux keeps
/// running too.
#[derive(Debug)]
pub enum EnterCodespaceFlow {
    Connecting {
        session_name: String,
        details: CodespaceDetails,
        uuid: String,
        attach_only: bool,
    },
    Connected {
        session_name: String,
        details: CodespaceDetails,
        uuid: String,
        attach_only: bool,
    },
    Uncache { failure: Failure },
    Find {
        session_name: String,
        details: CodespaceDetails,
        uuid: String,
        success: bool,
        status: String,
    },
    Touch { details: CodespaceDetails, uuid: String, success: bool, status: String },
    State { details: CodespaceDetails, uuid: String, success: bool, status: String },
    Remote {
        details: CodespaceDetails,
        uuid: String,
        success: bool,
        status: String,
        state: String,
    },
    Ready {
        details: CodespaceDetails,
        uuid: String,
        success: bool,
        status: String,
        state: String,
    },
    Settle { uuid: String, success: bool, status: String },
    StopUnready,
    Cleanup { details: CodespaceDetails, uuid: String, success: bool, status: String },
    StopExited { success: bool, status: String },
    StopMissing { success: bool, status: String },
    Store,
    Over,
}

/// How it begins.
pub open spec fn enter_codespace_zellij_begin(
    session: Model,
    attach_only: bool,
) -> (EnterCodespaceFlow, Effect) {
    match details_of(session) {
        Err(f) => (EnterCodespaceFlow::Over, fail(f)),
        Ok(details) => (
            EnterCodespaceFlow::Connecting {
                session_name: session.name,
                details,
                uuid: session.copilot_uuid,
                attach_only,
            },
            Effect::SetCache {
                uuid: session.copilot_uuid,
                change: RowChange::Cache {
                    state: CacheWord::Available,
                    zellij: RemoteZellijState::Connecting,
                },
            },
        ),
    }
}

/// Connect to the remote session of a Codespace.
pub fn enter_codespace_zellij(
    session: Model,
    attach_only: bool,
) -> (r: (EnterCodespaceFlow, Effect))
    ensures
        r == enter_codespace_zellij_begin(session, attach_only),
{
    match codespace_details(&session) {
        Err(f) => (EnterCodespaceFlow::Over, failing(f)),
        Ok(details) => (
            EnterCodespaceFlow::Connecting {
                session_name: session.name.clone(),
                details,
                uuid: session.copilot_uuid.clone(),
                attach_only,
            },
            Effect::SetCache {
                uuid: session.copilot_uuid,
                change: RowChange::Cache {
                    state: CacheWord::Available,
                    zellij: RemoteZellijState::Connecting,
                },
            },
        ),
    }
}

impl EnterCodespaceFlow {
    /// What comes after `event`.
    pub open spec fn step(self, event: Event) -> (EnterCodespaceFlow, Effect) {
        match (self, event) {
            (
                EnterCodespaceFlow::Connecting { session_name, details, uuid, attach_only },
                Event::Done,
            ) => {
                let name = details.name;
                let workdir = details.workdir;
                let github_login = details.github_login;
                (
                    EnterCodespaceFlow::Connected { session_name, details, uuid, attach_only },
                    Effect::Connect { name, workdir, uuid, github_login, attach_only },
                )
            },
            (
                EnterCodespaceFlow::Connected { session_name, details, uuid, .. },
                Event::Exit { success, status },
            ) => (
                EnterCodespaceFlow::Find { session_name, details, uuid, success, status },
                Effect::FindByUuid { uuid },
            ),
            (EnterCodespaceFlow::Connected { uuid, attach_only, .. }, Event::Failed(failure)) => (
                EnterCodespaceFlow::Uncache { failure },
                Effect::SetCache {
                    uuid,
                    change: RowChange::Cache {
                        state: CacheWord::Available,
                        zellij: if attach_only {
                            RemoteZellijState::Running
                        } else {
                            RemoteZellijState::Missing
                        },
                    },
                },
            ),
            (EnterCodespaceFlow::Uncache { failure }, Event::Done) => (
                EnterCodespaceFlow::Over,
                fail(failure),
            ),
            (
                EnterCodespaceFlow::Find { details, uuid, success, status, .. },
                Event::Row(Some(row)),
            ) => (
                EnterCodespaceFlow::Touch { details, uuid, success, status },
                Effect::Update { row, change: RowChange::Touch },
            ),
            (
                EnterCodespaceFlow::Find { details, uuid, success, status, .. },
                Event::Row(None),
            ) => {
                let name = details.name;
                let github_login = details.github_login;
                (
                    EnterCodespaceFlow::State { details, uuid, success, status },
                    Effect::CurrentState { name, github_login },
                )
            },
            (EnterCodespaceFlow::Touch { details, uuid, success, status }, Event::Done) => {
                let name = details.name;
                let github_login = details.github_login;
                (
                    EnterCodespaceFlow::State { details, uuid, success, status },
                    Effect::CurrentState { name, github_login },
                )
            },
            (EnterCodespaceFlow::State { details, uuid, success, status }, Event::Text(state)) => {
                if is_shutdown(state@) {
                    (
                        EnterCodespaceFlow::Store,
                        Effect::SetCache {
                            uuid,
                            change: RowChange::Cache {
                                state: CacheWord::Shutdown,
                                zellij: RemoteZellijState::Missing,
                            },
                        },
                    )
                } else {
                    let name = details.name;
                    let github_login = details.github_login;
                    (
                        EnterCodespaceFlow::Remote { details, uuid, success, status, state },
                        Effect::AskLauncher { name, uuid, github_login, mode: LauncherMode::State },
                    )
                }
            },
            (
                EnterCodespaceFlow::Remote { details, uuid, success, status, state },
                Event::Remote(RemoteZellijState::Connecting),
            ) => (EnterCodespaceFlow::Over, fail(Failure::ConnectingState)),
            (
                EnterCodespaceFlow::Remote { details, uuid, success, status, state },
                Event::Remote(RemoteZellijState::Running),
            ) => {
                let name = details.name;
                let github_login = details.github_login;
                (
                    EnterCodespaceFlow::Ready { details, uuid, success, status, state },
                    Effect::AskLauncher { name, uuid, github_login, mode: LauncherMode::Ready },
                )
            },
            (
                EnterCodespaceFlow::Remote { details, uuid, success, status, state },
                Event::Remote(RemoteZellijState::LegacyTmux),
            ) => (
                EnterCodespaceFlow::Store,
                Effect::SetCache {
                    uuid,
                    change: RowChange::Cache {
                        state: CacheWord::Observed(state),
                        zellij: RemoteZellijState::LegacyTmux,
                    },
                },
            ),
            (
                EnterCodespaceFlow::Remote { details, uuid, success, status, state },
                Event::Remote(RemoteZellijState::Exited),
            ) => {
                let name = details.name;
                let github_login = details.github_login;
                (
                    EnterCodespaceFlow::Cleanup { details, uuid, success, status },
                    Effect::AskLauncher { name, uuid, github_login, mode: LauncherMode::Cleanup },
                )
            },
            (
                EnterCodespaceFlow::Remote { details, uuid, success, status, state },
                Event::Remote(RemoteZellijState::Missing),
            ) => (
                EnterCodespaceFlow::StopMissing { success, status },
                Effect::StopAndCache {
                    name: details.name,
                    github_login: details.github_login,
                    uuid,
                },
            ),
            (
                EnterCodespaceFlow::Ready { details, uuid, success, status, state },
                Event::Flag(ready),
            ) => {
                if ready {
                    (
                        EnterCodespaceFlow::Settle { uuid, success, status },
                        Effect::SetCache {
                            uuid,
                            change: RowChange::Cache {
                                state: CacheWord::Observed(state),
                                zellij: RemoteZellijState::Running,
                            },
                        },
                    )
                } else {
                    (
                        EnterCodespaceFlow::StopUnready,
                        Effect::StopAndCache {
                            name: details.name,
                            github_login: details.github_login,
                            uuid,
                        },
                    )
                }
            },
            (EnterCodespaceFlow::StopUnready, _) => (
                EnterCodespaceFlow::Over,
                fail(Failure::LayoutMissing),
            ),
            (EnterCodespaceFlow::Cleanup { details, uuid, success, status }, _) => (
                EnterCodespaceFlow::StopExited { success, status },
                Effect::StopAndCache {
                    name: details.name,
                    github_login: details.github_login,
                    uuid,
                },
            ),
            (EnterCodespaceFlow::StopExited { success, status }, Event::Done) => {
                if success {
                    (EnterCodespaceFlow::Over, Effect::Finish(Event::Done))
                } else {
                    (EnterCodespaceFlow::Over, fail(Failure::SshAfterExit { status }))
                }
            },
            (EnterCodespaceFlow::StopMissing { success, status }, Event::Done) => {
                if success {
                    (EnterCodespaceFlow::Over, Effect::Finish(Event::Done))
                } else {
                    (EnterCodespaceFlow::Over, fail(Failure::SshMissing { status }))
                }
            },
            (EnterCodespaceFlow::Settle { .. }, Event::Done) => (
                EnterCodespaceFlow::Over,
                Effect::Finish(Event::Done),
            ),
            (EnterCodespaceFlow::Store, Event::Done) => (
                EnterCodespaceFlow::Over,
                Effect::Finish(Event::Done),
            ),
            (_, Event::Failed(f)) => (EnterCodespaceFlow::Over, fail(f)),
            _ => (EnterCodespaceFlow::Over, fail(Failure::UnexpectedReply)),
        }
    }
}

impl Flow for EnterCodespaceFlow {
    open spec fn leads_to(self, event: Event, next: Self, effect: Effect) -> bool {
        (next, effect) == self.step(event)
    }

    fn next(self, event: Event) -> (r: (Self, Effect)) {
        match (self, event) {
            (
                EnterCodespaceFlow::Connecting { session_name, details, uuid, attach_only },
                Event::Done,
            ) => {
                let name = details.name.clone();
                let workdir = details.workdir.clone();
                let github_login = details.github_login.clone();
                (
                    EnterCodespaceFlow::Connected {
                        session_name,
                        details,
                        uuid: uuid.clone(),
                        attach_only,
                    },
                    Effect::Connect { name, workdir, uuid, github_login, attach_only },
                )
            },
            (
                EnterCodespaceFlow::Connected { session_name, details, uuid, .. },
                Event::Exit { success, status },
            ) => (
                EnterCodespaceFlow::Find {
                    session_name,
                    details,
                    uuid: uuid.clone(),
                    success,
                    status,
                },
                Effect::FindByUuid { uuid },
            ),
            (EnterCodespaceFlow::Connected { uuid, attach_only, .. }, Event::Failed(failure)) => (
                EnterCodespaceFlow::Uncache { failure },
                Effect::SetCache {
                    uuid,
                    change: RowChange::Cache {
                        state: CacheWord::Available,
                        zellij: if attach_only {
                            RemoteZellijState::Running
                        } else {
                            RemoteZellijState::Missing
                        },
                    },
                },
            ),
            (EnterCodespaceFlow::Uncache { failure }, Event::Done) => (
                EnterCodespaceFlow::Over,
                failing(failure),
            ),
            (
                EnterCodespaceFlow::Find { details, uuid, success, status, .. },
                Event::Row(Some(row)),
            ) => (
                EnterCodespaceFlow::Touch { details, uuid, success, status },
                Effect::Update { row, change: RowChange::Touch },
            ),
            (
                EnterCodespaceFlow::Find { details, uuid, success, status, .. },
                Event::Row(None),
            ) => {
                let name = details.name.clone();
                let github_login = details.github_login.clone();
                (
                    EnterCodespaceFlow::State { details, uuid, success, status },
                    Effect::CurrentState { name, github_login },
                )
            },
            (EnterCodespaceFlow::Touch { details, uuid, success, status }, Event::Done) => {
                let name = details.name.clone();
                let github_login = details.github_login.clone();
                (
                    EnterCodespaceFlow::State { details, uuid, success, status },
                    Effect::CurrentState { name, github_login },
                )
            },
            (EnterCodespaceFlow::State { details, uuid, success, status }, Event::Text(state)) => {
                if shut_down(&state) {
                    (
                        EnterCodespaceFlow::Store,
                        Effect::SetCache {
                            uuid,
                            change: RowChange::Cache {
                                state: CacheWord::Shutdown,
                                zellij: RemoteZellijState::Missing,
                            },
                        },
                    )
                } else {
                    let name = details.name.clone();
                    let github_login = details.github_login.clone();
                    (
                        EnterCodespaceFlow::Remote {
                            details,
                            uuid: uuid.clone(),
                            success,
                            status,
                            state,
                        },
                        Effect::AskLauncher { name, uuid, github_login, mode: LauncherMode::State },
                    )
                }
            },
            (
                EnterCodespaceFlow::Remote { details, uuid, success, status, state },
                Event::Remote(RemoteZellijState::Connecting),
            ) => (EnterCodespaceFlow::Over, failing(Failure::ConnectingState)),
            (
                EnterCodespaceFlow::Remote { details, uuid, success, status, state },
                Event::Remote(RemoteZellijState::Running),
            ) => {
                let name = details.name.clone();
                let github_login = details.github_login.clone();
                (
                    EnterCodespaceFlow::Ready {
                        details,
                        uuid: uuid.clone(),
                        success,
                        status,
                        state,
                    },
                    Effect::AskLauncher { name, uuid, github_login, mode: LauncherMode::Ready },
                )
            },
            (
                EnterCodespaceFlow::Remote { details, uuid, success, status, state },
                Event::Remote(RemoteZellijState::LegacyTmux),
            ) => (
                EnterCodespaceFlow::Store,
                Effect::SetCache {
                    uuid,
                    change: RowChange::Cache {
                        state: CacheWord::Observed(state),
                        zellij: RemoteZellijState::LegacyTmux,
                    },
                },
            ),
            (
                EnterCodespaceFlow::Remote { details, uuid, success, status, state },
                Event::Remote(RemoteZellijState::Exited),
            ) => {
                let name = details.name.clone();
                let github_login = details.github_login.clone();
                (
                    EnterCodespaceFlow::Cleanup { details, uuid: uuid.clone(), success, status },
                    Effect::AskLauncher { name, uuid, github_login, mode: LauncherMode::Cleanup },
                )
            },
            (
                EnterCodespaceFlow::Remote { details, uuid, success, status, state },
                Event::Remote(RemoteZellijState::Missing),
            ) => (
                EnterCodespaceFlow::StopMissing { success, status },
                Effect::StopAndCache {
                    name: details.name,
                    github_login: details.github_login,
                    uuid,
                },
            ),
            (
                EnterCodespaceFlow::Ready { details, uuid, success, status, state },
                Event::Flag(ready),
            ) => {
                if ready {
                    (
                        EnterCodespaceFlow::Settle { uuid: uuid.clone(), success, status },
                        Effect::SetCache {
                            uuid,
                            change: RowChange::Cache {
                                state: CacheWord::Observed(state),
                                zellij: RemoteZellijState::Running,
                            },
                        },
                    )
                } else {
                    (
                        EnterCodespaceFlow::StopUnready,
                        Effect::StopAndCache {
                            name: details.name,
                            github_login: details.github_login,
                            uuid,
                        },
                    )
                }
            },
            (EnterCodespaceFlow::StopUnready, _) => (
                EnterCodespaceFlow::Over,
                failing(Failure::LayoutMissing),
            ),
            (EnterCodespaceFlow::Cleanup { details, uuid, success, status }, _) => (
                EnterCodespaceFlow::StopExited { success, status },
                Effect::StopAndCache {
                    name: details.name,
                    github_login: details.github_login,
                    uuid,
                },
            ),
            (EnterCodespaceFlow::StopExited { success, status }, Event::Done) => {
                if success {
                    (EnterCodespaceFlow::Over, Effect::Finish(Event::Done))
                } else {
                    (EnterCodespaceFlow::Over, failing(Failure::SshAfterExit { status }))
                }
            },
            (EnterCodespaceFlow::StopMissing { success, status }, Event::Done) => {
                if success {
                    (EnterCodespaceFlow::Over, Effect::Finish(Event::Done))
                } else {
                    (EnterCodespaceFlow::Over, failing(Failure::SshMissing { status }))
                }
            },
            (EnterCodespaceFlow::Settle { .. }, Event::Done) => (
                EnterCodespaceFlow::Over,
                Effect::Finish(Event::Done),
            ),
            (EnterCodespaceFlow::Store, Event::Done) => (
                EnterCodespaceFlow::Over,
                Effect::Finish(Event::Done),
            ),
            (_, Event::Failed(f)) => (EnterCodespaceFlow::Over, failing(f)),
            _ => (EnterCodespaceFlow::Over, failing(Failure::UnexpectedReply)),
        }
    }
}

impl Narrated for EnterCodespaceFlow {
    open spec fn told<'a>(&'a self, event: &'a Event) -> Seq<Remark<'a>> {
        match (self, event) {
            (
                EnterCodespaceFlow::Find { session_name, details, uuid, .. },
                Event::Row(None),
            ) => seq![
                Remark {
                    name: Some(session_name),
                    uuid: Some(uuid),
                    codespace: Some(&details.name),
                    ..remark(Topic::MissingAfterExit)
                },
            ],
            (EnterCodespaceFlow::Settle { uuid, success, status }, Event::Done) => {
                if *success {
                    Seq::empty()
                } else {
                    seq![Remark { uuid: Some(uuid), detail: Some(status), ..remark(Topic::SshExited) }]
                }
            },
            (EnterCodespaceFlow::Cleanup { details, uuid, .. }, _) => seq![
                Remark {
                    uuid: Some(uuid),
                    codespace: Some(&details.name),
                    ..remark(Topic::StoppingExited)
                },
            ],
            (EnterCodespaceFlow::Remote { details, uuid, .. }, Event::Remote(RemoteZellijState::Missing)) => seq![
                Remark {
                    uuid: Some(uuid),
                    codespace: Some(&details.name),
                    ..remark(Topic::StoppingClosed)
                },
            ],
            _ => Seq::empty(),
        }
    }

    fn remarks<'a>(&'a self, event: &'a Event) -> (r: Vec<Remark<'a>>) {
        match (self, event) {
            (
                EnterCodespaceFlow::Find { session_name, details, uuid, .. },
                Event::Row(None),
            ) => one(
                Remark {
                    name: Some(session_name),
                    uuid: Some(uuid),
                    codespace: Some(&details.name),
                    ..remark(Topic::MissingAfterExit)
                },
            ),
            (EnterCodespaceFlow::Settle { uuid, success, status }, Event::Done) => {
                if *success {
                    Vec::new()
                } else {
                    one(Remark { uuid: Some(uuid), detail: Some(status), ..remark(Topic::SshExited) })
                }
            },
            (EnterCodespaceFlow::Cleanup { details, uuid, .. }, _) => one(
                Remark {
                    uuid: Some(uuid),
                    codespace: Some(&details.name),
                    ..remark(Topic::StoppingExited)
                },
            ),
            (EnterCodespaceFlow::Remote { details, uuid, .. }, Event::Remote(RemoteZellijState::Missing)) => one(
                Remark {
                    uuid: Some(uuid),
                    codespace: Some(&details.name),
                    ..remark(Topic::StoppingClosed)
                },
            ),
            _ => Vec::new(),
        }
    }
}

/// Writing the local files of a Codespace session, and preparing the Codespace with them.
#[derive(Debug)]
pub enum SetUpFlow {
    Launcher { name: String, workdir: String, uuid: String, resume: bool, github_login: String },
    Layout {
        name: String,
        workdir: String,
        uuid: String,
        resume: bool,
        github_login: String,
        launcher: String,
    },
    Config {
        name: String,
        workdir: String,
        uuid: String,
        resume: bool,
        github_login: String,
        launcher: String,
        layout: String,
    },
    Prepare,
    Over,
}

/// How it begins.
pub open spec fn set_up_begin(
    name: String,
    workdir: String,
    uuid: String,
    resume: bool,
    github_login: String,
) -> (SetUpFlow, Effect) {
    (
        SetUpFlow::Launcher { name, workdir, uuid, resume, github_login },
        Effect::WriteCodespaceLauncher,
    )
}

/// Write the local files of a Codespace session and prepare the Codespace.
pub fn set_up(
    name: String,
    workdir: String,
    uuid: String,
    resume: bool,
    github_login: String,
) -> (r: (SetUpFlow, Effect))
    ensures
        r == set_up_begin(name, workdir, uuid, resume, github_login),
{
    (
        SetUpFlow::Launcher { name, workdir, uuid, resume, github_login },
        Effect::WriteCodespaceLauncher,
    )
}

impl SetUpFlow {
    /// What comes after `event`.
    pub open spec fn step(self, event: Event) -> (SetUpFlow, Effect) {
        match (self, event) {
            (SetUpFlow::Launcher { name, workdir, uuid, resume, github_login }, Event::Text(launcher)) => (
                SetUpFlow::Layout {
                    name,
                    workdir,
                    uuid,
                    resume,
                    github_login,
                    launcher,
                },
                Effect::WriteCodespaceLayout { uuid, name, workdir },
            ),
            (
                SetUpFlow::Layout { name, workdir, uuid, resume, github_login, launcher },
                Event::Text(layout),
            ) => (
                SetUpFlow::Config { name, workdir, uuid, resume, github_login, launcher, layout },
                Effect::WriteConfig,
            ),
            (
                SetUpFlow::Config { name, workdir, uuid, resume, github_login, launcher, layout },
                Event::Text(config),
            ) => (
                SetUpFlow::Prepare,
                Effect::Prepare(
                    RemoteSetup {
                        name,
                        workdir,
                        launcher,
                        layout,
                        config,
                        uuid,
                        resume,
                        github_login,
                    },
                ),
            ),
            (SetUpFlow::Prepare, Event::Setup(outcome)) => (
                SetUpFlow::Over,
                Effect::Finish(Event::Setup(outcome)),
            ),
            (_, Event::Failed(f)) => (SetUpFlow::Over, fail(f)),
            _ => (SetUpFlow::Over, fail(Failure::UnexpectedReply)),
        }
    }
}

impl Flow for SetUpFlow {
    open spec fn leads_to(self, event: Event, next: Self, effect: Effect) -> bool {
        (next, effect) == self.step(event)
    }

    fn next(self, event: Event) -> (r: (Self, Effect)) {
        match (self, event) {
            (SetUpFlow::Launcher { name, workdir, uuid, resume, github_login }, Event::Text(launcher)) => (
                SetUpFlow::Layout {
                    name: name.clone(),
                    workdir: workdir.clone(),
                    uuid: uuid.clone(),
                    resume,
                    github_login,
                    launcher,
                },
                Effect::WriteCodespaceLayout { uuid, name, workdir },
            ),
            (
                SetUpFlow::Layout { name, workdir, uuid, resume, github_login, launcher },
                Event::Text(layout),
            ) => (
                SetUpFlow::Config { name, workdir, uuid, resume, github_login, launcher, layout },
                Effect::WriteConfig,
            ),
            (
                SetUpFlow::Config { name, workdir, uuid, resume, github_login, launcher, layout },
                Event::Text(config),
            ) => (
                SetUpFlow::Prepare,
                Effect::Prepare(
                    RemoteSetup {
                        name,
                        workdir,
                        launcher,
                        layout,
                        config,
                        uuid,
                        resume,
                        github_login,
                    },
                ),
            ),
            (SetUpFlow::Prepare, Event::Setup(outcome)) => (
                SetUpFlow::Over,
                Effect::Finish(Event::Setup(outcome)),
            ),
            (_, Event::Failed(f)) => (SetUpFlow::Over, failing(f)),
            _ => (SetUpFlow::Over, failing(Failure::UnexpectedReply)),
        }
    }
}

/// Undoing the creation of a Codespace session that failed. The Codespace is deleted, and with
/// it its record and its files. If it cannot be deleted, a record of it is kept or made, so
/// that deleting it can be tried again. However that goes, this ends well: the failure that led
/// here is what the user is told.
#[derive(Debug)]
pub enum CleanupFailedFlow {
    Delete {
        session_name: String,
        uuid: String,
        repo: RepoInfo,
        codespace_name: String,
        github_login: String,
    },
    Forget { session_name: String, uuid: String, codespace_name: String },
    Files,
    Find {
        session_name: String,
        uuid: String,
        repo: RepoInfo,
        codespace_name: String,
        github_login: String,
        delete_error: Failure,
    },
    Name {
        session_name: String,
        uuid: String,
        repo: RepoInfo,
        codespace_name: String,
        github_login: String,
        delete_error: Failure,
    },
    Keep {
        session_name: String,
        name: String,
        uuid: String,
        codespace_name: String,
        delete_error: Failure,
    },
    Over,
}

/// How it begins.
pub open spec fn cleanup_failed_codespace_creation_begin(
    session_name: String,
    uuid: String,
    repo: RepoInfo,
    codespace_name: String,
    github_login: String,
) -> (CleanupFailedFlow, Effect) {
    (
        CleanupFailedFlow::Delete {
            session_name,
            uuid,
            repo,
            codespace_name,
            github_login,
        },
        Effect::DeleteCodespace { name: codespace_name, github_login },
    )
}

/// Undo the creation of a Codespace session that failed.
pub fn cleanup_failed_codespace_creation(
    session_name: String,
    uuid: String,
    repo: RepoInfo,
    codespace_name: String,
    github_login: String,
) -> (r: (CleanupFailedFlow, Effect))
    ensures
        r == cleanup_failed_codespace_creation_begin(session_name, uuid, repo, codespace_name, github_login),
{
    (
        CleanupFailedFlow::Delete {
            session_name,
            uuid,
            repo,
            codespace_name: codespace_name.clone(),
            github_login: github_login.clone(),
        },
        Effect::DeleteCodespace { name: codespace_name, github_login },
    )
}

impl CleanupFailedFlow {
    /// What comes after `event`.
    pub open spec fn step(self, event: Event) -> (CleanupFailedFlow, Effect) {
        match (self, event) {
            (
                CleanupFailedFlow::Delete {
                    session_name,
                    uuid,
                    repo,
                    codespace_name,
                    github_login,
                },
                Event::Done,
            ) => (
                CleanupFailedFlow::Forget { session_name, uuid, codespace_name },
                Effect::DeleteRow { name: session_name, uuid },
            ),
            (CleanupFailedFlow::Forget { uuid, .. }, _) => (
                CleanupFailedFlow::Files,
                Effect::CleanupFiles { uuid },
            ),
            (CleanupFailedFlow::Files, _) => (CleanupFailedFlow::Over, Effect::Finish(Event::Done)),
            (
                CleanupFailedFlow::Delete {
                    session_name,
                    uuid,
                    repo,
                    codespace_name,
                    github_login,
                },
                Event::Failed(f),
            ) => (
                CleanupFailedFlow::Find {
                    session_name,
                    uuid,
                    repo,
                    codespace_name,
                    github_login,
                    delete_error: f,
                },
                Effect::FindByName { name: session_name },
            ),
            (
                CleanupFailedFlow::Find {
                    session_name,
                    uuid,
                    repo,
                    codespace_name,
                    github_login,
                    delete_error,
                },
                Event::Row(None),
            ) => (
                CleanupFailedFlow::Keep {
                    session_name,
                    name: session_name,
                    uuid,
                    codespace_name,
                    delete_error,
                },
                Effect::Insert(
                    NewSession::Recovery {
                        name: session_name,
                        uuid,
                        repo,
                        codespace_name,
                        github_login,
                    },
                ),
            ),
            (
                CleanupFailedFlow::Find {
                    session_name,
                    uuid,
                    repo,
                    codespace_name,
                    github_login,
                    delete_error,
                },
                Event::Row(Some(row)),
            ) => {
                if row.copilot_uuid@ == uuid@ {
                    (CleanupFailedFlow::Over, Effect::Finish(Event::Done))
                } else {
                    (
                        CleanupFailedFlow::Name {
                            session_name,
                            uuid,
                            repo,
                            codespace_name,
                            github_login,
                            delete_error,
                        },
                        Effect::FreeName { base: NameBase::Cleanup { session_name, uuid } },
                    )
                }
            },
            (
                CleanupFailedFlow::Name {
                    session_name,
                    uuid,
                    repo,
                    codespace_name,
                    github_login,
                    delete_error,
                },
                Event::Text(name),
            ) => (
                CleanupFailedFlow::Keep {
                    session_name,
                    name,
                    uuid,
                    codespace_name,
                    delete_error,
                },
                Effect::Insert(
                    NewSession::Recovery { name, uuid, repo, codespace_name, github_login },
                ),
            ),
            (CleanupFailedFlow::Keep { .. }, _) => (CleanupFailedFlow::Over, Effect::Finish(Event::Done)),
            (_, Event::Failed(f)) => (CleanupFailedFlow::Over, Effect::Finish(Event::Done)),
            _ => (CleanupFailedFlow::Over, fail(Failure::UnexpectedReply)),
        }
    }
}

impl Flow for CleanupFailedFlow {
    open spec fn leads_to(self, event: Event, next: Self, effect: Effect) -> bool {
        (next, effect) == self.step(event)
    }

    fn next(self, event: Event) -> (r: (Self, Effect)) {
        match (self, event) {
            (
                CleanupFailedFlow::Delete {
                    session_name,
                    uuid,
                    repo,
                    codespace_name,
                    github_login,
                },
                Event::Done,
            ) => (
                CleanupFailedFlow::Forget {
                    session_name: session_name.clone(),
                    uuid: uuid.clone(),
                    codespace_name,
                },
                Effect::DeleteRow { name: session_name, uuid },
            ),
            (CleanupFailedFlow::Forget { uuid, .. }, _) => (
                CleanupFailedFlow::Files,
                Effect::CleanupFiles { uuid },
            ),
            (CleanupFailedFlow::Files, _) => (CleanupFailedFlow::Over, Effect::Finish(Event::Done)),
            (
                CleanupFailedFlow::Delete {
                    session_name,
                    uuid,
                    repo,
                    codespace_name,
                    github_login,
                },
                Event::Failed(f),
            ) => (
                CleanupFailedFlow::Find {
                    session_name: session_name.clone(),
                    uuid,
                    repo,
                    codespace_name,
                    github_login,
                    delete_error: f,
                },
                Effect::FindByName { name: session_name },
            ),
            (
                CleanupFailedFlow::Find {
                    session_name,
                    uuid,
                    repo,
                    codespace_name,
                    github_login,
                    delete_error,
                },
                Event::Row(None),
            ) => (
                CleanupFailedFlow::Keep {
                    session_name: session_name.clone(),
                    name: session_name.clone(),
                    uuid: uuid.clone(),
                    codespace_name: codespace_name.clone(),
                    delete_error,
                },
                Effect::Insert(
                    NewSession::Recovery {
                        name: session_name,
                        uuid,
                        repo,
                        codespace_name,
                        github_login,
                    },
                ),
            ),
            (
                CleanupFailedFlow::Find {
                    session_name,
                    uuid,
                    repo,
                    codespace_name,
                    github_login,
                    delete_error,
                },
                Event::Row(Some(row)),
            ) => {
                if same(&row.copilot_uuid, &uuid) {
                    (CleanupFailedFlow::Over, Effect::Finish(Event::Done))
                } else {
                    (
                        CleanupFailedFlow::Name {
                            session_name: session_name.clone(),
                            uuid: uuid.clone(),
                            repo,
                            codespace_name,
                            github_login,
                            delete_error,
                        },
                        Effect::FreeName { base: NameBase::Cleanup { session_name, uuid } },
                    )
                }
            },
            (
                CleanupFailedFlow::Name {
                    session_name,
                    uuid,
                    repo,
                    codespace_name,
                    github_login,
                    delete_error,
                },
                Event::Text(name),
            ) => (
                CleanupFailedFlow::Keep {
                    session_name,
                    name: name.clone(),
                    uuid: uuid.clone(),
                    codespace_name: codespace_name.clone(),
                    delete_error,
                },
                Effect::Insert(
                    NewSession::Recovery { name, uuid, repo, codespace_name, github_login },
                ),
            ),
            (CleanupFailedFlow::Keep { .. }, _) => (CleanupFailedFlow::Over, Effect::Finish(Event::Done)),
            (_, Event::Failed(f)) => (CleanupFailedFlow::Over, Effect::Finish(Event::Done)),
            _ => (CleanupFailedFlow::Over, failing(Failure::UnexpectedReply)),
        }
    }
}

impl Narrated for CleanupFailedFlow {
    open spec fn told<'a>(&'a self, event: &'a Event) -> Seq<Remark<'a>> {
        match (self, event) {
            (CleanupFailedFlow::Forget { session_name, uuid, codespace_name }, Event::Failed(f)) => seq![
                Remark {
                    name: Some(session_name),
                    uuid: Some(uuid),
                    codespace: Some(codespace_name),
                    error: Some(f),
                    ..remark(Topic::RecordNotRemoved)
                },
            ],
            (
                CleanupFailedFlow::Find { session_name, uuid, codespace_name, delete_error, .. },
                Event::Failed(f),
            ) => seq![
                Remark {
                    name: Some(session_name),
                    uuid: Some(uuid),
                    codespace: Some(codespace_name),
                    error: Some(f),
                    delete_error: Some(delete_error),
                    ..remark(Topic::RecordNotInspected)
                },
            ],
            (
                CleanupFailedFlow::Find { session_name, uuid, codespace_name, delete_error, .. },
                Event::Row(Some(row)),
            ) => {
                if row.copilot_uuid@ == uuid@ {
                    seq![Remark {
                        name: Some(session_name),
                        uuid: Some(uuid),
                        codespace: Some(codespace_name),
                        delete_error: Some(delete_error),
                        ..remark(Topic::SessionKept)
                    }]
                } else {
                    Seq::empty()
                }
            },
            (
                CleanupFailedFlow::Name { session_name, uuid, codespace_name, delete_error, .. },
                Event::Failed(f),
            ) => seq![
                Remark {
                    name: Some(session_name),
                    uuid: Some(uuid),
                    codespace: Some(codespace_name),
                    error: Some(f),
                    delete_error: Some(delete_error),
                    ..remark(Topic::RecordNotReserved)
                },
            ],
            (
                CleanupFailedFlow::Keep { session_name, uuid, codespace_name, delete_error, .. },
                Event::Failed(f),
            ) => seq![
                Remark {
                    name: Some(session_name),
                    uuid: Some(uuid),
                    codespace: Some(codespace_name),
                    error: Some(f),
                    delete_error: Some(delete_error),
                    ..remark(Topic::RecordNotKept)
                },
            ],
            (
                CleanupFailedFlow::Keep { name, uuid, codespace_name, delete_error, .. },
                _,
            ) => seq![
                Remark {
                    name: Some(name),
                    uuid: Some(uuid),
                    codespace: Some(codespace_name),
                    delete_error: Some(delete_error),
                    ..remark(Topic::RecordKept)
                },
            ],
            _ => Seq::empty(),
        }
    }

    fn remarks<'a>(&'a self, event: &'a Event) -> (r: Vec<Remark<'a>>) {
        match (self, event) {
            (CleanupFailedFlow::Forget { session_name, uuid, codespace_name }, Event::Failed(f)) => one(
                Remark {
                    name: Some(session_name),
                    uuid: Some(uuid),
                    codespace: Some(codespace_name),
                    error: Some(f),
                    ..remark(Topic::RecordNotRemoved)
                },
            ),
            (
                CleanupFailedFlow::Find { session_name, uuid, codespace_name, delete_error, .. },
                Event::Failed(f),
            ) => one(
                Remark {
                    name: Some(session_name),
                    uuid: Some(uuid),
                    codespace: Some(codespace_name),
                    error: Some(f),
                    delete_error: Some(delete_error),
                    ..remark(Topic::RecordNotInspected)
                },
            ),
            (
                CleanupFailedFlow::Find { session_name, uuid, codespace_name, delete_error, .. },
                Event::Row(Some(row)),
            ) => {
                if same(&row.copilot_uuid, uuid) {
                    one(Remark {
                        name: Some(session_name),
                        uuid: Some(uuid),
                        codespace: Some(codespace_name),
                        delete_error: Some(delete_error),
                        ..remark(Topic::SessionKept)
                    })
                } else {
                    Vec::new()
                }
            },
            (
                CleanupFailedFlow::Name { session_name, uuid, codespace_name, delete_error, .. },
                Event::Failed(f),
            ) => one(
                Remark {
                    name: Some(session_name),
                    uuid: Some(uuid),
                    codespace: Some(codespace_name),
                    error: Some(f),
                    delete_error: Some(delete_error),
                    ..remark(Topic::RecordNotReserved)
                },
            ),
            (
                CleanupFailedFlow::Keep { session_name, uuid, codespace_name, delete_error, .. },
                Event::Failed(f),
            ) => one(
                Remark {
                    name: Some(session_name),
                    uuid: Some(uuid),
                    codespace: Some(codespace_name),
                    error: Some(f),
                    delete_error: Some(delete_error),
                    ..remark(Topic::RecordNotKept)
                },
            ),
            (
                CleanupFailedFlow::Keep { name, uuid, codespace_name, delete_error, .. },
                _,
            ) => one(
                Remark {
                    name: Some(name),
                    uuid: Some(uuid),
                    codespace: Some(codespace_name),
                    delete_error: Some(delete_error),
                    ..remark(Topic::RecordKept)
                },
            ),
            _ => Vec::new(),
        }
    }
}

/// Creating a session in a new Codespace from the default branch of the current repository.
/// If storing or preparing it fails, the creation is undone; if connecting to it fails, the
/// Codespace is stopped.
#[derive(Debug)]
pub enum RunCodespaceFlow {
    Root { session_name: String, uuid: String },
    Auth { session_name: String, uuid: String, root: String },
    Login { session_name: String, uuid: String, root: String },
    Repo { session_name: String, uuid: String, github_login: String },
    Create { session_name: String, uuid: String, github_login: String, repo: RepoInfo },
    Insert {
        session_name: String,
        uuid: String,
        github_login: String,
        repo: RepoInfo,
        codespace_name: String,
    },
    SetUp {
        session: Model,
        session_name: String,
        uuid: String,
        github_login: String,
        repo: RepoInfo,
        codespace_name: String,
    },
    Enter { session_name: String, codespace_name: String, github_login: String, uuid: String },
    Undo { failure: Failure },
    Stop { failure: Failure, session_name: String, codespace_name: String, uuid: String },
    Over,
}

/// How it begins.
pub open spec fn run_codespace_begin(
    session_name: String,
    uuid: String,
) -> (RunCodespaceFlow, Effect) {
    (RunCodespaceFlow::Root { session_name, uuid }, Effect::RepoRoot)
}

/// Create a session in a new Codespace.
pub fn run_codespace(session_name: String, uuid: String) -> (r: (RunCodespaceFlow, Effect))
    ensures
        r == run_codespace_begin(session_name, uuid),
{
    (RunCodespaceFlow::Root { session_name, uuid }, Effect::RepoRoot)
}

impl RunCodespaceFlow {
    /// What comes after `event`.
    pub open spec fn step(self, event: Event) -> (RunCodespaceFlow, Effect) {
        match (self, event) {
            (RunCodespaceFlow::Root { session_name, uuid }, Event::Text(root)) => (
                RunCodespaceFlow::Auth { session_name, uuid, root },
                Effect::Gh(GhCall::AuthStatus),
            ),
            (RunCodespaceFlow::Root { session_name, uuid }, Event::Failed(f)) => (
                RunCodespaceFlow::Over,
                fail(Failure::NotInRepository { cause: Box::new(f) }),
            ),
            (RunCodespaceFlow::Auth { session_name, uuid, root }, Event::Done) => (
                RunCodespaceFlow::Login { session_name, uuid, root },
                Effect::Gh(GhCall::Login),
            ),
            (RunCodespaceFlow::Login { session_name, uuid, root }, Event::Text(github_login)) => (
                RunCodespaceFlow::Repo { session_name, uuid, github_login },
                Effect::Gh(GhCall::RepoView { root }),
            ),
            (RunCodespaceFlow::Repo { session_name, uuid, github_login }, Event::Repo(repo)) => {
                match workdir_failure(repo.name_with_owner) {
                    Some(f) => (RunCodespaceFlow::Over, fail(f)),
                    None => (
                        RunCodespaceFlow::Create {
                            session_name,
                            uuid,
                            github_login,
                            repo,
                        },
                        Effect::Create { repo, session_name, uuid },
                    ),
                }
            },
            (
                RunCodespaceFlow::Create { session_name, uuid, github_login, repo },
                Event::Text(codespace_name),
            ) => (
                RunCodespaceFlow::Insert {
                    session_name,
                    uuid,
                    github_login,
                    repo,
                    codespace_name,
                },
                Effect::Insert(
                    NewSession::Codespace {
                        name: session_name,
                        uuid,
                        repo,
                        codespace_name,
                        github_login,
                    },
                ),
            ),
            (
                RunCodespaceFlow::Insert { session_name, uuid, github_login, repo, codespace_name },
                Event::Row(Some(session)),
            ) => {
                match details_of(session) {
                    Ok(details) => (
                        RunCodespaceFlow::SetUp {
                            session,
                            session_name,
                            uuid,
                            github_login,
                            repo,
                            codespace_name,
                        },
                        Effect::SetUp {
                            name: details.name,
                            workdir: details.workdir,
                            uuid,
                            resume: false,
                            github_login: details.github_login,
                        },
                    ),
                    Err(failure) => (
                        RunCodespaceFlow::Undo { failure },
                        Effect::CleanupFailed {
                            session_name,
                            uuid,
                            repo,
                            codespace_name,
                            github_login,
                        },
                    ),
                }
            },
            (
                RunCodespaceFlow::Insert { session_name, uuid, github_login, repo, codespace_name },
                Event::Failed(failure),
            ) => (
                RunCodespaceFlow::Undo { failure },
                Effect::CleanupFailed { session_name, uuid, repo, codespace_name, github_login },
            ),
            (
                RunCodespaceFlow::SetUp {
                    session,
                    session_name,
                    uuid,
                    github_login,
                    repo,
                    codespace_name,
                },
                Event::Setup(outcome),
            ) => (
                RunCodespaceFlow::Enter { session_name, codespace_name, github_login, uuid },
                Effect::EnterCodespace { session, attach_only: false },
            ),
            (
                RunCodespaceFlow::SetUp {
                    session,
                    session_name,
                    uuid,
                    github_login,
                    repo,
                    codespace_name,
                },
                Event::Failed(failure),
            ) => (
                RunCodespaceFlow::Undo { failure },
                Effect::CleanupFailed { session_name, uuid, repo, codespace_name, github_login },
            ),
            (RunCodespaceFlow::Undo { failure }, _) => (RunCodespaceFlow::Over, fail(failure)),
            (RunCodespaceFlow::Enter { .. }, Event::Done) => (
                RunCodespaceFlow::Over,
                Effect::Finish(Event::Done),
            ),
            (
                RunCodespaceFlow::Enter { session_name, codespace_name, github_login, uuid },
                Event::Failed(failure),
            ) => (
                RunCodespaceFlow::Stop { failure, session_name, codespace_name, uuid },
                Effect::StopAndCache { name: codespace_name, github_login, uuid },
            ),
            (RunCodespaceFlow::Stop { failure, .. }, _) => (RunCodespaceFlow::Over, fail(failure)),
            (_, Event::Failed(f)) => (RunCodespaceFlow::Over, fail(f)),
            _ => (RunCodespaceFlow::Over, fail(Failure::UnexpectedReply)),
        }
    }
}

impl Flow for RunCodespaceFlow {
    open spec fn leads_to(self, event: Event, next: Self, effect: Effect) -> bool {
        (next, effect) == self.step(event)
    }

    fn next(self, event: Event) -> (r: (Self, Effect)) {
        match (self, event) {
            (RunCodespaceFlow::Root { session_name, uuid }, Event::Text(root)) => (
                RunCodespaceFlow::Auth { session_name, uuid, root },
                Effect::Gh(GhCall::AuthStatus),
            ),
            (RunCodespaceFlow::Root { session_name, uuid }, Event::Failed(f)) => (
                RunCodespaceFlow::Over,
                failing(Failure::NotInRepository { cause: Box::new(f) }),
            ),
            (RunCodespaceFlow::Auth { session_name, uuid, root }, Event::Done) => (
                RunCodespaceFlow::Login { session_name, uuid, root },
                Effect::Gh(GhCall::Login),
            ),
            (RunCodespaceFlow::Login { session_name, uuid, root }, Event::Text(github_login)) => (
                RunCodespaceFlow::Repo { session_name, uuid, github_login },
                Effect::Gh(GhCall::RepoView { root }),
            ),
            (RunCodespaceFlow::Repo { session_name, uuid, github_login }, Event::Repo(repo)) => {
                match check_workdir(&repo.name_with_owner) {
                    Some(f) => (RunCodespaceFlow::Over, failing(f)),
                    None => (
                        RunCodespaceFlow::Create {
                            session_name: session_name.clone(),
                            uuid: uuid.clone(),
                            github_login,
                            repo: repo.clone(),
                        },
                        Effect::Create { repo, session_name, uuid },
                    ),
                }
            },
            (
                RunCodespaceFlow::Create { session_name, uuid, github_login, repo },
                Event::Text(codespace_name),
            ) => (
                RunCodespaceFlow::Insert {
                    session_name: session_name.clone(),
                    uuid: uuid.clone(),
                    github_login: github_login.clone(),
                    repo: repo.clone(),
                    codespace_name: codespace_name.clone(),
                },
                Effect::Insert(
                    NewSession::Codespace {
                        name: session_name,
                        uuid,
                        repo,
                        codespace_name,
                        github_login,
                    },
                ),
            ),
            (
                RunCodespaceFlow::Insert { session_name, uuid, github_login, repo, codespace_name },
                Event::Row(Some(session)),
            ) => {
                match codespace_details(&session) {
                    Ok(details) => (
                        RunCodespaceFlow::SetUp {
                            session,
                            session_name,
                            uuid: uuid.clone(),
                            github_login,
                            repo,
                            codespace_name,
                        },
                        Effect::SetUp {
                            name: details.name,
                            workdir: details.workdir,
                            uuid,
                            resume: false,
                            github_login: details.github_login,
                        },
                    ),
                    Err(failure) => (
                        RunCodespaceFlow::Undo { failure },
                        Effect::CleanupFailed {
                            session_name,
                            uuid,
                            repo,
                            codespace_name,
                            github_login,
                        },
                    ),
                }
            },
            (
                RunCodespaceFlow::Insert { session_name, uuid, github_login, repo, codespace_name },
                Event::Failed(failure),
            ) => (
                RunCodespaceFlow::Undo { failure },
                Effect::CleanupFailed { session_name, uuid, repo, codespace_name, github_login },
            ),
            (
                RunCodespaceFlow::SetUp {
                    session,
                    session_name,
                    uuid,
                    github_login,
                    repo,
                    codespace_name,
                },
                Event::Setup(outcome),
            ) => (
                RunCodespaceFlow::Enter { session_name, codespace_name, github_login, uuid },
                Effect::EnterCodespace { session, attach_only: false },
            ),
            (
                RunCodespaceFlow::SetUp {
                    session,
                    session_name,
                    uuid,
                    github_login,
                    repo,
                    codespace_name,
                },
                Event::Failed(failure),
            ) => (
                RunCodespaceFlow::Undo { failure },
                Effect::CleanupFailed { session_name, uuid, repo, codespace_name, github_login },
            ),
            (RunCodespaceFlow::Undo { failure }, _) => (RunCodespaceFlow::Over, failing(failure)),
            (RunCodespaceFlow::Enter { .. }, Event::Done) => (
                RunCodespaceFlow::Over,
                Effect::Finish(Event::Done),
            ),
            (
                RunCodespaceFlow::Enter { session_name, codespace_name, github_login, uuid },
                Event::Failed(failure),
            ) => (
                RunCodespaceFlow::Stop {
                    failure,
                    session_name,
                    codespace_name: codespace_name.clone(),
                    uuid: uuid.clone(),
                },
                Effect::StopAndCache { name: codespace_name, github_login, uuid },
            ),
            (RunCodespaceFlow::Stop { failure, .. }, _) => (RunCodespaceFlow::Over, failing(failure)),
            (_, Event::Failed(f)) => (RunCodespaceFlow::Over, failing(f)),
            _ => (RunCodespaceFlow::Over, failing(Failure::UnexpectedReply)),
        }
    }
}

impl Narrated for RunCodespaceFlow {
    open spec fn told<'a>(&'a self, event: &'a Event) -> Seq<Remark<'a>> {
        match (self, event) {
            (RunCodespaceFlow::Repo { session_name, uuid, .. }, Event::Repo(repo)) => {
                match workdir_failure(repo.name_with_owner) {
                    Some(_) => Seq::empty(),
                    None => seq![Remark {
                        name: Some(session_name),
                        uuid: Some(uuid),
                        repository: Some(&repo.name_with_owner),
                        detail: Some(&repo.default_branch),
                        ..remark(Topic::CreatingCodespace)
                    }],
                }
            },
            (RunCodespaceFlow::Create { session_name, uuid, .. }, Event::Text(codespace)) => seq![
                Remark {
                    name: Some(session_name),
                    uuid: Some(uuid),
                    codespace: Some(codespace),
                    ..remark(Topic::CreatedCodespace)
                },
            ],
            (
                RunCodespaceFlow::SetUp { session_name, uuid, codespace_name, .. },
                Event::Setup(_),
            ) => seq![
                Remark {
                    name: Some(session_name),
                    uuid: Some(uuid),
                    codespace: Some(codespace_name),
                    ..remark(Topic::CreatedCodespaceSession)
                },
                Remark {
                    name: Some(session_name),
                    uuid: Some(uuid),
                    codespace: Some(codespace_name),
                    ..remark(Topic::ConnectingDirectly)
                },
            ],
            (
                RunCodespaceFlow::Stop { session_name, codespace_name, uuid, .. },
                Event::Failed(f),
            ) => seq![
                Remark {
                    name: Some(session_name),
                    uuid: Some(uuid),
                    codespace: Some(codespace_name),
                    error: Some(f),
                    ..remark(Topic::StopAfterConnection)
                },
            ],
            _ => Seq::empty(),
        }
    }

    fn remarks<'a>(&'a self, event: &'a Event) -> (r: Vec<Remark<'a>>) {
        match (self, event) {
            (RunCodespaceFlow::Repo { session_name, uuid, .. }, Event::Repo(repo)) => {
                match check_workdir(&repo.name_with_owner) {
                    Some(_) => Vec::new(),
                    None => one(Remark {
                        name: Some(session_name),
                        uuid: Some(uuid),
                        repository: Some(&repo.name_with_owner),
                        detail: Some(&repo.default_branch),
                        ..remark(Topic::CreatingCodespace)
                    }),
                }
            },
            (RunCodespaceFlow::Create { session_name, uuid, .. }, Event::Text(codespace)) => one(
                Remark {
                    name: Some(session_name),
                    uuid: Some(uuid),
                    codespace: Some(codespace),
                    ..remark(Topic::CreatedCodespace)
                },
            ),
            (
                RunCodespaceFlow::SetUp { session_name, uuid, codespace_name, .. },
                Event::Setup(_),
            ) => both(
                Remark {
                    name: Some(session_name),
                    uuid: Some(uuid),
                    codespace: Some(codespace_name),
                    ..remark(Topic::CreatedCodespaceSession)
                },
                Remark {
                    name: Some(session_name),
                    uuid: Some(uuid),
                    codespace: Some(codespace_name),
                    ..remark(Topic::ConnectingDirectly)
                },
            ),
            (
                RunCodespaceFlow::Stop { session_name, codespace_name, uuid, .. },
                Event::Failed(f),
            ) => one(
                Remark {
                    name: Some(session_name),
                    uuid: Some(uuid),
                    codespace: Some(codespace_name),
                    error: Some(f),
                    ..remark(Topic::StopAfterConnection)
                },
            ),
            _ => Vec::new(),
        }
    }
}

} // verus!
