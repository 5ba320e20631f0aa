//! Operations on one Codespace, step by step.
//!
//! Each checks its arguments first, then that `gh` acts for the account that owns the
//! Codespace, and only then touches the Codespace.

use vstd::prelude::*;

use crate::codespace::{
    codespace_name, is_codespace_name, is_workspace_path, workspace_path, RemoteSetup,
    RemoteSetupOutcome, RemoteZellijState, RepoInfo,
};
use crate::failure::Failure;
use crate::flow::{fail, failing, Effect, Event, Flow};
use crate::gh::{GhCall, LauncherMode, RemoteFile};
use crate::ids::{is_uuid, well_formed_uuid};
use crate::text::{lower, same, same_ignoring_case};

verus! {

/// The Codespace is shut down.
pub open spec fn is_shutdown(state: Seq<char>) -> bool {
    lower(state) == lower("shutdown"@)
}

/// Whether the Codespace is shut down.
pub fn shut_down(state: &str) -> (r: bool)
    ensures
        r == is_shutdown(state@),
{
    same_ignoring_case(state, "shutdown")
}

// ── Stopping ────────────────────────────────────────────────────────────────

/// Stopping a Codespace. A Codespace that does not exist or is already shut down counts as
/// stopped.
#[derive(Debug)]
pub enum StopFlow {
    Login { name: String, github_login: String },
    Stop { name: String },
    State { failure: Failure },
    Over,
}

/// How it begins.
pub open spec fn stop_begin(name: String, github_login: String) -> (StopFlow, Effect) {
    if codespace_name(name@) {
        (StopFlow::Login { name, github_login }, Effect::Gh(GhCall::Login))
    } else {
        (StopFlow::Over, fail(Failure::InvalidCodespaceName { name }))
    }
}

/// Stop a Codespace.
pub fn stop(name: String, github_login: String) -> (r: (StopFlow, Effect))
    ensures
        r == stop_begin(name, github_login),
{
    if is_codespace_name(&name) {
        (StopFlow::Login { name, github_login }, Effect::Gh(GhCall::Login))
    } else {
        (StopFlow::Over, failing(Failure::InvalidCodespaceName { name }))
    }
}

impl StopFlow {
    /// What comes after `event`.
    pub open spec fn step(self, event: Event) -> (StopFlow, Effect) {
        match (self, event) {
            (StopFlow::Login { name, github_login }, Event::Text(current)) => {
                if current@ == github_login@ {
                    (StopFlow::Stop { name }, Effect::Gh(GhCall::Stop { name }))
                } else {
                    (
                        StopFlow::Over,
                        fail(Failure::WrongAccount { current, expected: github_login }),
                    )
                }
            },
            (StopFlow::Stop { name }, Event::Done) => (StopFlow::Over, Effect::Finish(Event::Done)),
            (StopFlow::Stop { name }, Event::Failed(failure)) => (
                StopFlow::State { failure },
                Effect::Gh(GhCall::State { name }),
            ),
            (StopFlow::State { failure }, Event::MaybeText(None)) => (
                StopFlow::Over,
                Effect::Finish(Event::Done),
            ),
            (StopFlow::State { failure }, Event::MaybeText(Some(state))) => {
                if is_shutdown(state@) {
                    (StopFlow::Over, Effect::Finish(Event::Done))
                } else {
                    (StopFlow::Over, fail(failure))
                }
            },
            (_, Event::Failed(f)) => (StopFlow::Over, fail(f)),
            _ => (StopFlow::Over, fail(Failure::UnexpectedReply)),
        }
    }
}

impl Flow for StopFlow {
    open spec fn leads_to(self, event: Event, next: Self, effect: Effect) -> bool {
        (next, effect) == self.step(event)
    }

    fn next(self, event: Event) -> (r: (Self, Effect)) {
        match (self, event) {
            (StopFlow::Login { name, github_login }, Event::Text(current)) => {
                if same(&current, &github_login) {
                    (StopFlow::Stop { name: name.clone() }, Effect::Gh(GhCall::Stop { name }))
                } else {
                    (
                        StopFlow::Over,
                        failing(Failure::WrongAccount { current, expected: github_login }),
                    )
                }
            },
            (StopFlow::Stop { name }, Event::Done) => (StopFlow::Over, Effect::Finish(Event::Done)),
            (StopFlow::Stop { name }, Event::Failed(failure)) => (
                StopFlow::State { failure },
                Effect::Gh(GhCall::State { name }),
            ),
            (StopFlow::State { failure }, Event::MaybeText(None)) => (
                StopFlow::Over,
                Effect::Finish(Event::Done),
            ),
            (StopFlow::State { failure }, Event::MaybeText(Some(state))) => {
                if shut_down(&state) {
                    (StopFlow::Over, Effect::Finish(Event::Done))
                } else {
                    (StopFlow::Over, failing(failure))
                }
            },
            (_, Event::Failed(f)) => (StopFlow::Over, failing(f)),
            _ => (StopFlow::Over, failing(Failure::UnexpectedReply)),
        }
    }
}

// ── Deleting ────────────────────────────────────────────────────────────────

/// Deleting a Codespace.
#[derive(Debug)]
pub enum DeleteFlow {
    Login { name: String, github_login: String },
    Delete,
    Over,
}

/// How it begins.
pub open spec fn delete_begin(name: String, github_login: String) -> (DeleteFlow, Effect) {
    if codespace_name(name@) {
        (DeleteFlow::Login { name, github_login }, Effect::Gh(GhCall::Login))
    } else {
        (DeleteFlow::Over, fail(Failure::InvalidCodespaceName { name }))
    }
}

/// Delete a Codespace.
pub fn delete(name: String, github_login: String) -> (r: (DeleteFlow, Effect))
    ensures
        r == delete_begin(name, github_login),
{
    if is_codespace_name(&name) {
        (DeleteFlow::Login { name, github_login }, Effect::Gh(GhCall::Login))
    } else {
        (DeleteFlow::Over, failing(Failure::InvalidCodespaceName { name }))
    }
}

impl DeleteFlow {
    /// What comes after `event`.
    pub open spec fn step(self, event: Event) -> (DeleteFlow, Effect) {
        match (self, event) {
            (DeleteFlow::Login { name, github_login }, Event::Text(current)) => {
                if current@ == github_login@ {
                    (DeleteFlow::Delete, Effect::Gh(GhCall::Delete { name }))
                } else {
                    (
                        DeleteFlow::Over,
                        fail(Failure::WrongAccount { current, expected: github_login }),
                    )
                }
            },
            (DeleteFlow::Delete, Event::Done) => (DeleteFlow::Over, Effect::Finish(Event::Done)),
            (_, Event::Failed(f)) => (DeleteFlow::Over, fail(f)),
            _ => (DeleteFlow::Over, fail(Failure::UnexpectedReply)),
        }
    }
}

impl Flow for DeleteFlow {
    open spec fn leads_to(self, event: Event, next: Self, effect: Effect) -> bool {
        (next, effect) == self.step(event)
    }

    fn next(self, event: Event) -> (r: (Self, Effect)) {
        match (self, event) {
            (DeleteFlow::Login { name, github_login }, Event::Text(current)) => {
                if same(&current, &github_login) {
                    (DeleteFlow::Delete, Effect::Gh(GhCall::Delete { name }))
                } else {
                    (
                        DeleteFlow::Over,
                        failing(Failure::WrongAccount { current, expected: github_login }),
                    )
                }
            },
            (DeleteFlow::Delete, Event::Done) => (DeleteFlow::Over, Effect::Finish(Event::Done)),
            (_, Event::Failed(f)) => (DeleteFlow::Over, failing(f)),
            _ => (DeleteFlow::Over, failing(Failure::UnexpectedReply)),
        }
    }
}

/// Deleting a Codespace that may be gone already.
#[derive(Debug)]
pub enum DeleteIfExistsFlow {
    Login { name: String, github_login: String },
    Delete { name: String },
    State { failure: Failure },
    Over,
}

/// How it begins.
pub open spec fn delete_if_exists_begin(
    name: String,
    github_login: String,
) -> (DeleteIfExistsFlow, Effect) {
    if codespace_name(name@) {
        (DeleteIfExistsFlow::Login { name, github_login }, Effect::Gh(GhCall::Login))
    } else {
        (DeleteIfExistsFlow::Over, fail(Failure::InvalidCodespaceName { name }))
    }
}

/// Delete a Codespace, unless it is gone already.
pub fn delete_if_exists(name: String, github_login: String) -> (r: (DeleteIfExistsFlow, Effect))
    ensures
        r == delete_if_exists_begin(name, github_login),
{
    if is_codespace_name(&name) {
        (DeleteIfExistsFlow::Login { name, github_login }, Effect::Gh(GhCall::Login))
    } else {
        (DeleteIfExistsFlow::Over, failing(Failure::InvalidCodespaceName { name }))
    }
}

impl DeleteIfExistsFlow {
    /// What comes after `event`.
    pub open spec fn step(self, event: Event) -> (DeleteIfExistsFlow, Effect) {
        match (self, event) {
            (DeleteIfExistsFlow::Login { name, github_login }, Event::Text(current)) => {
                if current@ == github_login@ {
                    (
                        DeleteIfExistsFlow::Delete { name },
                        Effect::DeleteCodespace { name, github_login },
                    )
                } else {
                    (
                        DeleteIfExistsFlow::Over,
                        fail(Failure::WrongAccount { current, expected: github_login }),
                    )
                }
            },
            (DeleteIfExistsFlow::Delete { name }, Event::Done) => (
                DeleteIfExistsFlow::Over,
                Effect::Finish(Event::Done),
            ),
            (DeleteIfExistsFlow::Delete { name }, Event::Failed(failure)) => (
                DeleteIfExistsFlow::State { failure },
                Effect::Gh(GhCall::State { name }),
            ),
            (DeleteIfExistsFlow::State { failure }, Event::MaybeText(None)) => (
                DeleteIfExistsFlow::Over,
                Effect::Finish(Event::Done),
            ),
            (DeleteIfExistsFlow::State { failure }, Event::MaybeText(Some(state))) => (
                DeleteIfExistsFlow::Over,
                fail(failure),
            ),
            (_, Event::Failed(f)) => (DeleteIfExistsFlow::Over, fail(f)),
            _ => (DeleteIfExistsFlow::Over, fail(Failure::UnexpectedReply)),
        }
    }
}

impl Flow for DeleteIfExistsFlow {
    open spec fn leads_to(self, event: Event, next: Self, effect: Effect) -> bool {
        (next, effect) == self.step(event)
    }

    fn next(self, event: Event) -> (r: (Self, Effect)) {
        match (self, event) {
            (DeleteIfExistsFlow::Login { name, github_login }, Event::Text(current)) => {
                if same(&current, &github_login) {
                    (
                        DeleteIfExistsFlow::Delete { name: name.clone() },
                        Effect::DeleteCodespace { name, github_login },
                    )
                } else {
                    (
                        DeleteIfExistsFlow::Over,
                        failing(Failure::WrongAccount { current, expected: github_login }),
                    )
                }
            },
            (DeleteIfExistsFlow::Delete { name }, Event::Done) => (
                DeleteIfExistsFlow::Over,
                Effect::Finish(Event::Done),
            ),
            (DeleteIfExistsFlow::Delete { name }, Event::Failed(failure)) => (
                DeleteIfExistsFlow::State { failure },
                Effect::Gh(GhCall::State { name }),
            ),
            (DeleteIfExistsFlow::State { failure }, Event::MaybeText(None)) => (
                DeleteIfExistsFlow::Over,
                Effect::Finish(Event::Done),
            ),
            (DeleteIfExistsFlow::State { failure }, Event::MaybeText(Some(state))) => (
                DeleteIfExistsFlow::Over,
                failing(failure),
            ),
            (_, Event::Failed(f)) => (DeleteIfExistsFlow::Over, failing(f)),
            _ => (DeleteIfExistsFlow::Over, failing(Failure::UnexpectedReply)),
        }
    }
}

// ── Asking ──────────────────────────────────────────────────────────────────

/// Asking for the state of a Codespace, which must exist.
#[derive(Debug)]
pub enum CurrentStateFlow {
    Login { name: String, github_login: String },
    State { name: String },
    Over,
}

/// How it begins.
pub open spec fn current_state_begin(
    name: String,
    github_login: String,
) -> (CurrentStateFlow, Effect) {
    if codespace_name(name@) {
        (CurrentStateFlow::Login { name, github_login }, Effect::Gh(GhCall::Login))
    } else {
        (CurrentStateFlow::Over, fail(Failure::InvalidCodespaceName { name }))
    }
}

/// Get the state of a Codespace.
pub fn current_state(name: String, github_login: String) -> (r: (CurrentStateFlow, Effect))
    ensures
        r == current_state_begin(name, github_login),
{
    if is_codespace_name(&name) {
        (CurrentStateFlow::Login { name, github_login }, Effect::Gh(GhCall::Login))
    } else {
        (CurrentStateFlow::Over, failing(Failure::InvalidCodespaceName { name }))
    }
}

impl CurrentStateFlow {
    /// What comes after `event`.
    pub open spec fn step(self, event: Event) -> (CurrentStateFlow, Effect) {
        match (self, event) {
            (CurrentStateFlow::Login { name, github_login }, Event::Text(current)) => {
                if current@ == github_login@ {
                    (CurrentStateFlow::State { name }, Effect::Gh(GhCall::State { name }))
                } else {
                    (
                        CurrentStateFlow::Over,
                        fail(Failure::WrongAccount { current, expected: github_login }),
                    )
                }
            },
            (CurrentStateFlow::State { name }, Event::MaybeText(Some(state))) => (
                CurrentStateFlow::Over,
                Effect::Finish(Event::Text(state)),
            ),
            (CurrentStateFlow::State { name }, Event::MaybeText(None)) => (
                CurrentStateFlow::Over,
                fail(Failure::CodespaceGone { name }),
            ),
            (_, Event::Failed(f)) => (CurrentStateFlow::Over, fail(f)),
            _ => (CurrentStateFlow::Over, fail(Failure::UnexpectedReply)),
        }
    }
}

impl Flow for CurrentStateFlow {
    open spec fn leads_to(self, event: Event, next: Self, effect: Effect) -> bool {
        (next, effect) == self.step(event)
    }

    fn next(self, event: Event) -> (r: (Self, Effect)) {
        match (self, event) {
            (CurrentStateFlow::Login { name, github_login }, Event::Text(current)) => {
                if same(&current, &github_login) {
                    (
                        CurrentStateFlow::State { name: name.clone() },
                        Effect::Gh(GhCall::State { name }),
                    )
                } else {
                    (
                        CurrentStateFlow::Over,
                        failing(Failure::WrongAccount { current, expected: github_login }),
                    )
                }
            },
            (CurrentStateFlow::State { name }, Event::MaybeText(Some(state))) => (
                CurrentStateFlow::Over,
                Effect::Finish(Event::Text(state)),
            ),
            (CurrentStateFlow::State { name }, Event::MaybeText(None)) => (
                CurrentStateFlow::Over,
                failing(Failure::CodespaceGone { name }),
            ),
            (_, Event::Failed(f)) => (CurrentStateFlow::Over, failing(f)),
            _ => (CurrentStateFlow::Over, failing(Failure::UnexpectedReply)),
        }
    }
}

/// Asking the remote launcher of a Codespace.
#[derive(Debug)]
pub enum LauncherFlow {
    Login { name: String, uuid: String, github_login: String, mode: LauncherMode },
    Ask { mode: LauncherMode },
    Over,
}

/// How it begins.
pub open spec fn ask_launcher_begin(
    name: String,
    uuid: String,
    github_login: String,
    mode: LauncherMode,
) -> (LauncherFlow, Effect) {
    if codespace_name(name@) {
        (LauncherFlow::Login { name, uuid, github_login, mode }, Effect::Gh(GhCall::Login))
    } else {
        (LauncherFlow::Over, fail(Failure::InvalidCodespaceName { name }))
    }
}

/// Ask the remote launcher of a Codespace.
pub fn ask_launcher(
    name: String,
    uuid: String,
    github_login: String,
    mode: LauncherMode,
) -> (r: (LauncherFlow, Effect))
    ensures
        r == ask_launcher_begin(name, uuid, github_login, mode),
{
    if is_codespace_name(&name) {
        (LauncherFlow::Login { name, uuid, github_login, mode }, Effect::Gh(GhCall::Login))
    } else {
        (LauncherFlow::Over, failing(Failure::InvalidCodespaceName { name }))
    }
}

impl LauncherFlow {
    /// What comes after `event`.
    pub open spec fn step(self, event: Event) -> (LauncherFlow, Effect) {
        match (self, event) {
            (LauncherFlow::Login { name, uuid, github_login, mode }, Event::Text(current)) => {
                if current@ == github_login@ {
                    (LauncherFlow::Ask { mode }, Effect::Gh(GhCall::Launcher { name, uuid, mode }))
                } else {
                    (
                        LauncherFlow::Over,
                        fail(Failure::WrongAccount { current, expected: github_login }),
                    )
                }
            },
            (LauncherFlow::Ask { mode: LauncherMode::State }, Event::Remote(state)) => (
                LauncherFlow::Over,
                Effect::Finish(Event::Remote(state)),
            ),
            (LauncherFlow::Ask { mode: LauncherMode::Ready }, Event::Flag(ready)) => (
                LauncherFlow::Over,
                Effect::Finish(Event::Flag(ready)),
            ),
            (LauncherFlow::Ask { mode: LauncherMode::ClearReady }, Event::Done) => (
                LauncherFlow::Over,
                Effect::Finish(Event::Done),
            ),
            (LauncherFlow::Ask { mode: LauncherMode::Cleanup }, Event::Done) => (
                LauncherFlow::Over,
                Effect::Finish(Event::Done),
            ),
            (_, Event::Failed(f)) => (LauncherFlow::Over, fail(f)),
            _ => (LauncherFlow::Over, fail(Failure::UnexpectedReply)),
        }
    }
}

impl Flow for LauncherFlow {
    open spec fn leads_to(self, event: Event, next: Self, effect: Effect) -> bool {
        (next, effect) == self.step(event)
    }

    fn next(self, event: Event) -> (r: (Self, Effect)) {
        match (self, event) {
            (LauncherFlow::Login { name, uuid, github_login, mode }, Event::Text(current)) => {
                if same(&current, &github_login) {
                    (LauncherFlow::Ask { mode }, Effect::Gh(GhCall::Launcher { name, uuid, mode }))
                } else {
                    (
                        LauncherFlow::Over,
                        failing(Failure::WrongAccount { current, expected: github_login }),
                    )
                }
            },
            (LauncherFlow::Ask { mode: LauncherMode::State }, Event::Remote(state)) => (
                LauncherFlow::Over,
                Effect::Finish(Event::Remote(state)),
            ),
            (LauncherFlow::Ask { mode: LauncherMode::Ready }, Event::Flag(ready)) => (
                LauncherFlow::Over,
                Effect::Finish(Event::Flag(ready)),
            ),
            (LauncherFlow::Ask { mode: LauncherMode::ClearReady }, Event::Done) => (
                LauncherFlow::Over,
                Effect::Finish(Event::Done),
            ),
            (LauncherFlow::Ask { mode: LauncherMode::Cleanup }, Event::Done) => (
                LauncherFlow::Over,
                Effect::Finish(Event::Done),
            ),
            (_, Event::Failed(f)) => (LauncherFlow::Over, failing(f)),
            _ => (LauncherFlow::Over, failing(Failure::UnexpectedReply)),
        }
    }
}

/// Get the state of the remote session.
pub fn remote_zellij_state(name: String, uuid: String, github_login: String) -> (r: (
    LauncherFlow,
    Effect,
))
    ensures
        r == ask_launcher_begin(name, uuid, github_login, LauncherMode::State),
{
    ask_launcher(name, uuid, github_login, LauncherMode::State)
}

/// Ask whether the remote session has its layout.
pub fn remote_zellij_ready(name: String, uuid: String, github_login: String) -> (r: (
    LauncherFlow,
    Effect,
))
    ensures
        r == ask_launcher_begin(name, uuid, github_login, LauncherMode::Ready),
{
    ask_launcher(name, uuid, github_login, LauncherMode::Ready)
}

/// Delete the exited remote session.
pub fn cleanup_remote_zellij(name: String, uuid: String, github_login: String) -> (r: (
    LauncherFlow,
    Effect,
))
    ensures
        r == ask_launcher_begin(name, uuid, github_login, LauncherMode::Cleanup),
{
    ask_launcher(name, uuid, github_login, LauncherMode::Cleanup)
}

// ── Connecting ──────────────────────────────────────────────────────────────

/// Connecting to the remote session: first its readiness is forgotten, then the client runs
/// until the user detaches or the connection ends.
#[derive(Debug)]
pub enum ConnectFlow {
    Login { name: String, workdir: String, uuid: String, github_login: String, attach_only: bool },
    Clear { name: String, workdir: String, uuid: String, attach_only: bool },
    Connect,
    Over,
}

/// How it begins.
pub open spec fn connect_zellij_begin(
    name: String,
    workdir: String,
    uuid: String,
    github_login: String,
    attach_only: bool,
) -> (ConnectFlow, Effect) {
    if !codespace_name(name@) {
        (ConnectFlow::Over, fail(Failure::InvalidCodespaceName { name }))
    } else if !workspace_path(workdir@) {
        (ConnectFlow::Over, fail(Failure::InvalidWorkdir { workdir }))
    } else if !well_formed_uuid(uuid@) {
        (ConnectFlow::Over, fail(Failure::InvalidUuid { uuid }))
    } else {
        (
            ConnectFlow::Login { name, workdir, uuid, github_login, attach_only },
            Effect::Gh(GhCall::Login),
        )
    }
}

/// Connect to the remote session.
pub fn connect_zellij(
    name: String,
    workdir: String,
    uuid: String,
    github_login: String,
    attach_only: bool,
) -> (r: (ConnectFlow, Effect))
    ensures
        r == connect_zellij_begin(name, workdir, uuid, github_login, attach_only),
{
    if !is_codespace_name(&name) {
        (ConnectFlow::Over, failing(Failure::InvalidCodespaceName { name }))
    } else if !is_workspace_path(&workdir) {
        (ConnectFlow::Over, failing(Failure::InvalidWorkdir { workdir }))
    } else if !is_uuid(&uuid) {
        (ConnectFlow::Over, failing(Failure::InvalidUuid { uuid }))
    } else {
        (
            ConnectFlow::Login { name, workdir, uuid, github_login, attach_only },
            Effect::Gh(GhCall::Login),
        )
    }
}

impl ConnectFlow {
    /// What comes after `event`.
    pub open spec fn step(self, event: Event) -> (ConnectFlow, Effect) {
        match (self, event) {
            (
                ConnectFlow::Login { name, workdir, uuid, github_login, attach_only },
                Event::Text(current),
            ) => {
                if current@ == github_login@ {
                    (
                        ConnectFlow::Clear { name, workdir, uuid, attach_only },
                        Effect::AskLauncher {
                            name,
                            uuid,
                            github_login,
                            mode: LauncherMode::ClearReady,
                        },
                    )
                } else {
                    (
                        ConnectFlow::Over,
                        fail(Failure::WrongAccount { current, expected: github_login }),
                    )
                }
            },
            (ConnectFlow::Clear { name, workdir, uuid, attach_only }, Event::Done) => (
                ConnectFlow::Connect,
                Effect::Gh(GhCall::Connect { name, workdir, uuid, attach_only }),
            ),
            (ConnectFlow::Connect, Event::Exit { success, status }) => (
                ConnectFlow::Over,
                Effect::Finish(Event::Exit { success, status }),
            ),
            (_, Event::Failed(f)) => (ConnectFlow::Over, fail(f)),
            _ => (ConnectFlow::Over, fail(Failure::UnexpectedReply)),
        }
    }
}

impl Flow for ConnectFlow {
    open spec fn leads_to(self, event: Event, next: Self, effect: Effect) -> bool {
        (next, effect) == self.step(event)
    }

    fn next(self, event: Event) -> (r: (Self, Effect)) {
        match (self, event) {
            (
                ConnectFlow::Login { name, workdir, uuid, github_login, attach_only },
                Event::Text(current),
            ) => {
                if same(&current, &github_login) {
                    (
                        ConnectFlow::Clear {
                            name: name.clone(),
                            workdir,
                            uuid: uuid.clone(),
                            attach_only,
                        },
                        Effect::AskLauncher {
                            name,
                            uuid,
                            github_login,
                            mode: LauncherMode::ClearReady,
                        },
                    )
                } else {
                    (
                        ConnectFlow::Over,
                        failing(Failure::WrongAccount { current, expected: github_login }),
                    )
                }
            },
            (ConnectFlow::Clear { name, workdir, uuid, attach_only }, Event::Done) => (
                ConnectFlow::Connect,
                Effect::Gh(GhCall::Connect { name, workdir, uuid, attach_only }),
            ),
            (ConnectFlow::Connect, Event::Exit { success, status }) => (
                ConnectFlow::Over,
                Effect::Finish(Event::Exit { success, status }),
            ),
            (_, Event::Failed(f)) => (ConnectFlow::Over, failing(f)),
            _ => (ConnectFlow::Over, failing(Failure::UnexpectedReply)),
        }
    }
}

// ── Preparing ───────────────────────────────────────────────────────────────

/// Preparing a Codespace: the launcher, the layout and the configuration are copied into it,
/// and unless a session already runs there under tmux, its workspace and tools are checked.
#[derive(Debug)]
pub enum PrepareFlow {
    Login(RemoteSetup),
    CopyLauncher(RemoteSetup),
    CopyLayout(RemoteSetup),
    CopyConfig(RemoteSetup),
    State(RemoteSetup),
    Check,
    Over,
}

/// How it begins.
pub open spec fn prepare_remote_begin(setup: RemoteSetup) -> (PrepareFlow, Effect) {
    if !codespace_name(setup.name@) {
        (PrepareFlow::Over, fail(Failure::InvalidCodespaceName { name: setup.name }))
    } else if !workspace_path(setup.workdir@) {
        (PrepareFlow::Over, fail(Failure::InvalidWorkdir { workdir: setup.workdir }))
    } else if !well_formed_uuid(setup.uuid@) {
        (PrepareFlow::Over, fail(Failure::InvalidUuid { uuid: setup.uuid }))
    } else {
        (PrepareFlow::Login(setup), Effect::Gh(GhCall::Login))
    }
}

/// Prepare a Codespace.
pub fn prepare_remote(setup: RemoteSetup) -> (r: (PrepareFlow, Effect))
    ensures
        r == prepare_remote_begin(setup),
{
    if !is_codespace_name(&setup.name) {
        (PrepareFlow::Over, failing(Failure::InvalidCodespaceName { name: setup.name }))
    } else if !is_workspace_path(&setup.workdir) {
        (PrepareFlow::Over, failing(Failure::InvalidWorkdir { workdir: setup.workdir }))
    } else if !is_uuid(&setup.uuid) {
        (PrepareFlow::Over, failing(Failure::InvalidUuid { uuid: setup.uuid }))
    } else {
        (PrepareFlow::Login(setup), Effect::Gh(GhCall::Login))
    }
}

impl PrepareFlow {
    /// What comes after `event`.
    pub open spec fn step(self, event: Event) -> (PrepareFlow, Effect) {
        match (self, event) {
            (PrepareFlow::Login(setup), Event::Text(current)) => {
                if current@ == setup.github_login@ {
                    let name = setup.name;
                    let source = setup.launcher;
                    (
                        PrepareFlow::CopyLauncher(setup),
                        Effect::Gh(GhCall::Copy { name, source, file: RemoteFile::Launcher }),
                    )
                } else {
                    (
                        PrepareFlow::Over,
                        fail(Failure::WrongAccount { current, expected: setup.github_login }),
                    )
                }
            },
            (PrepareFlow::CopyLauncher(setup), Event::Done) => {
                let name = setup.name;
                let source = setup.layout;
                let file = RemoteFile::Layout { uuid: setup.uuid };
                (PrepareFlow::CopyLayout(setup), Effect::Gh(GhCall::Copy { name, source, file }))
            },
            (PrepareFlow::CopyLayout(setup), Event::Done) => {
                let name = setup.name;
                let source = setup.config;
                (
                    PrepareFlow::CopyConfig(setup),
                    Effect::Gh(GhCall::Copy { name, source, file: RemoteFile::Config }),
                )
            },
            (PrepareFlow::CopyConfig(setup), Event::Done) => {
                let name = setup.name;
                let uuid = setup.uuid;
                let github_login = setup.github_login;
                (
                    PrepareFlow::State(setup),
                    Effect::AskLauncher { name, uuid, github_login, mode: LauncherMode::State },
                )
            },
            (PrepareFlow::State(setup), Event::Remote(RemoteZellijState::LegacyTmux)) => (
                PrepareFlow::Over,
                Effect::Finish(Event::Setup(RemoteSetupOutcome::LegacyTmux)),
            ),
            (PrepareFlow::State(setup), Event::Remote(state)) => (
                PrepareFlow::Check,
                Effect::Gh(
                    GhCall::Check {
                        name: setup.name,
                        workdir: setup.workdir,
                        uuid: setup.uuid,
                        resume: setup.resume,
                    },
                ),
            ),
            (PrepareFlow::Check, Event::Done) => (
                PrepareFlow::Over,
                Effect::Finish(Event::Setup(RemoteSetupOutcome::Ready)),
            ),
            (_, Event::Failed(f)) => (PrepareFlow::Over, fail(f)),
            _ => (PrepareFlow::Over, fail(Failure::UnexpectedReply)),
        }
    }
}

impl Flow for PrepareFlow {
    open spec fn leads_to(self, event: Event, next: Self, effect: Effect) -> bool {
        (next, effect) == self.step(event)
    }

    fn next(self, event: Event) -> (r: (Self, Effect)) {
        match (self, event) {
            (PrepareFlow::Login(setup), Event::Text(current)) => {
                if same(&current, &setup.github_login) {
                    let name = setup.name.clone();
                    let source = setup.launcher.clone();
                    (
                        PrepareFlow::CopyLauncher(setup),
                        Effect::Gh(GhCall::Copy { name, source, file: RemoteFile::Launcher }),
                    )
                } else {
                    (
                        PrepareFlow::Over,
                        failing(Failure::WrongAccount { current, expected: setup.github_login }),
                    )
                }
            },
            (PrepareFlow::CopyLauncher(setup), Event::Done) => {
                let name = setup.name.clone();
                let source = setup.layout.clone();
                let file = RemoteFile::Layout { uuid: setup.uuid.clone() };
                (PrepareFlow::CopyLayout(setup), Effect::Gh(GhCall::Copy { name, source, file }))
            },
            (PrepareFlow::CopyLayout(setup), Event::Done) => {
                let name = setup.name.clone();
                let source = setup.config.clone();
                (
                    PrepareFlow::CopyConfig(setup),
                    Effect::Gh(GhCall::Copy { name, source, file: RemoteFile::Config }),
                )
            },
            (PrepareFlow::CopyConfig(setup), Event::Done) => {
                let name = setup.name.clone();
                let uuid = setup.uuid.clone();
                let github_login = setup.github_login.clone();
                (
                    PrepareFlow::State(setup),
                    Effect::AskLauncher { name, uuid, github_login, mode: LauncherMode::State },
                )
            },
            (PrepareFlow::State(setup), Event::Remote(RemoteZellijState::LegacyTmux)) => (
                PrepareFlow::Over,
                Effect::Finish(Event::Setup(RemoteSetupOutcome::LegacyTmux)),
            ),
            (PrepareFlow::State(setup), Event::Remote(state)) => (
                PrepareFlow::Check,
                Effect::Gh(
                    GhCall::Check {
                        name: setup.name,
                        workdir: setup.workdir,
                        uuid: setup.uuid,
                        resume: setup.resume,
                    },
                ),
            ),
            (PrepareFlow::Check, Event::Done) => (
                PrepareFlow::Over,
                Effect::Finish(Event::Setup(RemoteSetupOutcome::Ready)),
            ),
            (_, Event::Failed(f)) => (PrepareFlow::Over, failing(f)),
            _ => (PrepareFlow::Over, failing(Failure::UnexpectedReply)),
        }
    }
}

// ── Creating ────────────────────────────────────────────────────────────────

/// How often a created Codespace is looked for before it is given up.
pub const CREATE_TRIES: u64 = 20;

/// The milliseconds between two looks.
pub const CREATE_WAIT: u64 = 250;

/// Creating a Codespace. `gh` does not say which one it created, so it is looked for by its
/// display name, a number of times, whether `gh` reported success or not. Only the last look
/// decides whether it was a failed look or no find.
#[derive(Debug)]
pub enum CreateFlow {
    Create { repo: RepoInfo, session_name: String, uuid: String },
    Look { session_name: String, uuid: String, success: bool, status: String, left: u64 },
    Wait {
        session_name: String,
        uuid: String,
        success: bool,
        status: String,
        left: u64,
        failed: Option<Failure>,
    },
    Over,
}

/// How it begins.
pub open spec fn create_begin(
    repo: RepoInfo,
    session_name: String,
    uuid: String,
) -> (CreateFlow, Effect) {
    (
        CreateFlow::Create {
            repo,
            session_name,
            uuid,
        },
        Effect::Gh(GhCall::Create { repo, session_name, uuid }),
    )
}

/// Create a Codespace for a session.
pub fn create(repo: RepoInfo, session_name: String, uuid: String) -> (r: (CreateFlow, Effect))
    ensures
        r == create_begin(repo, session_name, uuid),
{
    (
        CreateFlow::Create {
            repo: repo.clone(),
            session_name: session_name.clone(),
            uuid: uuid.clone(),
        },
        Effect::Gh(GhCall::Create { repo, session_name, uuid }),
    )
}

impl CreateFlow {
    /// What comes after `event`.
    pub open spec fn step(self, event: Event) -> (CreateFlow, Effect) {
        match (self, event) {
            (CreateFlow::Create { repo, session_name, uuid }, Event::Exit { success, status }) => (
                CreateFlow::Look {
                    session_name,
                    uuid,
                    success,
                    status,
                    left: CREATE_TRIES,
                },
                Effect::Gh(GhCall::FindCreated { session_name, uuid }),
            ),
            (
                CreateFlow::Look { session_name, uuid, success, status, left },
                Event::MaybeText(Some(name)),
            ) => {
                if codespace_name(name@) {
                    (CreateFlow::Over, Effect::Finish(Event::Text(name)))
                } else {
                    (CreateFlow::Over, fail(Failure::InvalidCodespaceName { name }))
                }
            },
            (CreateFlow::Look { session_name, uuid, success, status, left }, Event::MaybeText(None)) => (
                CreateFlow::Wait { session_name, uuid, success, status, left, failed: None },
                Effect::Wait { millis: CREATE_WAIT },
            ),
            (CreateFlow::Look { session_name, uuid, success, status, left }, Event::Failed(f)) => (
                CreateFlow::Wait { session_name, uuid, success, status, left, failed: Some(f) },
                Effect::Wait { millis: CREATE_WAIT },
            ),
            (CreateFlow::Wait { session_name, uuid, success, status, left, failed }, _) => {
                if left > 1 {
                    (
                        CreateFlow::Look {
                            session_name,
                            uuid,
                            success,
                            status,
                            left: (left - 1) as u64,
                        },
                        Effect::Gh(GhCall::FindCreated { session_name, uuid }),
                    )
                } else {
                    match failed {
                        Some(f) => (
                            CreateFlow::Over,
                            fail(Failure::Unresolved { session_name, uuid, cause: Box::new(f) }),
                        ),
                        None => if !success {
                            (CreateFlow::Over, fail(Failure::CreateFailed { status }))
                        } else {
                            (
                                CreateFlow::Over,
                                fail(Failure::CreatedNotFound { session_name, uuid }),
                            )
                        },
                    }
                }
            },
            (_, Event::Failed(f)) => (CreateFlow::Over, fail(f)),
            _ => (CreateFlow::Over, fail(Failure::UnexpectedReply)),
        }
    }
}

impl Flow for CreateFlow {
    open spec fn leads_to(self, event: Event, next: Self, effect: Effect) -> bool {
        (next, effect) == self.step(event)
    }

    fn next(self, event: Event) -> (r: (Self, Effect)) {
        match (self, event) {
            (CreateFlow::Create { repo, session_name, uuid }, Event::Exit { success, status }) => (
                CreateFlow::Look {
                    session_name: session_name.clone(),
                    uuid: uuid.clone(),
                    success,
                    status,
                    left: CREATE_TRIES,
                },
                Effect::Gh(GhCall::FindCreated { session_name, uuid }),
            ),
            (
                CreateFlow::Look { session_name, uuid, success, status, left },
                Event::MaybeText(Some(name)),
            ) => {
                if is_codespace_name(&name) {
                    (CreateFlow::Over, Effect::Finish(Event::Text(name)))
                } else {
                    (CreateFlow::Over, failing(Failure::InvalidCodespaceName { name }))
                }
            },
            (CreateFlow::Look { session_name, uuid, success, status, left }, Event::MaybeText(None)) => (
                CreateFlow::Wait { session_name, uuid, success, status, left, failed: None },
                Effect::Wait { millis: CREATE_WAIT },
            ),
            (CreateFlow::Look { session_name, uuid, success, status, left }, Event::Failed(f)) => (
                CreateFlow::Wait { session_name, uuid, success, status, left, failed: Some(f) },
                Effect::Wait { millis: CREATE_WAIT },
            ),
            (CreateFlow::Wait { session_name, uuid, success, status, left, failed }, _) => {
                if left > 1 {
                    (
                        CreateFlow::Look {
                            session_name: session_name.clone(),
                            uuid: uuid.clone(),
                            success,
                            status,
                            left: left - 1,
                        },
                        Effect::Gh(GhCall::FindCreated { session_name, uuid }),
                    )
                } else {
                    match failed {
                        Some(f) => (
                            CreateFlow::Over,
                            failing(Failure::Unresolved { session_name, uuid, cause: Box::new(f) }),
                        ),
                        None => if !success {
                            (CreateFlow::Over, failing(Failure::CreateFailed { status }))
                        } else {
                            (
                                CreateFlow::Over,
                                failing(Failure::CreatedNotFound { session_name, uuid }),
                            )
                        },
                    }
                }
            },
            (_, Event::Failed(f)) => (CreateFlow::Over, failing(f)),
            _ => (CreateFlow::Over, failing(Failure::UnexpectedReply)),
        }
    }
}

} // verus!
