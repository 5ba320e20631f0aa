//! Local sessions: starting them, looking after them, and clearing them away.

use vstd::prelude::*;

use crate::commands::RowChange;
use crate::display::{short_text, short_uuid};
use crate::failure::Failure;
use crate::flow::{fail, failing, Effect, Event, Flow};
use crate::git::{dir_path, dir_text, Dir};
use crate::remark::{one, remark, Narrated, Remark, Topic};
use crate::zellij::{listed, runs, LocalCommand, State};

verus! {

/// The zellij session of a UUID runs.
pub open spec fn zellij_runs(sessions: Seq<(Seq<char>, bool)>, uuid: Seq<char>) -> bool {
    runs(sessions, short_text(uuid))
}

/// The zellij session of a UUID exists.
pub open spec fn zellij_listed(sessions: Seq<(Seq<char>, bool)>, uuid: Seq<char>) -> bool {
    listed(sessions, short_text(uuid))
}

/// Whether the zellij session of a UUID runs.
pub fn session_runs(sessions: &State, uuid: &str) -> (r: bool)
    ensures
        r == zellij_runs(sessions@, uuid@),
{
    sessions.is_running(&short_uuid(uuid))
}

/// Whether the zellij session of a UUID exists.
pub fn session_listed(sessions: &State, uuid: &str) -> (r: bool)
    ensures
        r == zellij_listed(sessions@, uuid@),
{
    sessions.is_listed(&short_uuid(uuid))
}

/// Running the zellij client, then noting that the session was used when the user detaches. If
/// the user quit zellij, the exited session is deleted, so that it shows as "stopped" rather
/// than "exited".
#[derive(Debug)]
pub enum EnterLocalFlow {
    Client { session_name: String, uuid: String },
    Check { session_name: String, uuid: String, status: String },
    Find { session_name: String, uuid: String },
    Touch { uuid: String },
    Query { uuid: String },
    Cleanup,
    Over,
}

/// How it begins.
pub open spec fn enter_local_zellij_begin(
    session_name: String,
    uuid: String,
    command: LocalCommand,
) -> (EnterLocalFlow, Effect) {
    (EnterLocalFlow::Client { session_name, uuid }, Effect::Client(command))
}

/// Run the zellij client and look after the session.
pub fn enter_local_zellij(
    session_name: String,
    uuid: String,
    command: LocalCommand,
) -> (r: (EnterLocalFlow, Effect))
    ensures
        r == enter_local_zellij_begin(session_name, uuid, command),
{
    (EnterLocalFlow::Client { session_name, uuid }, Effect::Client(command))
}

impl EnterLocalFlow {
    /// What comes after `event`.
    pub open spec fn step(self, event: Event) -> (EnterLocalFlow, Effect) {
        match (self, event) {
            (EnterLocalFlow::Client { session_name, uuid }, Event::Exit { success, status }) => {
                if success {
                    (EnterLocalFlow::Find { session_name, uuid }, Effect::FindByUuid { uuid })
                } else {
                    (EnterLocalFlow::Check { session_name, uuid, status }, Effect::QueryZellij)
                }
            },
            (EnterLocalFlow::Client { .. }, Event::Failed(f)) => (
                EnterLocalFlow::Over,
                fail(Failure::ZellijNotRun { cause: Box::new(f) }),
            ),
            (EnterLocalFlow::Check { session_name, uuid, status }, Event::Zellij(sessions)) => {
                if zellij_listed(sessions@, uuid@) {
                    (EnterLocalFlow::Find { session_name, uuid }, Effect::FindByUuid { uuid })
                } else {
                    (EnterLocalFlow::Over, fail(Failure::NotStarted { status, uuid }))
                }
            },
            (EnterLocalFlow::Find { uuid, .. }, Event::Row(Some(row))) => (
                EnterLocalFlow::Touch { uuid },
                Effect::Update { row, change: RowChange::Touch },
            ),
            (EnterLocalFlow::Find { uuid, .. }, Event::Row(None)) => (
                EnterLocalFlow::Query { uuid },
                Effect::QueryZellij,
            ),
            (EnterLocalFlow::Touch { uuid }, Event::Done) => (
                EnterLocalFlow::Query { uuid },
                Effect::QueryZellij,
            ),
            (EnterLocalFlow::Query { uuid }, Event::Zellij(sessions)) => {
                if !zellij_runs(sessions@, uuid@) && zellij_listed(sessions@, uuid@) {
                    (EnterLocalFlow::Cleanup, Effect::CleanupZellij { uuid })
                } else {
                    (EnterLocalFlow::Over, Effect::Finish(Event::Done))
                }
            },
            (EnterLocalFlow::Cleanup, _) => (EnterLocalFlow::Over, Effect::Finish(Event::Done)),
            (_, Event::Failed(f)) => (EnterLocalFlow::Over, fail(f)),
            _ => (EnterLocalFlow::Over, fail(Failure::UnexpectedReply)),
        }
    }
}

impl Flow for EnterLocalFlow {
    open spec fn leads_to(self, event: Event, next: Self, effect: Effect) -> bool {
        (next, effect) == self.step(event)
    }

    fn next(self, event: Event) -> (r: (Self, Effect)) {
        match (self, event) {
            (EnterLocalFlow::Client { session_name, uuid }, Event::Exit { success, status }) => {
                if success {
                    (
                        EnterLocalFlow::Find { session_name, uuid: uuid.clone() },
                        Effect::FindByUuid { uuid },
                    )
                } else {
                    (EnterLocalFlow::Check { session_name, uuid, status }, Effect::QueryZellij)
                }
            },
            (EnterLocalFlow::Client { .. }, Event::Failed(f)) => (
                EnterLocalFlow::Over,
                failing(Failure::ZellijNotRun { cause: Box::new(f) }),
            ),
            (EnterLocalFlow::Check { session_name, uuid, status }, Event::Zellij(sessions)) => {
                if session_listed(&sessions, &uuid) {
                    (
                        EnterLocalFlow::Find { session_name, uuid: uuid.clone() },
                        Effect::FindByUuid { uuid },
                    )
                } else {
                    (EnterLocalFlow::Over, failing(Failure::NotStarted { status, uuid }))
                }
            },
            (EnterLocalFlow::Find { uuid, .. }, Event::Row(Some(row))) => (
                EnterLocalFlow::Touch { uuid },
                Effect::Update { row, change: RowChange::Touch },
            ),
            (EnterLocalFlow::Find { uuid, .. }, Event::Row(None)) => (
                EnterLocalFlow::Query { uuid },
                Effect::QueryZellij,
            ),
            (EnterLocalFlow::Touch { uuid }, Event::Done) => (
                EnterLocalFlow::Query { uuid },
                Effect::QueryZellij,
            ),
            (EnterLocalFlow::Query { uuid }, Event::Zellij(sessions)) => {
                if !session_runs(&sessions, &uuid) && session_listed(&sessions, &uuid) {
                    (EnterLocalFlow::Cleanup, Effect::CleanupZellij { uuid })
                } else {
                    (EnterLocalFlow::Over, Effect::Finish(Event::Done))
                }
            },
            (EnterLocalFlow::Cleanup, _) => (EnterLocalFlow::Over, Effect::Finish(Event::Done)),
            (_, Event::Failed(f)) => (EnterLocalFlow::Over, failing(f)),
            _ => (EnterLocalFlow::Over, failing(Failure::UnexpectedReply)),
        }
    }
}

impl Narrated for EnterLocalFlow {
    open spec fn told<'a>(&'a self, event: &'a Event) -> Seq<Remark<'a>> {
        match (self, event) {
            (EnterLocalFlow::Find { session_name, uuid }, Event::Row(None)) => seq![
                Remark {
                    name: Some(session_name),
                    uuid: Some(uuid),
                    ..remark(Topic::MissingAfterDetach)
                },
            ],
            _ => Seq::empty(),
        }
    }

    fn remarks<'a>(&'a self, event: &'a Event) -> (r: Vec<Remark<'a>>) {
        match (self, event) {
            (EnterLocalFlow::Find { session_name, uuid }, Event::Row(None)) => one(
                Remark {
                    name: Some(session_name),
                    uuid: Some(uuid),
                    ..remark(Topic::MissingAfterDetach)
                },
            ),
            _ => Vec::new(),
        }
    }
}

/// Starting a local session whose `ai` tab runs the copilot launcher. The launcher itself
/// creates the copilot session on its first launch and resumes it later, by a per-session
/// marker. With `resume` the marker is made sure of first, so that the launcher resumes even
/// sessions from before it existed.
#[derive(Debug)]
pub enum StartLocalFlow {
    Launcher { session_name: String, uuid: String, dir: Dir, resume: bool, include_git: bool },
    Layout { session_name: String, uuid: String, dir: Dir, resume: bool },
    Config { session_name: String, uuid: String, dir: Dir, resume: bool, layout: String },
    Marker { session_name: String, uuid: String, dir: Dir, layout: String, config: String },
    Enter,
    Over,
}

/// How it begins.
pub open spec fn start_local_zellij_session_begin(
    session_name: String,
    uuid: String,
    dir: Dir,
    resume: bool,
    include_git: bool,
) -> (StartLocalFlow, Effect) {
    (StartLocalFlow::Launcher { session_name, uuid, dir, resume, include_git }, Effect::WriteLauncher)
}

/// Start a local session.
pub fn start_local_zellij_session(
    session_name: String,
    uuid: String,
    dir: Dir,
    resume: bool,
    include_git: bool,
) -> (r: (StartLocalFlow, Effect))
    ensures
        r == start_local_zellij_session_begin(session_name, uuid, dir, resume, include_git),
{
    (StartLocalFlow::Launcher { session_name, uuid, dir, resume, include_git }, Effect::WriteLauncher)
}

impl StartLocalFlow {
    /// What comes after `event`.
    pub open spec fn step(self, event: Event) -> (StartLocalFlow, Effect) {
        match (self, event) {
            (StartLocalFlow::Launcher { session_name, uuid, dir, resume, include_git }, Event::Text(launcher)) => (
                StartLocalFlow::Layout { session_name, uuid, dir, resume },
                Effect::WriteLayout { uuid, launcher, include_git },
            ),
            (StartLocalFlow::Layout { session_name, uuid, dir, resume }, Event::Text(layout)) => (
                StartLocalFlow::Config { session_name, uuid, dir, resume, layout },
                Effect::WriteConfig,
            ),
            (StartLocalFlow::Config { session_name, uuid, dir, resume, layout }, Event::Text(config)) => {
                if resume {
                    (
                        StartLocalFlow::Marker { session_name, uuid, dir, layout, config },
                        Effect::WriteMarker { uuid },
                    )
                } else {
                    (
                        StartLocalFlow::Enter,
                        Effect::EnterLocal {
                            session_name,
                            uuid,
                            command: LocalCommand::Launch { config, layout, uuid, dir },
                        },
                    )
                }
            },
            (StartLocalFlow::Marker { session_name, uuid, dir, layout, config }, Event::Done) => (
                StartLocalFlow::Enter,
                Effect::EnterLocal {
                    session_name,
                    uuid,
                    command: LocalCommand::Launch { config, layout, uuid, dir },
                },
            ),
            (StartLocalFlow::Enter, Event::Done) => (
                StartLocalFlow::Over,
                Effect::Finish(Event::Done),
            ),
            (_, Event::Failed(f)) => (StartLocalFlow::Over, fail(f)),
            _ => (StartLocalFlow::Over, fail(Failure::UnexpectedReply)),
        }
    }
}

impl Flow for StartLocalFlow {
    open spec fn leads_to(self, event: Event, next: Self, effect: Effect) -> bool {
        (next, effect) == self.step(event)
    }

    fn next(self, event: Event) -> (r: (Self, Effect)) {
        match (self, event) {
            (StartLocalFlow::Launcher { session_name, uuid, dir, resume, include_git }, Event::Text(launcher)) => (
                StartLocalFlow::Layout { session_name, uuid: uuid.clone(), dir, resume },
                Effect::WriteLayout { uuid, launcher, include_git },
            ),
            (StartLocalFlow::Layout { session_name, uuid, dir, resume }, Event::Text(layout)) => (
                StartLocalFlow::Config { session_name, uuid, dir, resume, layout },
                Effect::WriteConfig,
            ),
            (StartLocalFlow::Config { session_name, uuid, dir, resume, layout }, Event::Text(config)) => {
                if resume {
                    (
                        StartLocalFlow::Marker { session_name, uuid: uuid.clone(), dir, layout, config },
                        Effect::WriteMarker { uuid },
                    )
                } else {
                    (
                        StartLocalFlow::Enter,
                        Effect::EnterLocal {
                            session_name,
                            uuid: uuid.clone(),
                            command: LocalCommand::Launch { config, layout, uuid, dir },
                        },
                    )
                }
            },
            (StartLocalFlow::Marker { session_name, uuid, dir, layout, config }, Event::Done) => (
                StartLocalFlow::Enter,
                Effect::EnterLocal {
                    session_name,
                    uuid: uuid.clone(),
                    command: LocalCommand::Launch { config, layout, uuid, dir },
                },
            ),
            (StartLocalFlow::Enter, Event::Done) => (
                StartLocalFlow::Over,
                Effect::Finish(Event::Done),
            ),
            (_, Event::Failed(f)) => (StartLocalFlow::Over, failing(f)),
            _ => (StartLocalFlow::Over, failing(Failure::UnexpectedReply)),
        }
    }
}

/// How often a killed zellij session is deleted and looked for before it is given up.
pub const STOP_TRIES: u64 = 50;

/// The milliseconds between two looks.
pub const STOP_WAIT: u64 = 100;

/// Killing a zellij session and waiting until it is gone. It ends with whether the session was
/// confirmed removed.
#[derive(Debug)]
pub enum StopZellijFlow {
    Kill { uuid: String },
    Cleanup { uuid: String, left: u64 },
    Look { uuid: String, left: u64 },
    Wait { uuid: String, left: u64 },
    Over,
}

/// How it begins.
pub open spec fn stop_and_cleanup_begin(uuid: String) -> (StopZellijFlow, Effect) {
    (StopZellijFlow::Kill { uuid }, Effect::KillZellij { uuid })
}

/// Kill a zellij session and wait until it is gone.
pub fn stop_and_cleanup(uuid: String) -> (r: (StopZellijFlow, Effect))
    ensures
        r == stop_and_cleanup_begin(uuid),
{
    (StopZellijFlow::Kill { uuid: uuid.clone() }, Effect::KillZellij { uuid })
}

impl StopZellijFlow {
    /// What comes after `event`.
    pub open spec fn step(self, event: Event) -> (StopZellijFlow, Effect) {
        match (self, event) {
            (StopZellijFlow::Kill { uuid }, _) => (
                StopZellijFlow::Cleanup { uuid, left: STOP_TRIES },
                Effect::CleanupZellij { uuid },
            ),
            (StopZellijFlow::Cleanup { uuid, left }, _) => (
                StopZellijFlow::Look { uuid, left },
                Effect::ZellijListed { uuid },
            ),
            (StopZellijFlow::Look { uuid, left }, Event::Flag(present)) => {
                if present {
                    (StopZellijFlow::Wait { uuid, left }, Effect::Wait { millis: STOP_WAIT })
                } else {
                    (StopZellijFlow::Over, Effect::Finish(Event::Flag(true)))
                }
            },
            (StopZellijFlow::Wait { uuid, left }, _) => {
                if left > 1 {
                    (
                        StopZellijFlow::Cleanup { uuid, left: (left - 1) as u64 },
                        Effect::CleanupZellij { uuid },
                    )
                } else {
                    (StopZellijFlow::Over, Effect::Finish(Event::Flag(false)))
                }
            },
            (_, Event::Failed(f)) => (StopZellijFlow::Over, fail(f)),
            _ => (StopZellijFlow::Over, fail(Failure::UnexpectedReply)),
        }
    }
}

impl Flow for StopZellijFlow {
    open spec fn leads_to(self, event: Event, next: Self, effect: Effect) -> bool {
        (next, effect) == self.step(event)
    }

    fn next(self, event: Event) -> (r: (Self, Effect)) {
        match (self, event) {
            (StopZellijFlow::Kill { uuid }, _) => (
                StopZellijFlow::Cleanup { uuid: uuid.clone(), left: STOP_TRIES },
                Effect::CleanupZellij { uuid },
            ),
            (StopZellijFlow::Cleanup { uuid, left }, _) => (
                StopZellijFlow::Look { uuid: uuid.clone(), left },
                Effect::ZellijListed { uuid },
            ),
            (StopZellijFlow::Look { uuid, left }, Event::Flag(present)) => {
                if present {
                    (StopZellijFlow::Wait { uuid, left }, Effect::Wait { millis: STOP_WAIT })
                } else {
                    (StopZellijFlow::Over, Effect::Finish(Event::Flag(true)))
                }
            },
            (StopZellijFlow::Wait { uuid, left }, _) => {
                if left > 1 {
                    (
                        StopZellijFlow::Cleanup { uuid: uuid.clone(), left: left - 1 },
                        Effect::CleanupZellij { uuid },
                    )
                } else {
                    (StopZellijFlow::Over, Effect::Finish(Event::Flag(false)))
                }
            },
            (_, Event::Failed(f)) => (StopZellijFlow::Over, failing(f)),
            _ => (StopZellijFlow::Over, failing(Failure::UnexpectedReply)),
        }
    }
}

/// Removing a worktree: with `git`, and if that fails by deleting its directory and pruning
/// the worktrees of its repository. It fails only if the directory is still there.
#[derive(Debug)]
pub enum RemoveWorktreeFlow {
    Git { repo: String, dir: Dir },
    Delete { repo: String, dir: Dir, complaint: String },
    Prune { dir: Dir, complaint: String },
    Look { dir: Dir, complaint: String },
    Over,
}

/// How it begins.
pub open spec fn remove_worktree_begin(repo: String, dir: Dir) -> (RemoveWorktreeFlow, Effect) {
    (RemoveWorktreeFlow::Git { repo, dir }, Effect::GitRemoveWorktree { repo, dir })
}

/// Remove a worktree.
pub fn remove_worktree(repo: String, dir: Dir) -> (r: (RemoveWorktreeFlow, Effect))
    ensures
        r == remove_worktree_begin(repo, dir),
{
    (
        RemoveWorktreeFlow::Git { repo: repo.clone(), dir: dir.clone() },
        Effect::GitRemoveWorktree { repo, dir },
    )
}

impl Flow for RemoveWorktreeFlow {
    open spec fn leads_to(self, event: Event, next: Self, effect: Effect) -> bool {
        match (self, event) {
            (RemoveWorktreeFlow::Git { repo, dir }, Event::MaybeText(None)) => (next, effect) == (
                RemoveWorktreeFlow::Over,
                Effect::Finish(Event::Done),
            ),
            (RemoveWorktreeFlow::Git { repo, dir }, Event::MaybeText(Some(complaint))) => (
                next,
                effect,
            ) == (
                (RemoveWorktreeFlow::Delete { repo, dir, complaint }),
                (Effect::DeleteDir { dir }),
            ),
            (RemoveWorktreeFlow::Delete { repo, dir, complaint }, _) => (next, effect) == (
                (RemoveWorktreeFlow::Prune { dir, complaint }),
                (Effect::PruneWorktrees { repo }),
            ),
            (RemoveWorktreeFlow::Prune { dir, complaint }, _) => (next, effect) == (
                (RemoveWorktreeFlow::Look { dir, complaint }),
                (Effect::DirExists { dir }),
            ),
            (RemoveWorktreeFlow::Look { dir, complaint }, Event::Flag(present)) => {
                &&& next is Over
                &&& if !present {
                    effect == Effect::Finish(Event::Done)
                } else if complaint@.len() == 0 {
                    effect matches Effect::Finish(Event::Failed(Failure::WorktreeStays { path }))
                        && path@ == dir_text(dir)
                } else {
                    effect matches Effect::Finish(
                        Event::Failed(Failure::WorktreeStaysWith { path, stderr }),
                    ) && path@ == dir_text(dir) && stderr == complaint
                }
            },
            (_, Event::Failed(f)) => (next, effect) == (RemoveWorktreeFlow::Over, fail(f)),
            _ => (next, effect) == (RemoveWorktreeFlow::Over, fail(Failure::UnexpectedReply)),
        }
    }

    fn next(self, event: Event) -> (r: (Self, Effect)) {
        match (self, event) {
            (RemoveWorktreeFlow::Git { repo, dir }, Event::MaybeText(None)) => (
                RemoveWorktreeFlow::Over,
                Effect::Finish(Event::Done),
            ),
            (RemoveWorktreeFlow::Git { repo, dir }, Event::MaybeText(Some(complaint))) => (
                RemoveWorktreeFlow::Delete { repo, dir: dir.clone(), complaint },
                Effect::DeleteDir { dir },
            ),
            (RemoveWorktreeFlow::Delete { repo, dir, complaint }, _) => (
                RemoveWorktreeFlow::Prune { dir, complaint },
                Effect::PruneWorktrees { repo },
            ),
            (RemoveWorktreeFlow::Prune { dir, complaint }, _) => (
                RemoveWorktreeFlow::Look { dir: dir.clone(), complaint },
                Effect::DirExists { dir },
            ),
            (RemoveWorktreeFlow::Look { dir, complaint }, Event::Flag(present)) => (
                RemoveWorktreeFlow::Over,
                if !present {
                    Effect::Finish(Event::Done)
                } else if complaint.as_str().is_empty() {
                    failing(Failure::WorktreeStays { path: dir_path(&dir) })
                } else {
                    failing(
                        Failure::WorktreeStaysWith { path: dir_path(&dir), stderr: complaint },
                    )
                },
            ),
            (_, Event::Failed(f)) => (RemoveWorktreeFlow::Over, failing(f)),
            _ => (RemoveWorktreeFlow::Over, failing(Failure::UnexpectedReply)),
        }
    }
}

} // verus!
