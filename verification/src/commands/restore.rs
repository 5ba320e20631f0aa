//! `restore`: restore a removed session.

use vstd::prelude::*;

use crate::codespace::operations::{is_shutdown, shut_down};

use crate::commands::{
    codespace_details, details_of, CodespaceDetails, RowChange, BACKEND_CODESPACE, BACKEND_LOCAL,
    STATUS_REMOVED,
};
use crate::entity::session::Model;
use crate::failure::Failure;
use crate::flow::{fail, failing, Effect, Event, Flow};
use crate::git::{BranchRef, Dir};
use crate::remark::{one, remark, Narrated, Remark, Topic};
use crate::text::same;

verus! {

/// Restoring a removed session. A local session gets its worktree back from its branch. A
/// Codespace session is prepared first, which also starts its Codespace; if that or storing it
/// fails, a Codespace that was shut down is stopped again, and if connecting fails, the session
/// is marked as removed again and its Codespace stopped.
#[derive(Debug)]
pub enum RestoreFlow {
    Resolve,
    Exists { session: Model },
    Create { session: Model },
    Activate { name: String, uuid: String, dir: Dir },
    IsGit { name: String, uuid: String, dir: Dir },
    Local,
    State { session: Model, details: CodespaceDetails },
    SetUp { session: Model, details: CodespaceDetails, initial: String },
    Use { session: Model, details: CodespaceDetails, initial: String },
    Enter { details: CodespaceDetails, name: String, uuid: String },
    Mark { details: CodespaceDetails, name: String, uuid: String, failure: Failure },
    Stop { failure: Failure, topic: Topic, name: String, uuid: String, codespace: String },
    Over,
}

/// How it begins.
pub open spec fn restore_begin(name: String) -> (RestoreFlow, Effect) {
    (RestoreFlow::Resolve, Effect::Resolve { query: name })
}

/// Restore a removed session.
pub fn restore(name: String) -> (r: (RestoreFlow, Effect))
    ensures
        r == restore_begin(name),
{
    (RestoreFlow::Resolve, Effect::Resolve { query: name })
}

impl RestoreFlow {
    /// What comes after `event`.
    pub open spec fn step(self, event: Event) -> (RestoreFlow, Effect) {
        match (self, event) {
            (RestoreFlow::Resolve, Event::Row(Some(session))) => {
                if session.status@ != STATUS_REMOVED@ {
                    (
                        RestoreFlow::Over,
                        fail(Failure::NotRemoved { name: session.name, status: session.status }),
                    )
                } else if session.backend@ == BACKEND_LOCAL@ {
                    let branch = BranchRef::Named(session.branch);
                    let repo = Some(session.source_repo);
                    (RestoreFlow::Exists { session }, Effect::BranchExists { branch, repo })
                } else if session.backend@ == BACKEND_CODESPACE@ {
                    match details_of(session) {
                        Err(f) => (RestoreFlow::Over, fail(f)),
                        Ok(details) => {
                            let name = details.name;
                            let github_login = details.github_login;
                            (
                                RestoreFlow::State { session, details },
                                Effect::CurrentState { name, github_login },
                            )
                        },
                    }
                } else {
                    (
                        RestoreFlow::Over,
                        fail(Failure::UnknownBackend { name: session.name, backend: session.backend }),
                    )
                }
            },
            (RestoreFlow::Exists { session }, Event::Flag(present)) => {
                if present {
                    let dir = Dir::At(session.worktree_path);
                    let branch = BranchRef::Named(session.branch);
                    let repo = Some(session.source_repo);
                    (
                        RestoreFlow::Create { session },
                        Effect::CreateWorktree { dir, branch, new_branch: false, repo },
                    )
                } else {
                    (RestoreFlow::Over, fail(Failure::BranchGone { branch: session.branch }))
                }
            },
            (RestoreFlow::Create { session }, Event::Done) => (
                RestoreFlow::Activate {
                    name: session.name,
                    uuid: session.copilot_uuid,
                    dir: Dir::At(session.worktree_path),
                },
                Effect::Update { row: session, change: RowChange::Activate },
            ),
            (RestoreFlow::Activate { name, uuid, dir }, Event::Done) => (
                RestoreFlow::IsGit { name, uuid, dir },
                Effect::IsGitRepo { dir },
            ),
            (RestoreFlow::IsGit { name, uuid, dir }, Event::Flag(include_git)) => (
                RestoreFlow::Local,
                Effect::StartLocal {
                    session_name: name,
                    uuid,
                    dir,
                    resume: true,
                    include_git,
                },
            ),
            (RestoreFlow::Local, Event::Done) => (RestoreFlow::Over, Effect::Finish(Event::Done)),
            (RestoreFlow::State { session, details }, Event::Text(initial)) => {
                let name = details.name;
                let workdir = details.workdir;
                let uuid = session.copilot_uuid;
                let github_login = details.github_login;
                (
                    RestoreFlow::SetUp { session, details, initial },
                    Effect::SetUp { name, workdir, uuid, resume: true, github_login },
                )
            },
            (RestoreFlow::SetUp { session, details, initial }, Event::Setup(outcome)) => (
                RestoreFlow::Use { session, details, initial },
                Effect::Update { row: session, change: RowChange::Activate },
            ),
            (RestoreFlow::SetUp { session, details, initial }, Event::Failed(failure)) => {
                if is_shutdown(initial@) {
                    (
                        RestoreFlow::Stop {
                            failure,
                            topic: Topic::StopAfterRestoreSetup,
                            name: session.name,
                            uuid: session.copilot_uuid,
                            codespace: details.name,
                        },
                        Effect::StopAndCache {
                            name: details.name,
                            github_login: details.github_login,
                            uuid: session.copilot_uuid,
                        },
                    )
                } else {
                    (RestoreFlow::Over, fail(failure))
                }
            },
            (RestoreFlow::Use { session, details, initial }, Event::Done) => (
                RestoreFlow::Enter {
                    details,
                    name: session.name,
                    uuid: session.copilot_uuid,
                },
                Effect::EnterCodespace { session, attach_only: false },
            ),
            (RestoreFlow::Use { session, details, initial }, Event::Failed(failure)) => {
                if is_shutdown(initial@) {
                    (
                        RestoreFlow::Stop {
                            failure,
                            topic: Topic::StopAfterRestoreUpdate,
                            name: session.name,
                            uuid: session.copilot_uuid,
                            codespace: details.name,
                        },
                        Effect::StopAndCache {
                            name: details.name,
                            github_login: details.github_login,
                            uuid: session.copilot_uuid,
                        },
                    )
                } else {
                    (RestoreFlow::Over, fail(failure))
                }
            },
            (RestoreFlow::Enter { details, name, uuid }, Event::Done) => (
                RestoreFlow::Over,
                Effect::Finish(Event::Done),
            ),
            (RestoreFlow::Enter { details, name, uuid }, Event::Failed(failure)) => (
                RestoreFlow::Mark { details, name, uuid, failure },
                Effect::MarkRemoved { uuid },
            ),
            (RestoreFlow::Mark { details, name, uuid, failure }, _) => (
                RestoreFlow::Stop {
                    failure,
                    topic: Topic::StopAfterRestoreConnection,
                    name,
                    uuid,
                    codespace: details.name,
                },
                Effect::StopAndCache {
                    name: details.name,
                    github_login: details.github_login,
                    uuid,
                },
            ),
            (RestoreFlow::Stop { failure, .. }, _) => (RestoreFlow::Over, fail(failure)),
            (_, Event::Failed(f)) => (RestoreFlow::Over, fail(f)),
            _ => (RestoreFlow::Over, fail(Failure::UnexpectedReply)),
        }
    }
}

impl Flow for RestoreFlow {
    open spec fn leads_to(self, event: Event, next: Self, effect: Effect) -> bool {
        (next, effect) == self.step(event)
    }

    fn next(self, event: Event) -> (r: (Self, Effect)) {
        match (self, event) {
            (RestoreFlow::Resolve, Event::Row(Some(session))) => {
                if !same(&session.status, STATUS_REMOVED) {
                    (
                        RestoreFlow::Over,
                        failing(Failure::NotRemoved { name: session.name, status: session.status }),
                    )
                } else if same(&session.backend, BACKEND_LOCAL) {
                    let branch = BranchRef::Named(session.branch.clone());
                    let repo = Some(session.source_repo.clone());
                    (RestoreFlow::Exists { session }, Effect::BranchExists { branch, repo })
                } else if same(&session.backend, BACKEND_CODESPACE) {
                    match codespace_details(&session) {
                        Err(f) => (RestoreFlow::Over, failing(f)),
                        Ok(details) => {
                            let name = details.name.clone();
                            let github_login = details.github_login.clone();
                            (
                                RestoreFlow::State { session, details },
                                Effect::CurrentState { name, github_login },
                            )
                        },
                    }
                } else {
                    (
                        RestoreFlow::Over,
                        failing(Failure::UnknownBackend { name: session.name, backend: session.backend }),
                    )
                }
            },
            (RestoreFlow::Exists { session }, Event::Flag(present)) => {
                if present {
                    let dir = Dir::At(session.worktree_path.clone());
                    let branch = BranchRef::Named(session.branch.clone());
                    let repo = Some(session.source_repo.clone());
                    (
                        RestoreFlow::Create { session },
                        Effect::CreateWorktree { dir, branch, new_branch: false, repo },
                    )
                } else {
                    (RestoreFlow::Over, failing(Failure::BranchGone { branch: session.branch }))
                }
            },
            (RestoreFlow::Create { session }, Event::Done) => (
                RestoreFlow::Activate {
                    name: session.name.clone(),
                    uuid: session.copilot_uuid.clone(),
                    dir: Dir::At(session.worktree_path.clone()),
                },
                Effect::Update { row: session, change: RowChange::Activate },
            ),
            (RestoreFlow::Activate { name, uuid, dir }, Event::Done) => (
                RestoreFlow::IsGit { name, uuid, dir: dir.clone() },
                Effect::IsGitRepo { dir },
            ),
            (RestoreFlow::IsGit { name, uuid, dir }, Event::Flag(include_git)) => (
                RestoreFlow::Local,
                Effect::StartLocal {
                    session_name: name,
                    uuid,
                    dir,
                    resume: true,
                    include_git,
                },
            ),
            (RestoreFlow::Local, Event::Done) => (RestoreFlow::Over, Effect::Finish(Event::Done)),
            (RestoreFlow::State { session, details }, Event::Text(initial)) => {
                let name = details.name.clone();
                let workdir = details.workdir.clone();
                let uuid = session.copilot_uuid.clone();
                let github_login = details.github_login.clone();
                (
                    RestoreFlow::SetUp { session, details, initial },
                    Effect::SetUp { name, workdir, uuid, resume: true, github_login },
                )
            },
            (RestoreFlow::SetUp { session, details, initial }, Event::Setup(outcome)) => (
                RestoreFlow::Use { session: session.clone(), details, initial },
                Effect::Update { row: session, change: RowChange::Activate },
            ),
            (RestoreFlow::SetUp { session, details, initial }, Event::Failed(failure)) => {
                if shut_down(&initial) {
                    (
                        RestoreFlow::Stop {
                            failure,
                            topic: Topic::StopAfterRestoreSetup,
                            name: session.name,
                            uuid: session.copilot_uuid.clone(),
                            codespace: details.name.clone(),
                        },
                        Effect::StopAndCache {
                            name: details.name,
                            github_login: details.github_login,
                            uuid: session.copilot_uuid,
                        },
                    )
                } else {
                    (RestoreFlow::Over, failing(failure))
                }
            },
            (RestoreFlow::Use { session, details, initial }, Event::Done) => (
                RestoreFlow::Enter {
                    details,
                    name: session.name.clone(),
                    uuid: session.copilot_uuid.clone(),
                },
                Effect::EnterCodespace { session, attach_only: false },
            ),
            (RestoreFlow::Use { session, details, initial }, Event::Failed(failure)) => {
                if shut_down(&initial) {
                    (
                        RestoreFlow::Stop {
                            failure,
                            topic: Topic::StopAfterRestoreUpdate,
                            name: session.name,
                            uuid: session.copilot_uuid.clone(),
                            codespace: details.name.clone(),
                        },
                        Effect::StopAndCache {
                            name: details.name,
                            github_login: details.github_login,
                            uuid: session.copilot_uuid,
                        },
                    )
                } else {
                    (RestoreFlow::Over, failing(failure))
                }
            },
            (RestoreFlow::Enter { details, name, uuid }, Event::Done) => (
                RestoreFlow::Over,
                Effect::Finish(Event::Done),
            ),
            (RestoreFlow::Enter { details, name, uuid }, Event::Failed(failure)) => (
                RestoreFlow::Mark { details, name, uuid: uuid.clone(), failure },
                Effect::MarkRemoved { uuid },
            ),
            (RestoreFlow::Mark { details, name, uuid, failure }, _) => (
                RestoreFlow::Stop {
                    failure,
                    topic: Topic::StopAfterRestoreConnection,
                    name,
                    uuid: uuid.clone(),
                    codespace: details.name.clone(),
                },
                Effect::StopAndCache {
                    name: details.name,
                    github_login: details.github_login,
                    uuid,
                },
            ),
            (RestoreFlow::Stop { failure, .. }, _) => (RestoreFlow::Over, failing(failure)),
            (_, Event::Failed(f)) => (RestoreFlow::Over, failing(f)),
            _ => (RestoreFlow::Over, failing(Failure::UnexpectedReply)),
        }
    }
}

impl Narrated for RestoreFlow {
    open spec fn told<'a>(&'a self, event: &'a Event) -> Seq<Remark<'a>> {
        match (self, event) {
            (RestoreFlow::Activate { name, uuid, .. }, Event::Done) => seq![
                Remark { name: Some(name), uuid: Some(uuid), ..remark(Topic::Restored) },
            ],
            (RestoreFlow::Use { session, details, .. }, Event::Done) => seq![
                Remark {
                    name: Some(&session.name),
                    uuid: Some(&session.copilot_uuid),
                    codespace: Some(&details.name),
                    ..remark(Topic::RestoredRemote)
                },
            ],
            (RestoreFlow::Mark { name, uuid, .. }, Event::Failed(f)) => seq![
                Remark {
                    name: Some(name),
                    uuid: Some(uuid),
                    error: Some(f),
                    ..remark(Topic::NotMarkedRemoved)
                },
            ],
            (RestoreFlow::Stop { topic, name, uuid, codespace, .. }, Event::Failed(f)) => seq![
                Remark {
                    name: Some(name),
                    uuid: Some(uuid),
                    codespace: Some(codespace),
                    error: Some(f),
                    ..remark(*topic)
                },
            ],
            _ => Seq::empty(),
        }
    }

    fn remarks<'a>(&'a self, event: &'a Event) -> (r: Vec<Remark<'a>>) {
        match (self, event) {
            (RestoreFlow::Activate { name, uuid, .. }, Event::Done) => one(
                Remark { name: Some(name), uuid: Some(uuid), ..remark(Topic::Restored) },
            ),
            (RestoreFlow::Use { session, details, .. }, Event::Done) => one(
                Remark {
                    name: Some(&session.name),
                    uuid: Some(&session.copilot_uuid),
                    codespace: Some(&details.name),
                    ..remark(Topic::RestoredRemote)
                },
            ),
            (RestoreFlow::Mark { name, uuid, .. }, Event::Failed(f)) => one(
                Remark {
                    name: Some(name),
                    uuid: Some(uuid),
                    error: Some(f),
                    ..remark(Topic::NotMarkedRemoved)
                },
            ),
            (RestoreFlow::Stop { topic, name, uuid, codespace, .. }, Event::Failed(f)) => one(
                Remark {
                    name: Some(name),
                    uuid: Some(uuid),
                    codespace: Some(codespace),
                    error: Some(f),
                    ..remark(*topic)
                },
            ),
            _ => Vec::new(),
        }
    }
}

} // verus!
