//! `run`: create a session and start it.

use vstd::prelude::*;

use crate::commands::{
    name_failure, validate_name, NameBase, NewSession, BACKEND_CODESPACE, STATUS_ACTIVE,
};
use crate::failure::Failure;
use crate::flow::{fail, failing, Effect, Event, Flow};
use crate::git::{branch_for, branch_text, BranchRef, Dir};
use crate::remark::{one, remark, Narrated, Remark, Topic};
use crate::text::{cat3, lower, same, to_lower, trim, trimmed};

verus! {

/// Creating a session and starting it.
///
/// The session gets the requested name if no session has it. A removed local session gives its
/// name up; beside an active session, or a removed one whose Codespace is still kept, the name
/// gets a number. The branch is made from the requested name in any case.
///
/// A local session runs in the current directory if that was asked for or if there is no
/// repository, and in a worktree of its own otherwise. On a default branch the latest changes
/// are pulled first. A branch that exists is resumed only if the user agrees. If the session
/// cannot be started, its record, its files and its worktree are removed again, but never a
/// directory that was not created for it.
#[derive(Debug)]
pub enum RunFlow {
    Find { name: String, here: bool, use_codespace: bool },
    Free { name: String, here: bool, use_codespace: bool, active: bool },
    Reclaim { name: String, here: bool, use_codespace: bool },
    Id { session_name: String, name: String, here: bool, use_codespace: bool },
    Remote,
    CsmDir { session_name: String, name: String, uuid: String, here: bool },
    Here { session_name: String, uuid: String },
    HereRoot { session_name: String, uuid: String, cwd: String },
    Root { session_name: String, name: String, uuid: String, csm_dir: String },
    Bare { session_name: String, uuid: String },
    Branch { session_name: String, name: String, uuid: String, csm_dir: String, root: String },
    Pull { session_name: String, name: String, uuid: String, csm_dir: String, root: String },
    Exists { session_name: String, name: String, uuid: String, csm_dir: String, root: String },
    Confirm { session_name: String, name: String, uuid: String, csm_dir: String, root: String },
    Create { session_name: String, name: String, uuid: String, csm_dir: String, root: String },
    IsGit {
        session_name: String,
        branch: Option<String>,
        uuid: String,
        source_repo: String,
        dir: Dir,
        owned: bool,
    },
    Insert {
        session_name: String,
        uuid: String,
        source_repo: String,
        dir: Dir,
        owned: bool,
        include_git: bool,
    },
    Start { session_name: String, uuid: String, source_repo: String, dir: Dir, owned: bool },
    Forget {
        failure: Failure,
        session_name: String,
        uuid: String,
        source_repo: String,
        dir: Dir,
        owned: bool,
    },
    Files {
        failure: Failure,
        session_name: String,
        uuid: String,
        source_repo: String,
        dir: Dir,
        owned: bool,
    },
    Worktree { failure: Failure, session_name: String, uuid: String },
    Over,
}

/// How it begins.
pub open spec fn run_begin(name: String, here: bool, use_codespace: bool) -> (RunFlow, Effect) {
    match name_failure(name@) {
        Some(f) => (RunFlow::Over, fail(f)),
        None => (
            RunFlow::Find { name, here, use_codespace },
            Effect::FindByName { name },
        ),
    }
}

/// Create a session and start it.
pub fn run(name: String, here: bool, use_codespace: bool) -> (r: (RunFlow, Effect))
    ensures
        r == run_begin(name, here, use_codespace),
{
    match validate_name(&name) {
        Err(f) => (RunFlow::Over, failing(f)),
        Ok(()) => (
            RunFlow::Find { name: name.clone(), here, use_codespace },
            Effect::FindByName { name },
        ),
    }
}

impl RunFlow {
    /// What comes after `event`.
    pub open spec fn step(self, event: Event) -> (RunFlow, Effect) {
        match (self, event) {
            (RunFlow::Find { name, here, use_codespace }, Event::Row(Some(existing))) => {
                if existing.status@ == STATUS_ACTIVE@ || existing.backend@ == BACKEND_CODESPACE@ {
                    (
                        RunFlow::Free {
                            name,
                            here,
                            use_codespace,
                            active: existing.status@ == STATUS_ACTIVE@,
                        },
                        Effect::FreeName { base: NameBase::Asked(name) },
                    )
                } else {
                    (
                        RunFlow::Reclaim { name, here, use_codespace },
                        Effect::DeleteByName { name },
                    )
                }
            },
            (RunFlow::Find { name, here, use_codespace }, Event::Row(None)) => (
                RunFlow::Id { session_name: name, name, here, use_codespace },
                Effect::NewId,
            ),
            (RunFlow::Free { name, here, use_codespace, active }, Event::Text(session_name)) => (
                RunFlow::Id { session_name, name, here, use_codespace },
                Effect::NewId,
            ),
            (RunFlow::Reclaim { name, here, use_codespace }, Event::Done) => (
                RunFlow::Id { session_name: name, name, here, use_codespace },
                Effect::NewId,
            ),
            (RunFlow::Id { session_name, name, here, use_codespace }, Event::Text(uuid)) => {
                if use_codespace {
                    (RunFlow::Remote, Effect::RunCodespace { session_name, uuid })
                } else {
                    (RunFlow::CsmDir { session_name, name, uuid, here }, Effect::CsmDir)
                }
            },
            (RunFlow::Remote, Event::Done) => (RunFlow::Over, Effect::Finish(Event::Done)),
            (RunFlow::CsmDir { session_name, name, uuid, here }, Event::Text(csm_dir)) => {
                if here {
                    (RunFlow::Here { session_name, uuid }, Effect::CurrentDir)
                } else {
                    (RunFlow::Root { session_name, name, uuid, csm_dir }, Effect::RepoRoot)
                }
            },
            (RunFlow::Here { session_name, uuid }, Event::Text(cwd)) => (
                RunFlow::HereRoot { session_name, uuid, cwd },
                Effect::RepoRoot,
            ),
            (RunFlow::HereRoot { session_name, uuid, cwd }, Event::Text(root)) => (
                RunFlow::IsGit {
                    session_name,
                    branch: None,
                    uuid,
                    source_repo: root,
                    dir: Dir::At(cwd),
                    owned: false,
                },
                Effect::IsGitRepo { dir: Dir::At(cwd) },
            ),
            (RunFlow::HereRoot { session_name, uuid, cwd }, Event::Failed(f)) => (
                RunFlow::IsGit {
                    session_name,
                    branch: None,
                    uuid,
                    source_repo: cwd,
                    dir: Dir::At(cwd),
                    owned: false,
                },
                Effect::IsGitRepo { dir: Dir::At(cwd) },
            ),
            (RunFlow::Root { session_name, name, uuid, csm_dir }, Event::Failed(f)) => (
                RunFlow::Bare { session_name, uuid },
                Effect::CurrentDir,
            ),
            (RunFlow::Bare { session_name, uuid }, Event::Text(cwd)) => (
                RunFlow::IsGit {
                    session_name,
                    branch: None,
                    uuid,
                    source_repo: cwd,
                    dir: Dir::At(cwd),
                    owned: false,
                },
                Effect::IsGitRepo { dir: Dir::At(cwd) },
            ),
            (RunFlow::Root { session_name, name, uuid, csm_dir }, Event::Text(root)) => (
                RunFlow::Branch { session_name, name, uuid, csm_dir, root },
                Effect::CurrentBranch { dir: Dir::At(root) },
            ),
            (
                RunFlow::Branch { session_name, name, uuid, csm_dir, root },
                Event::MaybeText(Some(current)),
            ) => {
                if current@ == "main"@ || current@ == "master"@ {
                    (
                        RunFlow::Pull { session_name, name, uuid, csm_dir, root },
                        Effect::Pull { dir: Dir::At(root) },
                    )
                } else {
                    (
                        RunFlow::Exists { session_name, name, uuid, csm_dir, root },
                        Effect::BranchExists { branch: BranchRef::For { name }, repo: None },
                    )
                }
            },
            (RunFlow::Branch { session_name, name, uuid, csm_dir, root }, Event::MaybeText(None)) => (
                RunFlow::Exists { session_name, name, uuid, csm_dir, root },
                Effect::BranchExists { branch: BranchRef::For { name }, repo: None },
            ),
            (RunFlow::Pull { session_name, name, uuid, csm_dir, root }, _) => (
                RunFlow::Exists { session_name, name, uuid, csm_dir, root },
                Effect::BranchExists { branch: BranchRef::For { name }, repo: None },
            ),
            (RunFlow::Exists { session_name, name, uuid, csm_dir, root }, Event::Flag(present)) => {
                if present {
                    (
                        RunFlow::Confirm { session_name, name, uuid, csm_dir, root },
                        Effect::ConfirmResume { name },
                    )
                } else {
                    let dir = Dir::Worktree {
                        csm_dir,
                        repo_root: root,
                        uuid,
                    };
                    (
                        RunFlow::Create { session_name, name, uuid, csm_dir, root },
                        Effect::CreateWorktree {
                            dir,
                            branch: BranchRef::For { name },
                            new_branch: true,
                            repo: None,
                        },
                    )
                }
            },
            (RunFlow::Confirm { session_name, name, uuid, csm_dir, root }, Event::Flag(agreed)) => {
                if agreed {
                    let dir = Dir::Worktree {
                        csm_dir,
                        repo_root: root,
                        uuid,
                    };
                    (
                        RunFlow::Create { session_name, name, uuid, csm_dir, root },
                        Effect::CreateWorktree {
                            dir,
                            branch: BranchRef::For { name },
                            new_branch: false,
                            repo: None,
                        },
                    )
                } else {
                    (RunFlow::Over, fail(Failure::BranchTaken { name }))
                }
            },
            (RunFlow::Create { session_name, name, uuid, csm_dir, root }, Event::Done) => {
                let dir = Dir::Worktree { csm_dir, repo_root: root, uuid };
                (
                    RunFlow::IsGit {
                        session_name,
                        branch: Some(name),
                        uuid,
                        source_repo: root,
                        dir,
                        owned: true,
                    },
                    Effect::IsGitRepo { dir },
                )
            },
            (
                RunFlow::IsGit { session_name, branch, uuid, source_repo, dir, owned },
                Event::Flag(include_git),
            ) => (
                RunFlow::Insert {
                    session_name,
                    uuid,
                    source_repo,
                    dir,
                    owned,
                    include_git,
                },
                Effect::Insert(NewSession::Local { name: session_name, branch, uuid, source_repo, dir }),
            ),
            (
                RunFlow::Insert { session_name, uuid, source_repo, dir, owned, include_git },
                Event::Row(Some(row)),
            ) => (
                RunFlow::Start {
                    session_name,
                    uuid,
                    source_repo,
                    dir,
                    owned,
                },
                Effect::StartLocal { session_name, uuid, dir, resume: false, include_git },
            ),
            (RunFlow::Start { session_name, uuid, source_repo, dir, owned }, Event::Done) => (
                RunFlow::Over,
                Effect::Finish(Event::Done),
            ),
            (RunFlow::Start { session_name, uuid, source_repo, dir, owned }, Event::Failed(failure)) => (
                RunFlow::Forget { failure, session_name, uuid, source_repo, dir, owned },
                Effect::DeleteByName { name: session_name },
            ),
            (RunFlow::Forget { failure, session_name, uuid, source_repo, dir, owned }, _) => (
                RunFlow::Files { failure, session_name, uuid, source_repo, dir, owned },
                Effect::CleanupFiles { uuid },
            ),
            (RunFlow::Files { failure, session_name, uuid, source_repo, dir, owned }, _) => {
                if owned {
                    (
                        RunFlow::Worktree { failure, session_name, uuid },
                        Effect::RemoveWorktree { repo: source_repo, dir },
                    )
                } else {
                    (RunFlow::Over, fail(failure))
                }
            },
            (RunFlow::Worktree { failure, .. }, _) => (RunFlow::Over, fail(failure)),
            (_, Event::Failed(f)) => (RunFlow::Over, fail(f)),
            _ => (RunFlow::Over, fail(Failure::UnexpectedReply)),
        }
    }
}

impl Flow for RunFlow {
    open spec fn leads_to(self, event: Event, next: Self, effect: Effect) -> bool {
        (next, effect) == self.step(event)
    }

    fn next(self, event: Event) -> (r: (Self, Effect)) {
        match (self, event) {
            (RunFlow::Find { name, here, use_codespace }, Event::Row(Some(existing))) => {
                if same(&existing.status, STATUS_ACTIVE) || same(&existing.backend, BACKEND_CODESPACE) {
                    (
                        RunFlow::Free {
                            name: name.clone(),
                            here,
                            use_codespace,
                            active: same(&existing.status, STATUS_ACTIVE),
                        },
                        Effect::FreeName { base: NameBase::Asked(name) },
                    )
                } else {
                    (
                        RunFlow::Reclaim { name: name.clone(), here, use_codespace },
                        Effect::DeleteByName { name },
                    )
                }
            },
            (RunFlow::Find { name, here, use_codespace }, Event::Row(None)) => (
                RunFlow::Id { session_name: name.clone(), name, here, use_codespace },
                Effect::NewId,
            ),
            (RunFlow::Free { name, here, use_codespace, active }, Event::Text(session_name)) => (
                RunFlow::Id { session_name, name, here, use_codespace },
                Effect::NewId,
            ),
            (RunFlow::Reclaim { name, here, use_codespace }, Event::Done) => (
                RunFlow::Id { session_name: name.clone(), name, here, use_codespace },
                Effect::NewId,
            ),
            (RunFlow::Id { session_name, name, here, use_codespace }, Event::Text(uuid)) => {
                if use_codespace {
                    (RunFlow::Remote, Effect::RunCodespace { session_name, uuid })
                } else {
                    (RunFlow::CsmDir { session_name, name, uuid, here }, Effect::CsmDir)
                }
            },
            (RunFlow::Remote, Event::Done) => (RunFlow::Over, Effect::Finish(Event::Done)),
            (RunFlow::CsmDir { session_name, name, uuid, here }, Event::Text(csm_dir)) => {
                if here {
                    (RunFlow::Here { session_name, uuid }, Effect::CurrentDir)
                } else {
                    (RunFlow::Root { session_name, name, uuid, csm_dir }, Effect::RepoRoot)
                }
            },
            (RunFlow::Here { session_name, uuid }, Event::Text(cwd)) => (
                RunFlow::HereRoot { session_name, uuid, cwd },
                Effect::RepoRoot,
            ),
            (RunFlow::HereRoot { session_name, uuid, cwd }, Event::Text(root)) => (
                RunFlow::IsGit {
                    session_name,
                    branch: None,
                    uuid,
                    source_repo: root,
                    dir: Dir::At(cwd.clone()),
                    owned: false,
                },
                Effect::IsGitRepo { dir: Dir::At(cwd) },
            ),
            (RunFlow::HereRoot { session_name, uuid, cwd }, Event::Failed(f)) => (
                RunFlow::IsGit {
                    session_name,
                    branch: None,
                    uuid,
                    source_repo: cwd.clone(),
                    dir: Dir::At(cwd.clone()),
                    owned: false,
                },
                Effect::IsGitRepo { dir: Dir::At(cwd) },
            ),
            (RunFlow::Root { session_name, name, uuid, csm_dir }, Event::Failed(f)) => (
                RunFlow::Bare { session_name, uuid },
                Effect::CurrentDir,
            ),
            (RunFlow::Bare { session_name, uuid }, Event::Text(cwd)) => (
                RunFlow::IsGit {
                    session_name,
                    branch: None,
                    uuid,
                    source_repo: cwd.clone(),
                    dir: Dir::At(cwd.clone()),
                    owned: false,
                },
                Effect::IsGitRepo { dir: Dir::At(cwd) },
            ),
            (RunFlow::Root { session_name, name, uuid, csm_dir }, Event::Text(root)) => (
                RunFlow::Branch { session_name, name, uuid, csm_dir, root: root.clone() },
                Effect::CurrentBranch { dir: Dir::At(root) },
            ),
            (
                RunFlow::Branch { session_name, name, uuid, csm_dir, root },
                Event::MaybeText(Some(current)),
            ) => {
                if same(&current, "main") || same(&current, "master") {
                    (
                        RunFlow::Pull { session_name, name, uuid, csm_dir, root: root.clone() },
                        Effect::Pull { dir: Dir::At(root) },
                    )
                } else {
                    (
                        RunFlow::Exists { session_name, name: name.clone(), uuid, csm_dir, root },
                        Effect::BranchExists { branch: BranchRef::For { name }, repo: None },
                    )
                }
            },
            (RunFlow::Branch { session_name, name, uuid, csm_dir, root }, Event::MaybeText(None)) => (
                RunFlow::Exists { session_name, name: name.clone(), uuid, csm_dir, root },
                Effect::BranchExists { branch: BranchRef::For { name }, repo: None },
            ),
            (RunFlow::Pull { session_name, name, uuid, csm_dir, root }, _) => (
                RunFlow::Exists { session_name, name: name.clone(), uuid, csm_dir, root },
                Effect::BranchExists { branch: BranchRef::For { name }, repo: None },
            ),
            (RunFlow::Exists { session_name, name, uuid, csm_dir, root }, Event::Flag(present)) => {
                if present {
                    (
                        RunFlow::Confirm { session_name, name: name.clone(), uuid, csm_dir, root },
                        Effect::ConfirmResume { name },
                    )
                } else {
                    let dir = Dir::Worktree {
                        csm_dir: csm_dir.clone(),
                        repo_root: root.clone(),
                        uuid: uuid.clone(),
                    };
                    (
                        RunFlow::Create { session_name, name: name.clone(), uuid, csm_dir, root },
                        Effect::CreateWorktree {
                            dir,
                            branch: BranchRef::For { name },
                            new_branch: true,
                            repo: None,
                        },
                    )
                }
            },
            (RunFlow::Confirm { session_name, name, uuid, csm_dir, root }, Event::Flag(agreed)) => {
                if agreed {
                    let dir = Dir::Worktree {
                        csm_dir: csm_dir.clone(),
                        repo_root: root.clone(),
                        uuid: uuid.clone(),
                    };
                    (
                        RunFlow::Create { session_name, name: name.clone(), uuid, csm_dir, root },
                        Effect::CreateWorktree {
                            dir,
                            branch: BranchRef::For { name },
                            new_branch: false,
                            repo: None,
                        },
                    )
                } else {
                    (RunFlow::Over, failing(Failure::BranchTaken { name }))
                }
            },
            (RunFlow::Create { session_name, name, uuid, csm_dir, root }, Event::Done) => {
                let dir = Dir::Worktree { csm_dir, repo_root: root.clone(), uuid: uuid.clone() };
                (
                    RunFlow::IsGit {
                        session_name,
                        branch: Some(name),
                        uuid,
                        source_repo: root,
                        dir: dir.clone(),
                        owned: true,
                    },
                    Effect::IsGitRepo { dir },
                )
            },
            (
                RunFlow::IsGit { session_name, branch, uuid, source_repo, dir, owned },
                Event::Flag(include_git),
            ) => (
                RunFlow::Insert {
                    session_name: session_name.clone(),
                    uuid: uuid.clone(),
                    source_repo: source_repo.clone(),
                    dir: dir.clone(),
                    owned,
                    include_git,
                },
                Effect::Insert(NewSession::Local { name: session_name, branch, uuid, source_repo, dir }),
            ),
            (
                RunFlow::Insert { session_name, uuid, source_repo, dir, owned, include_git },
                Event::Row(Some(row)),
            ) => (
                RunFlow::Start {
                    session_name: session_name.clone(),
                    uuid: uuid.clone(),
                    source_repo,
                    dir: dir.clone(),
                    owned,
                },
                Effect::StartLocal { session_name, uuid, dir, resume: false, include_git },
            ),
            (RunFlow::Start { session_name, uuid, source_repo, dir, owned }, Event::Done) => (
                RunFlow::Over,
                Effect::Finish(Event::Done),
            ),
            (RunFlow::Start { session_name, uuid, source_repo, dir, owned }, Event::Failed(failure)) => (
                RunFlow::Forget {
                    failure,
                    session_name: session_name.clone(),
                    uuid,
                    source_repo,
                    dir,
                    owned,
                },
                Effect::DeleteByName { name: session_name },
            ),
            (RunFlow::Forget { failure, session_name, uuid, source_repo, dir, owned }, _) => (
                RunFlow::Files {
                    failure,
                    session_name,
                    uuid: uuid.clone(),
                    source_repo,
                    dir,
                    owned,
                },
                Effect::CleanupFiles { uuid },
            ),
            (RunFlow::Files { failure, session_name, uuid, source_repo, dir, owned }, _) => {
                if owned {
                    (
                        RunFlow::Worktree { failure, session_name, uuid },
                        Effect::RemoveWorktree { repo: source_repo, dir },
                    )
                } else {
                    (RunFlow::Over, failing(failure))
                }
            },
            (RunFlow::Worktree { failure, .. }, _) => (RunFlow::Over, failing(failure)),
            (_, Event::Failed(f)) => (RunFlow::Over, failing(f)),
            _ => (RunFlow::Over, failing(Failure::UnexpectedReply)),
        }
    }
}

impl Narrated for RunFlow {
    open spec fn told<'a>(&'a self, event: &'a Event) -> Seq<Remark<'a>> {
        match (self, event) {
            (RunFlow::Free { name, active, .. }, Event::Text(unique)) => seq![
                Remark {
                    name: Some(unique),
                    detail: Some(name),
                    ..remark(
                        if *active {
                            Topic::NameInUse
                        } else {
                            Topic::NameRetained
                        },
                    )
                },
            ],
            (RunFlow::HereRoot { session_name, uuid, cwd }, Event::Text(_)) => seq![
                Remark {
                    name: Some(session_name),
                    uuid: Some(uuid),
                    detail: Some(cwd),
                    ..remark(Topic::RunningDirectly)
                },
            ],
            (RunFlow::HereRoot { session_name, uuid, cwd }, Event::Failed(_)) => seq![
                Remark {
                    name: Some(session_name),
                    uuid: Some(uuid),
                    detail: Some(cwd),
                    ..remark(Topic::RunningDirectly)
                },
            ],
            (RunFlow::Branch { session_name, uuid, .. }, Event::MaybeText(Some(current))) => {
                if current@ == "main"@ || current@ == "master"@ {
                    seq![Remark {
                        name: Some(session_name),
                        uuid: Some(uuid),
                        detail: Some(current),
                        ..remark(Topic::Pulling)
                    }]
                } else {
                    Seq::empty()
                }
            },
            (RunFlow::Pull { session_name, uuid, .. }, Event::Failed(f)) => seq![
                Remark {
                    name: Some(session_name),
                    uuid: Some(uuid),
                    error: Some(f),
                    ..remark(Topic::PullFailed)
                },
            ],
            (RunFlow::Bare { session_name, uuid }, Event::Text(cwd)) => seq![
                Remark {
                    name: Some(session_name),
                    uuid: Some(uuid),
                    detail: Some(cwd),
                    ..remark(Topic::NoRepository)
                },
            ],
            (RunFlow::Insert { session_name, uuid, .. }, Event::Row(Some(row))) => seq![
                Remark {
                    name: Some(session_name),
                    uuid: Some(uuid),
                    detail: if row.branch@.len() > 0 {
                        Some(&row.branch)
                    } else {
                        None
                    },
                    ..remark(Topic::Created)
                },
            ],
            (RunFlow::Worktree { session_name, uuid, .. }, Event::Failed(f)) => seq![
                Remark {
                    name: Some(session_name),
                    uuid: Some(uuid),
                    error: Some(f),
                    ..remark(Topic::RunNotCleanedUp)
                },
            ],
            _ => Seq::empty(),
        }
    }

    fn remarks<'a>(&'a self, event: &'a Event) -> (r: Vec<Remark<'a>>) {
        match (self, event) {
            (RunFlow::Free { name, active, .. }, Event::Text(unique)) => {
                let topic = if *active {
                    Topic::NameInUse
                } else {
                    Topic::NameRetained
                };
                one(Remark { name: Some(unique), detail: Some(name), ..remark(topic) })
            },
            (RunFlow::HereRoot { session_name, uuid, cwd }, Event::Text(_)) => one(
                Remark {
                    name: Some(session_name),
                    uuid: Some(uuid),
                    detail: Some(cwd),
                    ..remark(Topic::RunningDirectly)
                },
            ),
            (RunFlow::HereRoot { session_name, uuid, cwd }, Event::Failed(_)) => one(
                Remark {
                    name: Some(session_name),
                    uuid: Some(uuid),
                    detail: Some(cwd),
                    ..remark(Topic::RunningDirectly)
                },
            ),
            (RunFlow::Branch { session_name, uuid, .. }, Event::MaybeText(Some(current))) => {
                if same(current, "main") || same(current, "master") {
                    one(Remark {
                        name: Some(session_name),
                        uuid: Some(uuid),
                        detail: Some(current),
                        ..remark(Topic::Pulling)
                    })
                } else {
                    Vec::new()
                }
            },
            (RunFlow::Pull { session_name, uuid, .. }, Event::Failed(f)) => one(
                Remark {
                    name: Some(session_name),
                    uuid: Some(uuid),
                    error: Some(f),
                    ..remark(Topic::PullFailed)
                },
            ),
            (RunFlow::Bare { session_name, uuid }, Event::Text(cwd)) => one(
                Remark {
                    name: Some(session_name),
                    uuid: Some(uuid),
                    detail: Some(cwd),
                    ..remark(Topic::NoRepository)
                },
            ),
            (RunFlow::Insert { session_name, uuid, .. }, Event::Row(Some(row))) => one(
                Remark {
                    name: Some(session_name),
                    uuid: Some(uuid),
                    detail: if !row.branch.as_str().is_empty() {
                        Some(&row.branch)
                    } else {
                        None
                    },
                    ..remark(Topic::Created)
                },
            ),
            (RunFlow::Worktree { session_name, uuid, .. }, Event::Failed(f)) => one(
                Remark {
                    name: Some(session_name),
                    uuid: Some(uuid),
                    error: Some(f),
                    ..remark(Topic::RunNotCleanedUp)
                },
            ),
            _ => Vec::new(),
        }
    }
}

/// What the user is asked before an existing branch is resumed.
pub fn resume_prompt(name: &str) -> (r: String)
    ensures
        r@ == "Branch '"@ + branch_text(name@)
            + "' already exists and will be resumed in a new worktree. Continue?"@,
{
    cat3(
        "Branch '",
        &branch_for(name),
        "' already exists and will be resumed in a new worktree. Continue?",
    )
}

/// The answer is an explicit yes.
pub open spec fn is_yes(answer: Seq<char>) -> bool {
    lower(trimmed(answer)) == "y"@ || lower(trimmed(answer)) == "yes"@
}

/// Whether an answer is an explicit yes; anything else, in particular nothing, is a no.
pub fn confirm(answer: &str) -> (r: bool)
    ensures
        r == is_yes(answer@),
{
    let word = to_lower(&trim(answer));
    same(&word, "y") || same(&word, "yes")
}

} // verus!
