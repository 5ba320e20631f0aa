//! `remove`: remove sessions, or destroy them for good.

use vstd::prelude::*;

use crate::clock::Moment;
use crate::commands::local::{session_listed, session_runs, zellij_listed, zellij_runs};
use crate::commands::sessions::names_of;
use crate::commands::states::{days_since_at, whole_days};
use crate::commands::{
    codespace_details, details_of, Notice, RowChange, BACKEND_CODESPACE, BACKEND_LOCAL,
    STATUS_REMOVED,
};
use crate::entity::session::Model;
use crate::failure::Failure;
use crate::flow::{fail, failing, Effect, Event, Flow};
use crate::git::{lies_under, path_starts_with, Dir};
use crate::remark::{one, remark, Narrated, Remark, Topic};
use crate::text::same;
use crate::zellij::State;

verus! {

// ── One session ─────────────────────────────────────────────────────────────

/// Removing one session, or destroying it with `force`.
///
/// A session that is removed already is passed over with a warning, unless it is to be
/// destroyed. Otherwise its zellij session is killed. The worktree of a local session is removed if it lies under
/// the data directory, and its branch is deleted if the session is destroyed. The Codespace
/// of a Codespace session is stopped, and deleted if the session is destroyed; the record of
/// a destroyed session goes only after that.
#[derive(Debug)]
pub enum RemoveOneFlow {
    Zellij { session: Model, csm_dir: String, force: bool },
    Worktree { session: Model, force: bool },
    Delete { session: Model },
    Stop { session: Model },
    Branch { name: String, uuid: String },
    Files { name: String, uuid: String },
    Record { name: String, uuid: String },
    Mark { name: String, uuid: String },
    Report,
    Over,
}

/// The session has a branch of its own in a local repository.
pub open spec fn has_branch(session: Model) -> bool {
    session.backend@ == BACKEND_LOCAL@ && session.branch@.len() > 0
}

/// What comes when nothing of the session is left but its branch, its record and its files.
pub open spec fn settled(session: Model, force: bool) -> (RemoveOneFlow, Effect) {
    if force && has_branch(session) {
        (
            RemoveOneFlow::Branch { name: session.name, uuid: session.copilot_uuid },
            Effect::DeleteBranch { repo: session.source_repo, branch: session.branch },
        )
    } else if force {
        (
            RemoveOneFlow::Files { name: session.name, uuid: session.copilot_uuid },
            Effect::CleanupFiles { uuid: session.copilot_uuid },
        )
    } else {
        (
            RemoveOneFlow::Mark { name: session.name, uuid: session.copilot_uuid },
            Effect::Update { row: session, change: RowChange::Remove },
        )
    }
}

fn settle(session: Model, force: bool) -> (r: (RemoveOneFlow, Effect))
    ensures
        r == settled(session, force),
{
    if force && same(&session.backend, BACKEND_LOCAL) && !session.branch.as_str().is_empty() {
        (
            RemoveOneFlow::Branch { name: session.name, uuid: session.copilot_uuid },
            Effect::DeleteBranch { repo: session.source_repo, branch: session.branch },
        )
    } else if force {
        (
            RemoveOneFlow::Files { name: session.name, uuid: session.copilot_uuid.clone() },
            Effect::CleanupFiles { uuid: session.copilot_uuid },
        )
    } else {
        (
            RemoveOneFlow::Mark { name: session.name.clone(), uuid: session.copilot_uuid.clone() },
            Effect::Update { row: session, change: RowChange::Remove },
        )
    }
}

/// What comes when the zellij session is gone: a worktree under the data directory is
/// removed, and a Codespace is stopped or deleted.
pub open spec fn backend_removed(
    session: Model,
    csm_dir: String,
    force: bool,
) -> (RemoveOneFlow, Effect) {
    if session.backend@ == BACKEND_LOCAL@ {
        if lies_under(session.worktree_path@, csm_dir@) {
            let repo = session.source_repo;
            let dir = Dir::At(session.worktree_path);
            (RemoveOneFlow::Worktree { session, force }, Effect::RemoveWorktree { repo, dir })
        } else {
            settled(session, force)
        }
    } else if session.backend@ == BACKEND_CODESPACE@ {
        match details_of(session) {
            Err(f) => (RemoveOneFlow::Over, fail(f)),
            Ok(details) => {
                if force {
                    (
                        RemoveOneFlow::Delete { session },
                        Effect::DeleteIfExists {
                            name: details.name,
                            github_login: details.github_login,
                        },
                    )
                } else {
                    let uuid = session.copilot_uuid;
                    (
                        RemoveOneFlow::Stop { session },
                        Effect::StopAndCache {
                            name: details.name,
                            github_login: details.github_login,
                            uuid,
                        },
                    )
                }
            },
        }
    } else {
        (
            RemoveOneFlow::Over,
            fail(Failure::UnknownBackend { name: session.name, backend: session.backend }),
        )
    }
}

fn remove_backend(session: Model, csm_dir: String, force: bool) -> (r: (RemoveOneFlow, Effect))
    ensures
        r == backend_removed(session, csm_dir, force),
{
    if same(&session.backend, BACKEND_LOCAL) {
        if path_starts_with(&session.worktree_path, &csm_dir) {
            let repo = session.source_repo.clone();
            let dir = Dir::At(session.worktree_path.clone());
            (RemoveOneFlow::Worktree { session, force }, Effect::RemoveWorktree { repo, dir })
        } else {
            settle(session, force)
        }
    } else if same(&session.backend, BACKEND_CODESPACE) {
        match codespace_details(&session) {
            Err(f) => (RemoveOneFlow::Over, failing(f)),
            Ok(details) => {
                if force {
                    (
                        RemoveOneFlow::Delete { session },
                        Effect::DeleteIfExists {
                            name: details.name,
                            github_login: details.github_login,
                        },
                    )
                } else {
                    let uuid = session.copilot_uuid.clone();
                    (
                        RemoveOneFlow::Stop { session },
                        Effect::StopAndCache {
                            name: details.name,
                            github_login: details.github_login,
                            uuid,
                        },
                    )
                }
            },
        }
    } else {
        (
            RemoveOneFlow::Over,
            failing(Failure::UnknownBackend { name: session.name, backend: session.backend }),
        )
    }
}

/// How it begins.
pub open spec fn remove_one_begin(
    session: Model,
    csm_dir: String,
    live: bool,
    force: bool,
) -> (RemoveOneFlow, Effect) {
    let known = match details_of(session) {
        Ok(details) => None,
        Err(f) => Some(f),
    };
    match known {
        Some(f) if session.backend@ == BACKEND_CODESPACE@ => (RemoveOneFlow::Over, fail(f)),
        _ => {
            if session.status@ == STATUS_REMOVED@ {
                if !force {
                    let (name, uuid) = (session.name, session.copilot_uuid);
                    (RemoveOneFlow::Report, Effect::Report(Notice::AlreadyRemoved { name, uuid }))
                } else if session.backend@ == BACKEND_LOCAL@ {
                    settled(session, true)
                } else {
                    backend_removed(session, csm_dir, true)
                }
            } else if live {
                let uuid = session.copilot_uuid;
                (RemoveOneFlow::Zellij { session, csm_dir, force }, Effect::StopZellij { uuid })
            } else {
                backend_removed(session, csm_dir, force)
            }
        },
    }
}

/// Remove one session, or destroy it with `force`. `live` says whether its zellij session
/// exists.
pub fn remove_one(
    session: Model,
    csm_dir: String,
    live: bool,
    force: bool,
) -> (r: (RemoveOneFlow, Effect))
    ensures
        r == remove_one_begin(session, csm_dir, live, force),
{
    let known = match codespace_details(&session) {
        Ok(details) => None,
        Err(f) => Some(f),
    };
    match known {
        Some(f) if same(&session.backend, BACKEND_CODESPACE) => (RemoveOneFlow::Over, failing(f)),
        _ => {
            if same(&session.status, STATUS_REMOVED) {
                if !force {
                    let (name, uuid) = (session.name, session.copilot_uuid);
                    (RemoveOneFlow::Report, Effect::Report(Notice::AlreadyRemoved { name, uuid }))
                } else if same(&session.backend, BACKEND_LOCAL) {
                    settle(session, true)
                } else {
                    remove_backend(session, csm_dir, true)
                }
            } else if live {
                let uuid = session.copilot_uuid.clone();
                (RemoveOneFlow::Zellij { session, csm_dir, force }, Effect::StopZellij { uuid })
            } else {
                remove_backend(session, csm_dir, force)
            }
        },
    }
}

impl RemoveOneFlow {
    /// What comes after `event`.
    pub open spec fn step(self, event: Event) -> (RemoveOneFlow, Effect) {
        match (self, event) {
            (RemoveOneFlow::Zellij { session, csm_dir, force }, _) => backend_removed(
                session,
                csm_dir,
                force,
            ),
            (RemoveOneFlow::Worktree { session, force }, _) => settled(session, force),
            (RemoveOneFlow::Delete { session }, Event::Done) => settled(session, true),
            (RemoveOneFlow::Stop { session }, Event::Done) => (
                RemoveOneFlow::Mark { name: session.name, uuid: session.copilot_uuid },
                Effect::Update { row: session, change: RowChange::RemoveStopped },
            ),
            (RemoveOneFlow::Branch { name, uuid }, _) => (
                RemoveOneFlow::Files { name, uuid },
                Effect::CleanupFiles { uuid },
            ),
            (RemoveOneFlow::Files { name, uuid }, _) => (
                RemoveOneFlow::Record { name, uuid },
                Effect::DeleteSession { uuid },
            ),
            (RemoveOneFlow::Record { name, uuid }, Event::Done) => (
                RemoveOneFlow::Report,
                Effect::Report(Notice::Destroyed { name, uuid }),
            ),
            (RemoveOneFlow::Mark { name, uuid }, Event::Done) => (
                RemoveOneFlow::Report,
                Effect::Report(Notice::Removed { name, uuid }),
            ),
            (RemoveOneFlow::Report, _) => (RemoveOneFlow::Over, Effect::Finish(Event::Done)),
            (_, Event::Failed(f)) => (RemoveOneFlow::Over, fail(f)),
            _ => (RemoveOneFlow::Over, fail(Failure::UnexpectedReply)),
        }
    }
}

impl Flow for RemoveOneFlow {
    open spec fn leads_to(self, event: Event, next: Self, effect: Effect) -> bool {
        (next, effect) == self.step(event)
    }

    fn next(self, event: Event) -> (r: (Self, Effect)) {
        match (self, event) {
            (RemoveOneFlow::Zellij { session, csm_dir, force }, _) => remove_backend(
                session,
                csm_dir,
                force,
            ),
            (RemoveOneFlow::Worktree { session, force }, _) => settle(session, force),
            (RemoveOneFlow::Delete { session }, Event::Done) => settle(session, true),
            (RemoveOneFlow::Stop { session }, Event::Done) => (
                RemoveOneFlow::Mark {
                    name: session.name.clone(),
                    uuid: session.copilot_uuid.clone(),
                },
                Effect::Update { row: session, change: RowChange::RemoveStopped },
            ),
            (RemoveOneFlow::Branch { name, uuid }, _) => (
                RemoveOneFlow::Files { name, uuid: uuid.clone() },
                Effect::CleanupFiles { uuid },
            ),
            (RemoveOneFlow::Files { name, uuid }, _) => (
                RemoveOneFlow::Record { name, uuid: uuid.clone() },
                Effect::DeleteSession { uuid },
            ),
            (RemoveOneFlow::Record { name, uuid }, Event::Done) => (
                RemoveOneFlow::Report,
                Effect::Report(Notice::Destroyed { name, uuid }),
            ),
            (RemoveOneFlow::Mark { name, uuid }, Event::Done) => (
                RemoveOneFlow::Report,
                Effect::Report(Notice::Removed { name, uuid }),
            ),
            (RemoveOneFlow::Report, _) => (RemoveOneFlow::Over, Effect::Finish(Event::Done)),
            (_, Event::Failed(f)) => (RemoveOneFlow::Over, failing(f)),
            _ => (RemoveOneFlow::Over, failing(Failure::UnexpectedReply)),
        }
    }
}

impl Narrated for RemoveOneFlow {
    open spec fn told<'a>(&'a self, event: &'a Event) -> Seq<Remark<'a>> {
        match (self, event) {
            (RemoveOneFlow::Zellij { session, .. }, Event::Flag(false)) => seq![
                Remark {
                    name: Some(&session.name),
                    uuid: Some(&session.copilot_uuid),
                    ..remark(Topic::StillThere)
                },
            ],
            (RemoveOneFlow::Worktree { session, .. }, Event::Failed(f)) => seq![
                Remark {
                    name: Some(&session.name),
                    uuid: Some(&session.copilot_uuid),
                    error: Some(f),
                    ..remark(Topic::WorktreeStays)
                },
            ],
            (RemoveOneFlow::Branch { name, uuid }, Event::Failed(f)) => seq![
                Remark {
                    name: Some(name),
                    uuid: Some(uuid),
                    error: Some(f),
                    ..remark(Topic::BranchStays)
                },
            ],
            _ => Seq::empty(),
        }
    }

    fn remarks<'a>(&'a self, event: &'a Event) -> (r: Vec<Remark<'a>>) {
        match (self, event) {
            (RemoveOneFlow::Zellij { session, .. }, Event::Flag(false)) => one(
                Remark {
                    name: Some(&session.name),
                    uuid: Some(&session.copilot_uuid),
                    ..remark(Topic::StillThere)
                },
            ),
            (RemoveOneFlow::Worktree { session, .. }, Event::Failed(f)) => one(
                Remark {
                    name: Some(&session.name),
                    uuid: Some(&session.copilot_uuid),
                    error: Some(f),
                    ..remark(Topic::WorktreeStays)
                },
            ),
            (RemoveOneFlow::Branch { name, uuid }, Event::Failed(f)) => one(
                Remark {
                    name: Some(name),
                    uuid: Some(uuid),
                    error: Some(f),
                    ..remark(Topic::BranchStays)
                },
            ),
            _ => Vec::new(),
        }
    }
}

// ── Several sessions ────────────────────────────────────────────────────────

/// A removal in progress: the sessions that were named and the place of the one that is
/// looked for, the sessions to remove, the zellij sessions at the start, and how to remove.
#[derive(Debug)]
pub struct Removal {
    pub names: Vec<String>,
    pub at: usize,
    pub targets: Vec<Model>,
    pub sessions: State,
    pub csm_dir: String,
    pub force: bool,
    pub older_than: Option<u64>,
}

/// A removal in progress as a mathematical value.
#[verifier::ext_equal]
pub struct Plan {
    pub names: Seq<String>,
    pub at: int,
    pub targets: Seq<Model>,
    pub sessions: Seq<(Seq<char>, bool)>,
    pub csm_dir: String,
    pub force: bool,
    pub older_than: Option<u64>,
}

impl View for Removal {
    type V = Plan;

    open spec fn view(&self) -> Plan {
        Plan {
            names: self.names@,
            at: self.at as int,
            targets: self.targets@,
            sessions: self.sessions@,
            csm_dir: self.csm_dir,
            force: self.force,
            older_than: self.older_than,
        }
    }
}

/// The targets with one more session, unless one of its name is among them.
pub open spec fn with_target(targets: Seq<Model>, session: Model) -> Seq<Model> {
    if names_of(targets).contains(session.name@) {
        targets
    } else {
        targets.push(session)
    }
}

/// The session was last used at least `days` whole days before `at`.
pub open spec fn idle_for(session: Model, days: u64, at: Moment) -> bool {
    whole_days(session.last_used_at@, at) matches Some(n) && n >= days
}

/// The targets with all sessions that have not been used for `days` days.
pub open spec fn with_idle(targets: Seq<Model>, rows: Seq<Model>, days: u64, at: Moment) -> Seq<
    Model,
>
    decreases rows.len(),
{
    if rows.len() == 0 {
        targets
    } else {
        let before = with_idle(targets, rows.drop_last(), days, at);
        if idle_for(rows.last(), days, at) {
            with_target(before, rows.last())
        } else {
            before
        }
    }
}

fn add_target(targets: &mut Vec<Model>, session: Model)
    ensures
        final(targets)@ == with_target(old(targets)@, session),
{
    let mut i: usize = 0;
    while i < targets.len()
        invariant
            i <= targets@.len(),
            targets@ == old(targets)@,
            forall|j: int| 0 <= j < i ==> (#[trigger] targets@[j]).name@ != session.name@,
        decreases targets@.len() - i,
    {
        if same(&targets[i].name, &session.name) {
            assert(names_of(targets@)[i as int] == session.name@);
            return ;
        }
        i = i + 1;
    }
    assert(!names_of(targets@).contains(session.name@)) by {
        if names_of(targets@).contains(session.name@) {
            let j = names_of(targets@).index_of(session.name@);
            assert(targets@[j].name@ == session.name@);
        }
    }
    targets.push(session);
}

fn add_idle(targets: &mut Vec<Model>, rows: &Vec<Model>, days: u64, at: Moment)
    requires
        at.valid(),
    ensures
        final(targets)@ == with_idle(old(targets)@, rows@, days, at),
{
    let mut i: usize = 0;
    while i < rows.len()
        invariant
            i <= rows@.len(),
            at.valid(),
            targets@ == with_idle(old(targets)@, rows@.take(i as int), days, at),
        decreases rows@.len() - i,
    {
        assert(rows@.take(i + 1).drop_last() =~= rows@.take(i as int));
        let idle = match days_since_at(&rows[i].last_used_at, at) {
            Some(n) => n >= 0 && n as u64 >= days,
            None => false,
        };
        if idle {
            add_target(targets, rows[i].clone());
        }
        i = i + 1;
    }
    assert(rows@.take(i as int) =~= rows@);
}

/// Removing sessions: those that are named or picked, and those that have not been used for
/// long. Names that cannot be found are passed over; no session is removed twice. At the end
/// the files that belong to no session any more are deleted.
#[derive(Debug)]
pub enum RmFlow {
    Candidates { force: bool, older_than: Option<u64> },
    Pick { force: bool, older_than: Option<u64> },
    Query { names: Vec<String>, force: bool, older_than: Option<u64> },
    CsmDir { names: Vec<String>, sessions: State, force: bool, older_than: Option<u64> },
    Resolve(Removal),
    Clock(Removal),
    Idle { removal: Removal, days: u64, at: Moment },
    NoMatch,
    Remove(Removal),
    Sweep,
    Prune,
    Report,
    Over,
}

/// How it begins.
pub open spec fn rm_begin(
    names: Vec<String>,
    force: bool,
    interactive: bool,
    older_than: Option<u64>,
) -> (RmFlow, Effect) {
    if interactive {
        (RmFlow::Candidates { force, older_than }, Effect::Candidates)
    } else if names@.len() == 0 && older_than is None {
        (RmFlow::Over, fail(Failure::NothingSpecified))
    } else {
        (RmFlow::Query { names, force, older_than }, Effect::QueryZellij)
    }
}

/// Remove sessions.
pub fn rm(names: Vec<String>, force: bool, interactive: bool, older_than: Option<u64>) -> (r: (
    RmFlow,
    Effect,
))
    ensures
        r == rm_begin(names, force, interactive, older_than),
{
    if interactive {
        (RmFlow::Candidates { force, older_than }, Effect::Candidates)
    } else if names.len() == 0 && older_than.is_none() {
        (RmFlow::Over, failing(Failure::NothingSpecified))
    } else {
        (RmFlow::Query { names, force, older_than }, Effect::QueryZellij)
    }
}

/// `next` and `effect` are what comes when the session in the place of the plan is its turn
/// to be removed: it is removed, or the removal is over and the files are swept.
pub open spec fn is_removing(next: RmFlow, effect: Effect, plan: Plan) -> bool {
    if 0 <= plan.at < plan.targets.len() {
        let session = plan.targets[plan.at];
        &&& next matches RmFlow::Remove(removal) && removal@ == plan
        &&& effect == (Effect::RemoveOne {
            session,
            csm_dir: plan.csm_dir,
            live: zellij_runs(plan.sessions, session.copilot_uuid@) || zellij_listed(
                plan.sessions,
                session.copilot_uuid@,
            ),
            force: plan.force,
        })
    } else {
        (next, effect) == (RmFlow::Sweep, Effect::AllSessions)
    }
}

/// `next` and `effect` are what comes when all sessions to remove are known.
pub open spec fn is_gathered(next: RmFlow, effect: Effect, plan: Plan) -> bool {
    if plan.targets.len() == 0 {
        (next, effect) == (RmFlow::NoMatch, Effect::Report(Notice::NoMatch))
    } else {
        is_removing(next, effect, Plan { at: 0, ..plan })
    }
}

/// `next` and `effect` are what comes when the name in the place of the plan is its turn: it
/// is looked for; after the last one the idle sessions are, if they are wanted.
pub open spec fn is_gathering(next: RmFlow, effect: Effect, plan: Plan) -> bool {
    if plan.at < plan.names.len() {
        &&& next matches RmFlow::Resolve(removal) && removal@ == plan
        &&& effect == (Effect::Resolve { query: plan.names[plan.at] })
    } else if plan.older_than is Some {
        &&& next matches RmFlow::Clock(removal) && removal@ == plan
        &&& effect == Effect::Now
    } else {
        is_gathered(next, effect, plan)
    }
}

/// The next place in a list of `len`.
pub open spec fn next_place(at: int, len: nat) -> int {
    if at < len {
        at + 1
    } else {
        at
    }
}

fn start_removing(removal: Removal) -> (r: (RmFlow, Effect))
    ensures
        is_removing(r.0, r.1, removal@),
{
    if removal.at < removal.targets.len() {
        let session = removal.targets[removal.at].clone();
        let live = session_runs(&removal.sessions, &session.copilot_uuid) || session_listed(
            &removal.sessions,
            &session.copilot_uuid,
        );
        let csm_dir = removal.csm_dir.clone();
        let force = removal.force;
        (RmFlow::Remove(removal), Effect::RemoveOne { session, csm_dir, live, force })
    } else {
        (RmFlow::Sweep, Effect::AllSessions)
    }
}

fn finish_gathering(removal: Removal) -> (r: (RmFlow, Effect))
    ensures
        is_gathered(r.0, r.1, removal@),
{
    if removal.targets.len() == 0 {
        (RmFlow::NoMatch, Effect::Report(Notice::NoMatch))
    } else {
        start_removing(Removal { at: 0, ..removal })
    }
}

fn gather(removal: Removal) -> (r: (RmFlow, Effect))
    ensures
        is_gathering(r.0, r.1, removal@),
{
    if removal.at < removal.names.len() {
        let query = removal.names[removal.at].clone();
        (RmFlow::Resolve(removal), Effect::Resolve { query })
    } else if removal.older_than.is_some() {
        (RmFlow::Clock(removal), Effect::Now)
    } else {
        finish_gathering(removal)
    }
}

fn next_name(removal: Removal) -> (r: (RmFlow, Effect))
    ensures
        is_gathering(
            r.0,
            r.1,
            Plan { at: next_place(removal@.at, removal@.names.len()), ..removal@ },
        ),
{
    let at = if removal.at < removal.names.len() {
        removal.at + 1
    } else {
        removal.at
    };
    gather(Removal { at, ..removal })
}

impl Flow for RmFlow {
    open spec fn leads_to(self, event: Event, next: Self, effect: Effect) -> bool {
        match (self, event) {
            (RmFlow::Candidates { force, older_than }, Event::Items(items)) => (next, effect) == (
            if items@.len() == 0 {
                (RmFlow::Report, Effect::Report(Notice::NothingToRemove))
            } else {
                (RmFlow::Pick { force, older_than }, (Effect::Pick { items, force }))
            }),
            (RmFlow::Pick { force, older_than }, Event::Picked(None)) => (next, effect) == (
                RmFlow::Report,
                Effect::Report(Notice::RemovalCancelled),
            ),
            (RmFlow::Pick { force, older_than }, Event::Picked(Some(names))) => (next, effect) == (
                (RmFlow::Query { names, force, older_than }),
                Effect::QueryZellij,
            ),
            (RmFlow::Query { names, force, older_than }, Event::Zellij(sessions)) => (next, effect)
                == ((RmFlow::CsmDir { names, sessions, force, older_than }), Effect::CsmDir),
            (RmFlow::CsmDir { names, sessions, force, older_than }, Event::Text(csm_dir)) =>
                is_gathering(
                    next,
                    effect,
                    Plan {
                        names: names@,
                        at: 0,
                        targets: Seq::empty(),
                        sessions: sessions@,
                        csm_dir,
                        force,
                        older_than,
                    },
                ),
            (RmFlow::Resolve(removal), Event::Row(Some(session))) => is_gathering(
                next,
                effect,
                Plan {
                    at: next_place(removal@.at, removal@.names.len()),
                    targets: with_target(removal@.targets, session),
                    ..removal@
                },
            ),
            (RmFlow::Resolve(removal), Event::Failed(f)) => is_gathering(
                next,
                effect,
                Plan { at: next_place(removal@.at, removal@.names.len()), ..removal@ },
            ),
            (RmFlow::Clock(removal), Event::At(at)) => match removal.older_than {
                Some(days) => if at.valid() {
                    &&& next matches RmFlow::Idle { removal: r, days: d, at: a } && r == removal
                        && d == days && a == at
                    &&& effect == Effect::ActiveSessions
                } else {
                    (next, effect) == (RmFlow::Over, fail(Failure::UnexpectedReply))
                },
                None => (next, effect) == (RmFlow::Over, fail(Failure::UnexpectedReply)),
            },
            (RmFlow::Idle { removal, days, at }, Event::Rows(rows)) => if at.valid() {
                is_gathered(
                    next,
                    effect,
                    Plan { targets: with_idle(removal@.targets, rows@, days, at), ..removal@ },
                )
            } else {
                (next, effect) == (RmFlow::Over, fail(Failure::UnexpectedReply))
            },
            (RmFlow::NoMatch, _) => (next, effect) == (RmFlow::Sweep, Effect::AllSessions),
            (RmFlow::Remove(removal), Event::Done) => is_removing(
                next,
                effect,
                Plan { at: next_place(removal@.at, removal@.targets.len()), ..removal@ },
            ),
            (RmFlow::Sweep, Event::Rows(known)) => (next, effect) == (
                RmFlow::Prune,
                (Effect::PruneOrphans { known }),
            ),
            (RmFlow::Prune, Event::Count(count)) => (next, effect) == (if count > 0 {
                (RmFlow::Report, Effect::Report(Notice::Pruned { count }))
            } else {
                (RmFlow::Over, Effect::Finish(Event::Done))
            }),
            (RmFlow::Report, _) => (next, effect) == (RmFlow::Over, Effect::Finish(Event::Done)),
            (_, Event::Failed(f)) => (next, effect) == (RmFlow::Over, fail(f)),
            _ => (next, effect) == (RmFlow::Over, fail(Failure::UnexpectedReply)),
        }
    }

    fn next(self, event: Event) -> (r: (Self, Effect)) {
        match (self, event) {
            (RmFlow::Candidates { force, older_than }, Event::Items(items)) => {
                if items.len() == 0 {
                    (RmFlow::Report, Effect::Report(Notice::NothingToRemove))
                } else {
                    (RmFlow::Pick { force, older_than }, Effect::Pick { items, force })
                }
            },
            (RmFlow::Pick { force, older_than }, Event::Picked(None)) => (
                RmFlow::Report,
                Effect::Report(Notice::RemovalCancelled),
            ),
            (RmFlow::Pick { force, older_than }, Event::Picked(Some(names))) => (
                RmFlow::Query { names, force, older_than },
                Effect::QueryZellij,
            ),
            (RmFlow::Query { names, force, older_than }, Event::Zellij(sessions)) => (
                RmFlow::CsmDir { names, sessions, force, older_than },
                Effect::CsmDir,
            ),
            (RmFlow::CsmDir { names, sessions, force, older_than }, Event::Text(csm_dir)) => {
                let targets: Vec<Model> = Vec::new();
                gather(Removal { names, at: 0, targets, sessions, csm_dir, force, older_than })
            },
            (RmFlow::Resolve(removal), Event::Row(Some(session))) => {
                let mut targets = removal.targets;
                add_target(&mut targets, session);
                next_name(Removal { targets, ..removal })
            },
            (RmFlow::Resolve(removal), Event::Failed(f)) => next_name(removal),
            (RmFlow::Clock(removal), Event::At(at)) => match removal.older_than {
                Some(days) => {
                    if at.is_valid() {
                        (RmFlow::Idle { removal, days, at }, Effect::ActiveSessions)
                    } else {
                        (RmFlow::Over, failing(Failure::UnexpectedReply))
                    }
                },
                None => (RmFlow::Over, failing(Failure::UnexpectedReply)),
            },
            (RmFlow::Idle { removal, days, at }, Event::Rows(rows)) => {
                if at.is_valid() {
                    let mut targets = removal.targets;
                    add_idle(&mut targets, &rows, days, at);
                    finish_gathering(Removal { targets, ..removal })
                } else {
                    (RmFlow::Over, failing(Failure::UnexpectedReply))
                }
            },
            (RmFlow::NoMatch, _) => (RmFlow::Sweep, Effect::AllSessions),
            (RmFlow::Remove(removal), Event::Done) => {
                let at = if removal.at < removal.targets.len() {
                    removal.at + 1
                } else {
                    removal.at
                };
                start_removing(Removal { at, ..removal })
            },
            (RmFlow::Sweep, Event::Rows(known)) => (
                RmFlow::Prune,
                Effect::PruneOrphans { known },
            ),
            (RmFlow::Prune, Event::Count(count)) => {
                if count > 0 {
                    (RmFlow::Report, Effect::Report(Notice::Pruned { count }))
                } else {
                    (RmFlow::Over, Effect::Finish(Event::Done))
                }
            },
            (RmFlow::Report, _) => (RmFlow::Over, Effect::Finish(Event::Done)),
            (_, Event::Failed(f)) => (RmFlow::Over, failing(f)),
            _ => (RmFlow::Over, failing(Failure::UnexpectedReply)),
        }
    }
}

impl Narrated for RmFlow {
    open spec fn told<'a>(&'a self, event: &'a Event) -> Seq<Remark<'a>> {
        match (self, event) {
            (RmFlow::Resolve(removal), Event::Failed(f)) => {
                if removal.at < removal.names@.len() {
                    seq![
                        Remark {
                            detail: Some(&removal.names@[removal.at as int]),
                            error: Some(f),
                            ..remark(Topic::NotResolved)
                        },
                    ]
                } else {
                    Seq::empty()
                }
            },
            _ => Seq::empty(),
        }
    }

    fn remarks<'a>(&'a self, event: &'a Event) -> (r: Vec<Remark<'a>>) {
        match (self, event) {
            (RmFlow::Resolve(removal), Event::Failed(f)) => {
                if removal.at < removal.names.len() {
                    one(
                        Remark {
                            detail: Some(&removal.names[removal.at]),
                            error: Some(f),
                            ..remark(Topic::NotResolved)
                        },
                    )
                } else {
                    Vec::new()
                }
            },
            _ => Vec::new(),
        }
    }
}

/// The title of the picker.
pub fn pick_title(force: bool) -> (r: &'static str)
    ensures
        r@ == (if force {
            "Select sessions to PERMANENTLY destroy"@
        } else {
            "Select sessions to remove"@
        }),
{
    if force {
        "Select sessions to PERMANENTLY destroy"
    } else {
        "Select sessions to remove"
    }
}

} // verus!
