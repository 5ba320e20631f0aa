//! `stop`: stop sessions.

use vstd::prelude::*;

use crate::commands::local::{session_listed, session_runs, zellij_listed, zellij_runs};
use crate::commands::{
    codespace_details, details_of, Notice, BACKEND_CODESPACE, BACKEND_LOCAL, STATUS_REMOVED,
};
use crate::entity::session::Model;
use crate::failure::Failure;
use crate::flow::{fail, failing, Effect, Event, Flow};
use crate::remark::{one, remark, Narrated, Remark, Topic};
use crate::text::same;
use crate::zellij::State;

verus! {

/// One more, unless that cannot be counted.
pub open spec fn one_more(n: u64) -> u64 {
    if n == u64::MAX {
        n
    } else {
        (n + 1) as u64
    }
}

fn count_one(n: u64) -> (r: u64)
    ensures
        r == one_more(n),
{
    if n == u64::MAX {
        n
    } else {
        n + 1
    }
}

/// The rest of a stop: the sessions that were named, the place of the one that is dealt
/// with, how many failed before it, and the zellij sessions at the start.
#[derive(Debug)]
pub struct StopList {
    pub names: Vec<String>,
    pub at: usize,
    pub failures: u64,
    pub sessions: State,
}

/// The notice for a local session that was stopped: whether it ran, was left over, or
/// neither.
pub open spec fn stop_notice(sessions: Seq<(Seq<char>, bool)>, session: Model) -> Notice {
    let (name, uuid) = (session.name, session.copilot_uuid);
    if zellij_runs(sessions, uuid@) {
        Notice::StoppedSession { name, uuid }
    } else if zellij_listed(sessions, uuid@) {
        Notice::CleanedUp { name, uuid }
    } else {
        Notice::NotRunning { name, uuid }
    }
}

/// Stopping sessions one after the other. Sessions that cannot be found or are removed are
/// passed over with a warning; the others have their zellij session killed, and a Codespace session has its
/// Codespace stopped. What fails is counted, and the rest goes on.
#[derive(Debug)]
pub enum StopSessionsFlow {
    Query { names: Vec<String> },
    Resolve(StopList),
    Zellij { list: StopList, session: Model },
    Codespace { list: StopList, name: String, uuid: String, codespace: String },
    Report(StopList),
    Over,
}

/// How it begins.
pub open spec fn stop_begin(names: Vec<String>) -> (StopSessionsFlow, Effect) {
    if names.len() == 0 {
        (StopSessionsFlow::Over, fail(Failure::NoNames))
    } else {
        (StopSessionsFlow::Query { names }, Effect::QueryZellij)
    }
}

/// Stop sessions.
pub fn stop(names: Vec<String>) -> (r: (StopSessionsFlow, Effect))
    ensures
        r == stop_begin(names),
{
    if names.len() == 0 {
        (StopSessionsFlow::Over, failing(Failure::NoNames))
    } else {
        (StopSessionsFlow::Query { names }, Effect::QueryZellij)
    }
}

/// What comes when the session in the place of the list is its turn: it is looked for, or
/// the list is over.
pub open spec fn visited(list: StopList) -> (StopSessionsFlow, Effect) {
    if list.at < list.names.len() {
        (
            StopSessionsFlow::Resolve(list),
            Effect::Resolve { query: list.names@[list.at as int] },
        )
    } else if list.failures > 0 {
        (StopSessionsFlow::Over, fail(Failure::StopFailures { count: list.failures }))
    } else {
        (StopSessionsFlow::Over, Effect::Finish(Event::Done))
    }
}

fn visit(list: StopList) -> (r: (StopSessionsFlow, Effect))
    ensures
        r == visited(list),
{
    if list.at < list.names.len() {
        let query = list.names[list.at].clone();
        (StopSessionsFlow::Resolve(list), Effect::Resolve { query })
    } else if list.failures > 0 {
        (StopSessionsFlow::Over, failing(Failure::StopFailures { count: list.failures }))
    } else {
        (StopSessionsFlow::Over, Effect::Finish(Event::Done))
    }
}

/// What comes after a session is dealt with.
pub open spec fn moved_on(list: StopList, failed: bool) -> (StopSessionsFlow, Effect) {
    let failures = if failed {
        one_more(list.failures)
    } else {
        list.failures
    };
    let at = if list.at < list.names.len() {
        (list.at + 1) as usize
    } else {
        list.at
    };
    visited(StopList { at, failures, ..list })
}

fn move_on(list: StopList, failed: bool) -> (r: (StopSessionsFlow, Effect))
    ensures
        r == moved_on(list, failed),
{
    let failures = if failed {
        count_one(list.failures)
    } else {
        list.failures
    };
    let at = if list.at < list.names.len() {
        list.at + 1
    } else {
        list.at
    };
    visit(StopList { at, failures, ..list })
}

/// What comes when the zellij session is gone: a local session is done, and the Codespace of
/// a Codespace session is stopped.
pub open spec fn backend_stopped(list: StopList, session: Model) -> (StopSessionsFlow, Effect) {
    if session.backend@ == BACKEND_LOCAL@ {
        (StopSessionsFlow::Report(list), Effect::Report(stop_notice(list.sessions@, session)))
    } else if session.backend@ == BACKEND_CODESPACE@ {
        match details_of(session) {
            Err(f) => moved_on(list, true),
            Ok(details) => (
                StopSessionsFlow::Codespace {
                    list,
                    name: session.name,
                    uuid: session.copilot_uuid,
                    codespace: details.name,
                },
                Effect::StopAndCache {
                    name: details.name,
                    github_login: details.github_login,
                    uuid: session.copilot_uuid,
                },
            ),
        }
    } else {
        moved_on(list, true)
    }
}

fn stop_backend(list: StopList, session: Model) -> (r: (StopSessionsFlow, Effect))
    ensures
        r == backend_stopped(list, session),
{
    if same(&session.backend, BACKEND_LOCAL) {
        let runs = session_runs(&list.sessions, &session.copilot_uuid);
        let listed = session_listed(&list.sessions, &session.copilot_uuid);
        let (name, uuid) = (session.name, session.copilot_uuid);
        let notice = if runs {
            Notice::StoppedSession { name, uuid }
        } else if listed {
            Notice::CleanedUp { name, uuid }
        } else {
            Notice::NotRunning { name, uuid }
        };
        (StopSessionsFlow::Report(list), Effect::Report(notice))
    } else if same(&session.backend, BACKEND_CODESPACE) {
        match codespace_details(&session) {
            Err(f) => move_on(list, true),
            Ok(details) => (
                StopSessionsFlow::Codespace {
                    list,
                    name: session.name,
                    uuid: session.copilot_uuid.clone(),
                    codespace: details.name.clone(),
                },
                Effect::StopAndCache {
                    name: details.name,
                    github_login: details.github_login,
                    uuid: session.copilot_uuid,
                },
            ),
        }
    } else {
        move_on(list, true)
    }
}

impl StopSessionsFlow {
    /// What comes after `event`.
    pub open spec fn step(self, event: Event) -> (StopSessionsFlow, Effect) {
        match (self, event) {
            (StopSessionsFlow::Query { names }, Event::Zellij(sessions)) => visited(
                StopList { names, at: 0, failures: 0, sessions },
            ),
            (StopSessionsFlow::Resolve(list), Event::Row(Some(session))) => {
                if session.status@ == STATUS_REMOVED@ {
                    moved_on(list, false)
                } else if zellij_runs(list.sessions@, session.copilot_uuid@) || zellij_listed(list.sessions@, session.copilot_uuid@) {
                    let uuid = session.copilot_uuid;
                    (StopSessionsFlow::Zellij { list, session }, Effect::StopZellij { uuid })
                } else {
                    backend_stopped(list, session)
                }
            },
            (StopSessionsFlow::Resolve(list), Event::Failed(f)) => moved_on(list, false),
            (StopSessionsFlow::Zellij { list, session }, _) => backend_stopped(list, session),
            (StopSessionsFlow::Codespace { list, name, uuid, codespace }, Event::Done) => (
                StopSessionsFlow::Report(list),
                Effect::Report(Notice::StoppedCodespace { name, uuid, codespace }),
            ),
            (StopSessionsFlow::Codespace { list, name, uuid, codespace }, Event::Failed(f)) =>
                moved_on(list, true),
            (StopSessionsFlow::Report(list), _) => moved_on(list, false),
            (_, Event::Failed(f)) => (StopSessionsFlow::Over, fail(f)),
            _ => (StopSessionsFlow::Over, fail(Failure::UnexpectedReply)),
        }
    }
}

impl Flow for StopSessionsFlow {
    open spec fn leads_to(self, event: Event, next: Self, effect: Effect) -> bool {
        (next, effect) == self.step(event)
    }

    fn next(self, event: Event) -> (r: (Self, Effect)) {
        match (self, event) {
            (StopSessionsFlow::Query { names }, Event::Zellij(sessions)) => visit(
                StopList { names, at: 0, failures: 0, sessions },
            ),
            (StopSessionsFlow::Resolve(list), Event::Row(Some(session))) => {
                if same(&session.status, STATUS_REMOVED) {
                    move_on(list, false)
                } else if session_runs(&list.sessions, &session.copilot_uuid) || session_listed(
                    &list.sessions,
                    &session.copilot_uuid,
                ) {
                    let uuid = session.copilot_uuid.clone();
                    (StopSessionsFlow::Zellij { list, session }, Effect::StopZellij { uuid })
                } else {
                    stop_backend(list, session)
                }
            },
            (StopSessionsFlow::Resolve(list), Event::Failed(f)) => move_on(list, false),
            (StopSessionsFlow::Zellij { list, session }, _) => stop_backend(list, session),
            (StopSessionsFlow::Codespace { list, name, uuid, codespace }, Event::Done) => (
                StopSessionsFlow::Report(list),
                Effect::Report(Notice::StoppedCodespace { name, uuid, codespace }),
            ),
            (StopSessionsFlow::Codespace { list, name, uuid, codespace }, Event::Failed(f)) =>
                move_on(list, true),
            (StopSessionsFlow::Report(list), _) => move_on(list, false),
            (_, Event::Failed(f)) => (StopSessionsFlow::Over, failing(f)),
            _ => (StopSessionsFlow::Over, failing(Failure::UnexpectedReply)),
        }
    }
}

/// What is remarked where the backend of a session cannot be stopped at all.
pub open spec fn backend_remarks<'a>(session: &'a Model) -> Seq<Remark<'a>> {
    if session.backend@ == BACKEND_LOCAL@ {
        Seq::empty()
    } else if session.backend@ == BACKEND_CODESPACE@ {
        match details_of(*session) {
            Ok(_) => Seq::empty(),
            Err(f) => seq![
                Remark {
                    name: Some(&session.name),
                    uuid: Some(&session.copilot_uuid),
                    fault: Some(f),
                    ..remark(Topic::InvalidDetails)
                },
            ],
        }
    } else {
        seq![
            Remark {
                name: Some(&session.name),
                uuid: Some(&session.copilot_uuid),
                detail: Some(&session.backend),
                ..remark(Topic::UnknownBackend)
            },
        ]
    }
}

fn remark_on_backend<'a>(session: &'a Model) -> (r: Vec<Remark<'a>>)
    ensures
        r@ == backend_remarks(session),
{
    if same(&session.backend, BACKEND_LOCAL) {
        Vec::new()
    } else if same(&session.backend, BACKEND_CODESPACE) {
        match codespace_details(session) {
            Ok(_) => Vec::new(),
            Err(f) => one(
                Remark {
                    name: Some(&session.name),
                    uuid: Some(&session.copilot_uuid),
                    fault: Some(f),
                    ..remark(Topic::InvalidDetails)
                },
            ),
        }
    } else {
        one(
            Remark {
                name: Some(&session.name),
                uuid: Some(&session.copilot_uuid),
                detail: Some(&session.backend),
                ..remark(Topic::UnknownBackend)
            },
        )
    }
}

impl Narrated for StopSessionsFlow {
    open spec fn told<'a>(&'a self, event: &'a Event) -> Seq<Remark<'a>> {
        match (self, event) {
            (StopSessionsFlow::Resolve(list), Event::Failed(f)) => {
                if list.at < list.names@.len() {
                    seq![
                        Remark {
                            detail: Some(&list.names@[list.at as int]),
                            error: Some(f),
                            ..remark(Topic::NotResolved)
                        },
                    ]
                } else {
                    Seq::empty()
                }
            },
            (StopSessionsFlow::Resolve(list), Event::Row(Some(session))) => {
                let uuid = session.copilot_uuid@;
                if session.status@ == STATUS_REMOVED@ {
                    seq![
                        Remark {
                            name: Some(&session.name),
                            uuid: Some(&session.copilot_uuid),
                            ..remark(Topic::Removed)
                        },
                    ]
                } else if zellij_runs(list.sessions@, uuid) || zellij_listed(list.sessions@, uuid) {
                    Seq::empty()
                } else {
                    backend_remarks(session)
                }
            },
            (StopSessionsFlow::Zellij { session, .. }, Event::Flag(false)) => seq![
                Remark {
                    name: Some(&session.name),
                    uuid: Some(&session.copilot_uuid),
                    ..remark(Topic::StillPresent)
                },
            ] + backend_remarks(session),
            (StopSessionsFlow::Zellij { session, .. }, _) => backend_remarks(session),
            (StopSessionsFlow::Codespace { name, uuid, codespace, .. }, Event::Failed(f)) => seq![
                Remark {
                    name: Some(name),
                    uuid: Some(uuid),
                    codespace: Some(codespace),
                    error: Some(f),
                    ..remark(Topic::NotStopped)
                },
            ],
            _ => Seq::empty(),
        }
    }

    fn remarks<'a>(&'a self, event: &'a Event) -> (r: Vec<Remark<'a>>) {
        match (self, event) {
            (StopSessionsFlow::Resolve(list), Event::Failed(f)) => {
                if list.at < list.names.len() {
                    one(
                        Remark {
                            detail: Some(&list.names[list.at]),
                            error: Some(f),
                            ..remark(Topic::NotResolved)
                        },
                    )
                } else {
                    Vec::new()
                }
            },
            (StopSessionsFlow::Resolve(list), Event::Row(Some(session))) => {
                if same(&session.status, STATUS_REMOVED) {
                    one(
                        Remark {
                            name: Some(&session.name),
                            uuid: Some(&session.copilot_uuid),
                            ..remark(Topic::Removed)
                        },
                    )
                } else if session_runs(&list.sessions, &session.copilot_uuid) || session_listed(
                    &list.sessions,
                    &session.copilot_uuid,
                ) {
                    Vec::new()
                } else {
                    remark_on_backend(session)
                }
            },
            (StopSessionsFlow::Zellij { session, .. }, Event::Flag(false)) => {
                let mut list = one(
                    Remark {
                        name: Some(&session.name),
                        uuid: Some(&session.copilot_uuid),
                        ..remark(Topic::StillPresent)
                    },
                );
                let mut more = remark_on_backend(session);
                list.append(&mut more);
                list
            },
            (StopSessionsFlow::Zellij { session, .. }, _) => remark_on_backend(session),
            (StopSessionsFlow::Codespace { name, uuid, codespace, .. }, Event::Failed(f)) => one(
                Remark {
                    name: Some(name),
                    uuid: Some(uuid),
                    codespace: Some(codespace),
                    error: Some(f),
                    ..remark(Topic::NotStopped)
                },
            ),
            _ => Vec::new(),
        }
    }
}

} // verus!
