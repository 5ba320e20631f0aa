//! `rename`: give a session another name.

use vstd::prelude::*;

use crate::commands::local::{session_runs, zellij_runs};
use crate::commands::{
    name_failure, validate_name, Notice, RenameDetail, BACKEND_CODESPACE, BACKEND_LOCAL,
};
use crate::entity::session::Model;
use crate::failure::Failure;
use crate::flow::{fail, failing, Effect, Event, Flow};
use crate::text::{lower, same, same_ignoring_case};

verus! {

/// The Codespace of a session is stored as available.
pub open spec fn is_cached_available(session: Model) -> bool {
    session.cached_codespace_state matches Some(state) && lower(state@) == lower("available"@)
}

fn cached_available(session: &Model) -> (r: bool)
    ensures
        r == is_cached_available(*session),
{
    match &session.cached_codespace_state {
        Some(state) => same_ignoring_case(state, "available"),
        None => false,
    }
}

/// Giving a session another name. The name is the key of the record, so in one transaction the
/// old record is deleted and one with the new name is stored, unless the new name is in use or
/// the session changed meanwhile.
#[derive(Debug)]
pub enum RenameFlow {
    Resolve { new_name: String },
    Begin { old_name: String, uuid: String, new_name: String },
    Taken { old_name: String, uuid: String, new_name: String },
    Find { old_name: String, uuid: String, new_name: String },
    Delete { session: Model, old_name: String, uuid: String, new_name: String },
    Insert { session: Model, old_name: String, uuid: String, new_name: String },
    Commit { session: Model, old_name: String, uuid: String, new_name: String },
    Query { old_name: String, uuid: String, new_name: String },
    Report,
    RollBack { failure: Failure },
    Over,
}

/// How it begins.
pub open spec fn rename_begin(old: String, new_name: String) -> (RenameFlow, Effect) {
    match name_failure(new_name@) {
        Some(f) => (RenameFlow::Over, fail(f)),
        None => (RenameFlow::Resolve { new_name }, Effect::Resolve { query: old }),
    }
}

/// Give a session another name.
pub fn rename(old: String, new_name: String) -> (r: (RenameFlow, Effect))
    ensures
        r == rename_begin(old, new_name),
{
    match validate_name(&new_name) {
        Err(f) => (RenameFlow::Over, failing(f)),
        Ok(()) => (RenameFlow::Resolve { new_name }, Effect::Resolve { query: old }),
    }
}

impl RenameFlow {
    /// What comes after `event`.
    pub open spec fn step(self, event: Event) -> (RenameFlow, Effect) {
        match (self, event) {
            (RenameFlow::Resolve { new_name }, Event::Row(Some(session))) => {
                if session.name@ == new_name@ {
                    (RenameFlow::Over, fail(Failure::SameName))
                } else {
                    (
                        RenameFlow::Begin {
                            old_name: session.name,
                            uuid: session.copilot_uuid,
                            new_name,
                        },
                        Effect::Begin,
                    )
                }
            },
            (RenameFlow::Begin { old_name, uuid, new_name }, Event::Done) => (
                RenameFlow::Taken { old_name, uuid, new_name },
                Effect::FindByName { name: new_name },
            ),
            (RenameFlow::Taken { old_name, uuid, new_name }, Event::Row(Some(row))) => (
                RenameFlow::RollBack { failure: Failure::NameTaken { name: new_name } },
                Effect::Rollback,
            ),
            (RenameFlow::Taken { old_name, uuid, new_name }, Event::Row(None)) => (
                RenameFlow::Find { old_name, uuid, new_name },
                Effect::FindByUuid { uuid },
            ),
            (RenameFlow::Find { old_name, uuid, new_name }, Event::Row(None)) => (
                RenameFlow::Over,
                fail(Failure::DisappearedInRename),
            ),
            (RenameFlow::Find { old_name, uuid, new_name }, Event::Row(Some(session))) => {
                if session.name@ == old_name@ {
                    (
                        RenameFlow::Delete {
                            session,
                            old_name,
                            uuid,
                            new_name,
                        },
                        Effect::DeleteRow { name: old_name, uuid },
                    )
                } else {
                    (
                        RenameFlow::RollBack {
                            failure: Failure::RenamedConcurrently { name: old_name },
                        },
                        Effect::Rollback,
                    )
                }
            },
            (RenameFlow::Delete { session, old_name, uuid, new_name }, Event::Count(count)) => {
                if count == 1 {
                    (
                        RenameFlow::Insert {
                            session,
                            old_name,
                            uuid,
                            new_name,
                        },
                        Effect::InsertRenamed { row: session, name: new_name },
                    )
                } else {
                    (
                        RenameFlow::RollBack {
                            failure: Failure::ChangedInRename { name: old_name },
                        },
                        Effect::Rollback,
                    )
                }
            },
            (RenameFlow::Insert { session, old_name, uuid, new_name }, Event::Done) => (
                RenameFlow::Commit { session, old_name, uuid, new_name },
                Effect::Commit,
            ),
            (RenameFlow::Commit { session, old_name, uuid, new_name }, Event::Done) => {
                if session.backend@ == BACKEND_LOCAL@ {
                    (RenameFlow::Query { old_name, uuid, new_name }, Effect::QueryZellij)
                } else if session.backend@ == BACKEND_CODESPACE@ {
                    (
                        RenameFlow::Report,
                        Effect::Report(
                            Notice::Renamed {
                                old_name,
                                name: new_name,
                                uuid,
                                detail: if is_cached_available(session) {
                                    RenameDetail::CodespaceAvailable
                                } else {
                                    RenameDetail::Nothing
                                },
                            },
                        ),
                    )
                } else {
                    (
                        RenameFlow::Over,
                        fail(Failure::UnknownBackend { name: new_name, backend: session.backend }),
                    )
                }
            },
            (RenameFlow::Query { old_name, uuid, new_name }, Event::Zellij(sessions)) => {
                let detail = if zellij_runs(sessions@, uuid@) {
                    RenameDetail::StillRunning
                } else {
                    RenameDetail::Nothing
                };
                (
                    RenameFlow::Report,
                    Effect::Report(Notice::Renamed { old_name, name: new_name, uuid, detail }),
                )
            },
            (RenameFlow::Report, _) => (RenameFlow::Over, Effect::Finish(Event::Done)),
            (RenameFlow::RollBack { failure }, Event::Done) => (RenameFlow::Over, fail(failure)),
            (_, Event::Failed(f)) => (RenameFlow::Over, fail(f)),
            _ => (RenameFlow::Over, fail(Failure::UnexpectedReply)),
        }
    }
}

impl Flow for RenameFlow {
    open spec fn leads_to(self, event: Event, next: Self, effect: Effect) -> bool {
        (next, effect) == self.step(event)
    }

    fn next(self, event: Event) -> (r: (Self, Effect)) {
        match (self, event) {
            (RenameFlow::Resolve { new_name }, Event::Row(Some(session))) => {
                if same(&session.name, &new_name) {
                    (RenameFlow::Over, failing(Failure::SameName))
                } else {
                    (
                        RenameFlow::Begin {
                            old_name: session.name,
                            uuid: session.copilot_uuid,
                            new_name,
                        },
                        Effect::Begin,
                    )
                }
            },
            (RenameFlow::Begin { old_name, uuid, new_name }, Event::Done) => (
                RenameFlow::Taken { old_name, uuid, new_name: new_name.clone() },
                Effect::FindByName { name: new_name },
            ),
            (RenameFlow::Taken { old_name, uuid, new_name }, Event::Row(Some(row))) => (
                RenameFlow::RollBack { failure: Failure::NameTaken { name: new_name } },
                Effect::Rollback,
            ),
            (RenameFlow::Taken { old_name, uuid, new_name }, Event::Row(None)) => (
                RenameFlow::Find { old_name, uuid: uuid.clone(), new_name },
                Effect::FindByUuid { uuid },
            ),
            (RenameFlow::Find { old_name, uuid, new_name }, Event::Row(None)) => (
                RenameFlow::Over,
                failing(Failure::DisappearedInRename),
            ),
            (RenameFlow::Find { old_name, uuid, new_name }, Event::Row(Some(session))) => {
                if same(&session.name, &old_name) {
                    (
                        RenameFlow::Delete {
                            session,
                            old_name: old_name.clone(),
                            uuid: uuid.clone(),
                            new_name,
                        },
                        Effect::DeleteRow { name: old_name, uuid },
                    )
                } else {
                    (
                        RenameFlow::RollBack {
                            failure: Failure::RenamedConcurrently { name: old_name },
                        },
                        Effect::Rollback,
                    )
                }
            },
            (RenameFlow::Delete { session, old_name, uuid, new_name }, Event::Count(count)) => {
                if count == 1 {
                    (
                        RenameFlow::Insert {
                            session: session.clone(),
                            old_name,
                            uuid,
                            new_name: new_name.clone(),
                        },
                        Effect::InsertRenamed { row: session, name: new_name },
                    )
                } else {
                    (
                        RenameFlow::RollBack {
                            failure: Failure::ChangedInRename { name: old_name },
                        },
                        Effect::Rollback,
                    )
                }
            },
            (RenameFlow::Insert { session, old_name, uuid, new_name }, Event::Done) => (
                RenameFlow::Commit { session, old_name, uuid, new_name },
                Effect::Commit,
            ),
            (RenameFlow::Commit { session, old_name, uuid, new_name }, Event::Done) => {
                if same(&session.backend, BACKEND_LOCAL) {
                    (RenameFlow::Query { old_name, uuid, new_name }, Effect::QueryZellij)
                } else if same(&session.backend, BACKEND_CODESPACE) {
                    (
                        RenameFlow::Report,
                        Effect::Report(
                            Notice::Renamed {
                                old_name,
                                name: new_name,
                                uuid,
                                detail: if cached_available(&session) {
                                    RenameDetail::CodespaceAvailable
                                } else {
                                    RenameDetail::Nothing
                                },
                            },
                        ),
                    )
                } else {
                    (
                        RenameFlow::Over,
                        failing(Failure::UnknownBackend { name: new_name, backend: session.backend }),
                    )
                }
            },
            (RenameFlow::Query { old_name, uuid, new_name }, Event::Zellij(sessions)) => {
                let detail = if session_runs(&sessions, &uuid) {
                    RenameDetail::StillRunning
                } else {
                    RenameDetail::Nothing
                };
                (
                    RenameFlow::Report,
                    Effect::Report(Notice::Renamed { old_name, name: new_name, uuid, detail }),
                )
            },
            (RenameFlow::Report, _) => (RenameFlow::Over, Effect::Finish(Event::Done)),
            (RenameFlow::RollBack { failure }, Event::Done) => (RenameFlow::Over, failing(failure)),
            (_, Event::Failed(f)) => (RenameFlow::Over, failing(f)),
            _ => (RenameFlow::Over, failing(Failure::UnexpectedReply)),
        }
    }
}

} // verus!
