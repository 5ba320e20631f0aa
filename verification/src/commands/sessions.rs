//! Finding, naming and changing stored sessions, step by step.

use vstd::prelude::*;

use crate::codespace::RemoteZellijState;
use crate::commands::{
    base_name, base_text, numbered_name, numbered_text, CacheWord, NameBase, RowChange,
};
use crate::display::{hex_text, uuid_hex};
use crate::entity::session::Model;
use crate::failure::Failure;
use crate::flow::{fail, failing, Effect, Event, Flow};
use crate::text::{has_prefix, starts_with, texts};

verus! {

// ── Finding ─────────────────────────────────────────────────────────────────

/// The identifier of a session begins with `query`.
pub open spec fn begins_with_query(session: Model, query: Seq<char>) -> bool {
    has_prefix(hex_text(session.copilot_uuid@), query)
}

/// The sessions whose identifiers begin with `query`, in order.
pub open spec fn prefix_matches(rows: Seq<Model>, query: Seq<char>) -> Seq<Model>
    decreases rows.len(),
{
    if rows.len() == 0 {
        Seq::empty()
    } else {
        let before = prefix_matches(rows.drop_last(), query);
        if begins_with_query(rows.last(), query) {
            before.push(rows.last())
        } else {
            before
        }
    }
}

/// The names of sessions.
pub open spec fn names_of(rows: Seq<Model>) -> Seq<Seq<char>> {
    rows.map_values(|s: Model| s.name@)
}

/// `r` is the one session whose identifier begins with `query`, or why there is not one.
pub open spec fn is_resolved(query: String, rows: Seq<Model>, r: Result<Model, Failure>) -> bool {
    let found = prefix_matches(rows, query@);
    if found.len() == 0 {
        r == Err::<Model, Failure>(Failure::NoSession { query })
    } else if found.len() == 1 {
        r == Ok::<Model, Failure>(found[0])
    } else {
        r matches Err(Failure::Ambiguous { query: q, names }) && q == query && texts(names@)
            == names_of(found)
    }
}

/// The one session whose identifier begins with `query`.
pub fn resolve_among(query: String, rows: Vec<Model>) -> (r: Result<Model, Failure>)
    ensures
        is_resolved(query, rows@, r),
{
    let mut found: Vec<Model> = Vec::new();
    let mut i: usize = 0;
    while i < rows.len()
        invariant
            i <= rows@.len(),
            found@ == prefix_matches(rows@.take(i as int), query@),
        decreases rows@.len() - i,
    {
        assert(rows@.take(i + 1).drop_last() =~= rows@.take(i as int));
        if starts_with(&uuid_hex(&rows[i].copilot_uuid), &query) {
            found.push(rows[i].clone());
        }
        i = i + 1;
    }
    assert(rows@.take(i as int) =~= rows@);
    if found.len() == 0 {
        return Err(Failure::NoSession { query });
    }
    if found.len() == 1 {
        return Ok(found[0].clone());
    }
    let mut names: Vec<String> = Vec::new();
    let mut j: usize = 0;
    while j < found.len()
        invariant
            j <= found@.len(),
            texts(names@) == names_of(found@).take(j as int),
        decreases found@.len() - j,
    {
        let ghost before = names@;
        names.push(found[j].name.clone());
        assert(texts(names@) =~= texts(before).push(found@[j as int].name@));
        assert(names_of(found@).take(j + 1) =~= names_of(found@).take(j as int).push(
            found@[j as int].name@,
        ));
        j = j + 1;
    }
    assert(names_of(found@).take(j as int) =~= names_of(found@));
    Err(Failure::Ambiguous { query, names })
}

/// Finding the session that the user means, by its exact name or else by a unique prefix of
/// its identifier.
#[derive(Debug)]
pub enum ResolveFlow {
    ByName { query: String },
    ByPrefix { query: String },
    Over,
}

/// How it begins.
pub open spec fn resolve_session_begin(query: String) -> (ResolveFlow, Effect) {
    (ResolveFlow::ByName { query }, Effect::FindByName { name: query })
}

/// Find the session that the user means.
pub fn resolve_session(query: String) -> (r: (ResolveFlow, Effect))
    ensures
        r == resolve_session_begin(query),
{
    (ResolveFlow::ByName { query: query.clone() }, Effect::FindByName { name: query })
}

impl Flow for ResolveFlow {
    open spec fn leads_to(self, event: Event, next: Self, effect: Effect) -> bool {
        match (self, event) {
            (ResolveFlow::ByName { query }, Event::Row(Some(session))) => (next, effect) == (
                ResolveFlow::Over,
                Effect::Finish(Event::Row(Some(session))),
            ),
            (ResolveFlow::ByName { query }, Event::Row(None)) => (next, effect) == (
                ResolveFlow::ByPrefix { query },
                Effect::AllSessions,
            ),
            (ResolveFlow::ByPrefix { query }, Event::Rows(rows)) => next is Over && match effect {
                Effect::Finish(Event::Row(Some(session))) => is_resolved(query, rows@, Ok(session)),
                Effect::Finish(Event::Failed(f)) => is_resolved(query, rows@, Err(f)),
                _ => false,
            },
            (_, Event::Failed(f)) => (next, effect) == (ResolveFlow::Over, fail(f)),
            _ => (next, effect) == (ResolveFlow::Over, fail(Failure::UnexpectedReply)),
        }
    }

    fn next(self, event: Event) -> (r: (Self, Effect)) {
        match (self, event) {
            (ResolveFlow::ByName { query }, Event::Row(Some(session))) => (
                ResolveFlow::Over,
                Effect::Finish(Event::Row(Some(session))),
            ),
            (ResolveFlow::ByName { query }, Event::Row(None)) => (
                ResolveFlow::ByPrefix { query },
                Effect::AllSessions,
            ),
            (ResolveFlow::ByPrefix { query }, Event::Rows(rows)) => (
                ResolveFlow::Over,
                match resolve_among(query, rows) {
                    Ok(session) => Effect::Finish(Event::Row(Some(session))),
                    Err(f) => failing(f),
                },
            ),
            (_, Event::Failed(f)) => (ResolveFlow::Over, failing(f)),
            _ => (ResolveFlow::Over, failing(Failure::UnexpectedReply)),
        }
    }
}

// ── Naming ──────────────────────────────────────────────────────────────────

/// Finding an unused name: the base itself, or the base with the first number from 2 on that
/// makes it unused.
#[derive(Debug)]
pub enum NextNameFlow {
    Try { base: String, number: u64 },
    Over,
}

/// `r` is how it begins: with the name that is tried first.
pub open spec fn is_next_name_begin(base: NameBase, r: (NextNameFlow, Effect)) -> bool {
    &&& r.0 matches NextNameFlow::Try { base: b, number } && b@ == base_text(base) && number == 1
    &&& r.1 matches Effect::FindByName { name } && name@ == base_text(base)
}

/// Find an unused name.
pub fn next_available_name(base: &NameBase) -> (r: (NextNameFlow, Effect))
    ensures
        is_next_name_begin(*base, r),
{
    let base = base_name(base);
    (NextNameFlow::Try { base: base.clone(), number: 1 }, Effect::FindByName { name: base })
}

impl Flow for NextNameFlow {
    open spec fn leads_to(self, event: Event, next: Self, effect: Effect) -> bool {
        match (self, event) {
            (NextNameFlow::Try { base, number }, Event::Row(None)) => {
                &&& next is Over
                &&& effect matches Effect::Finish(Event::Text(name))
                &&& name@ == numbered_text(base@, number as nat)
            },
            (NextNameFlow::Try { base, number }, Event::Row(Some(_))) => if number < u64::MAX {
                &&& next == (NextNameFlow::Try { base, number: (number + 1) as u64 })
                &&& effect matches Effect::FindByName { name }
                &&& name@ == numbered_text(base@, (number + 1) as nat)
            } else {
                (next, effect) == (NextNameFlow::Over, fail(Failure::NamesExhausted))
            },
            (_, Event::Failed(f)) => (next, effect) == (NextNameFlow::Over, fail(f)),
            _ => (next, effect) == (NextNameFlow::Over, fail(Failure::UnexpectedReply)),
        }
    }

    fn next(self, event: Event) -> (r: (Self, Effect)) {
        match (self, event) {
            (NextNameFlow::Try { base, number }, Event::Row(None)) => (
                NextNameFlow::Over,
                Effect::Finish(Event::Text(numbered_name(&base, number))),
            ),
            (NextNameFlow::Try { base, number }, Event::Row(Some(_))) => {
                if number < u64::MAX {
                    let name = numbered_name(&base, number + 1);
                    (
                        NextNameFlow::Try { base, number: number + 1 },
                        Effect::FindByName { name },
                    )
                } else {
                    (NextNameFlow::Over, failing(Failure::NamesExhausted))
                }
            },
            (_, Event::Failed(f)) => (NextNameFlow::Over, failing(f)),
            _ => (NextNameFlow::Over, failing(Failure::UnexpectedReply)),
        }
    }
}

// ── Changing ────────────────────────────────────────────────────────────────

/// Storing in what states a session's Codespace and remote session were seen.
#[derive(Debug)]
pub enum SetCacheFlow {
    Find { uuid: String, change: RowChange },
    Write,
    Over,
}

/// How it begins.
pub open spec fn set_codespace_cache_begin(
    uuid: String,
    change: RowChange,
) -> (SetCacheFlow, Effect) {
    (SetCacheFlow::Find { uuid, change }, Effect::FindByUuid { uuid })
}

/// Store in what states a session's Codespace and remote session were seen.
pub fn set_codespace_cache(uuid: String, change: RowChange) -> (r: (SetCacheFlow, Effect))
    ensures
        r == set_codespace_cache_begin(uuid, change),
{
    (SetCacheFlow::Find { uuid: uuid.clone(), change }, Effect::FindByUuid { uuid })
}

impl SetCacheFlow {
    /// What comes after `event`.
    pub open spec fn step(self, event: Event) -> (SetCacheFlow, Effect) {
        match (self, event) {
            (SetCacheFlow::Find { uuid, change }, Event::Row(Some(row))) => (
                SetCacheFlow::Write,
                Effect::Update { row, change },
            ),
            (SetCacheFlow::Find { uuid, change }, Event::Row(None)) => (
                SetCacheFlow::Over,
                fail(Failure::Disappeared { uuid }),
            ),
            (SetCacheFlow::Write, Event::Done) => (SetCacheFlow::Over, Effect::Finish(Event::Done)),
            (_, Event::Failed(f)) => (SetCacheFlow::Over, fail(f)),
            _ => (SetCacheFlow::Over, fail(Failure::UnexpectedReply)),
        }
    }
}

impl Flow for SetCacheFlow {
    open spec fn leads_to(self, event: Event, next: Self, effect: Effect) -> bool {
        (next, effect) == self.step(event)
    }

    fn next(self, event: Event) -> (r: (Self, Effect)) {
        match (self, event) {
            (SetCacheFlow::Find { uuid, change }, Event::Row(Some(row))) => (
                SetCacheFlow::Write,
                Effect::Update { row, change },
            ),
            (SetCacheFlow::Find { uuid, change }, Event::Row(None)) => (
                SetCacheFlow::Over,
                failing(Failure::Disappeared { uuid }),
            ),
            (SetCacheFlow::Write, Event::Done) => (SetCacheFlow::Over, Effect::Finish(Event::Done)),
            (_, Event::Failed(f)) => (SetCacheFlow::Over, failing(f)),
            _ => (SetCacheFlow::Over, failing(Failure::UnexpectedReply)),
        }
    }
}

/// Stopping the Codespace of a session, and storing that it is stopped.
#[derive(Debug)]
pub enum StopAndCacheFlow {
    Stop { uuid: String },
    Store,
    Over,
}

/// How it begins.
pub open spec fn stop_codespace_and_cache_begin(
    name: String,
    github_login: String,
    uuid: String,
) -> (StopAndCacheFlow, Effect) {
    (StopAndCacheFlow::Stop { uuid }, Effect::StopCodespace { name, github_login })
}

/// Stop the Codespace of a session, and store that it is stopped.
pub fn stop_codespace_and_cache(
    name: String,
    github_login: String,
    uuid: String,
) -> (r: (StopAndCacheFlow, Effect))
    ensures
        r == stop_codespace_and_cache_begin(name, github_login, uuid),
{
    (StopAndCacheFlow::Stop { uuid }, Effect::StopCodespace { name, github_login })
}

impl StopAndCacheFlow {
    /// What comes after `event`.
    pub open spec fn step(self, event: Event) -> (StopAndCacheFlow, Effect) {
        match (self, event) {
            (StopAndCacheFlow::Stop { uuid }, Event::Done) => (
                StopAndCacheFlow::Store,
                Effect::SetCache {
                    uuid,
                    change: RowChange::Cache {
                        state: CacheWord::Shutdown,
                        zellij: RemoteZellijState::Missing,
                    },
                },
            ),
            (StopAndCacheFlow::Store, Event::Done) => (
                StopAndCacheFlow::Over,
                Effect::Finish(Event::Done),
            ),
            (_, Event::Failed(f)) => (StopAndCacheFlow::Over, fail(f)),
            _ => (StopAndCacheFlow::Over, fail(Failure::UnexpectedReply)),
        }
    }
}

impl Flow for StopAndCacheFlow {
    open spec fn leads_to(self, event: Event, next: Self, effect: Effect) -> bool {
        (next, effect) == self.step(event)
    }

    fn next(self, event: Event) -> (r: (Self, Effect)) {
        match (self, event) {
            (StopAndCacheFlow::Stop { uuid }, Event::Done) => (
                StopAndCacheFlow::Store,
                Effect::SetCache {
                    uuid,
                    change: RowChange::Cache {
                        state: CacheWord::Shutdown,
                        zellij: RemoteZellijState::Missing,
                    },
                },
            ),
            (StopAndCacheFlow::Store, Event::Done) => (
                StopAndCacheFlow::Over,
                Effect::Finish(Event::Done),
            ),
            (_, Event::Failed(f)) => (StopAndCacheFlow::Over, failing(f)),
            _ => (StopAndCacheFlow::Over, failing(Failure::UnexpectedReply)),
        }
    }
}

/// Marking a session as removed.
#[derive(Debug)]
pub enum MarkRemovedFlow {
    Find { uuid: String },
    Write,
    Over,
}

/// How it begins.
pub open spec fn mark_session_removed_begin(uuid: String) -> (MarkRemovedFlow, Effect) {
    (MarkRemovedFlow::Find { uuid }, Effect::FindByUuid { uuid })
}

/// Mark a session as removed.
pub fn mark_session_removed(uuid: String) -> (r: (MarkRemovedFlow, Effect))
    ensures
        r == mark_session_removed_begin(uuid),
{
    (MarkRemovedFlow::Find { uuid: uuid.clone() }, Effect::FindByUuid { uuid })
}

impl MarkRemovedFlow {
    /// What comes after `event`.
    pub open spec fn step(self, event: Event) -> (MarkRemovedFlow, Effect) {
        match (self, event) {
            (MarkRemovedFlow::Find { uuid }, Event::Row(Some(row))) => (
                MarkRemovedFlow::Write,
                Effect::Update { row, change: RowChange::Remove },
            ),
            (MarkRemovedFlow::Find { uuid }, Event::Row(None)) => (
                MarkRemovedFlow::Over,
                fail(Failure::Disappeared { uuid }),
            ),
            (MarkRemovedFlow::Write, Event::Done) => (
                MarkRemovedFlow::Over,
                Effect::Finish(Event::Done),
            ),
            (_, Event::Failed(f)) => (MarkRemovedFlow::Over, fail(f)),
            _ => (MarkRemovedFlow::Over, fail(Failure::UnexpectedReply)),
        }
    }
}

impl Flow for MarkRemovedFlow {
    open spec fn leads_to(self, event: Event, next: Self, effect: Effect) -> bool {
        (next, effect) == self.step(event)
    }

    fn next(self, event: Event) -> (r: (Self, Effect)) {
        match (self, event) {
            (MarkRemovedFlow::Find { uuid }, Event::Row(Some(row))) => (
                MarkRemovedFlow::Write,
                Effect::Update { row, change: RowChange::Remove },
            ),
            (MarkRemovedFlow::Find { uuid }, Event::Row(None)) => (
                MarkRemovedFlow::Over,
                failing(Failure::Disappeared { uuid }),
            ),
            (MarkRemovedFlow::Write, Event::Done) => (
                MarkRemovedFlow::Over,
                Effect::Finish(Event::Done),
            ),
            (_, Event::Failed(f)) => (MarkRemovedFlow::Over, failing(f)),
            _ => (MarkRemovedFlow::Over, failing(Failure::UnexpectedReply)),
        }
    }
}

/// Deleting the one session with a UUID, in a transaction that is rolled back unless exactly
/// one session is found and deleted.
#[derive(Debug)]
pub enum DeleteSessionFlow {
    Begin { uuid: String },
    Count { uuid: String },
    Delete { uuid: String },
    Commit,
    RollBack { failure: Failure },
    Over,
}

/// How it begins.
pub open spec fn delete_session_by_uuid_begin(uuid: String) -> (DeleteSessionFlow, Effect) {
    (DeleteSessionFlow::Begin { uuid }, Effect::Begin)
}

/// Delete the one session with a UUID.
pub fn delete_session_by_uuid(uuid: String) -> (r: (DeleteSessionFlow, Effect))
    ensures
        r == delete_session_by_uuid_begin(uuid),
{
    (DeleteSessionFlow::Begin { uuid }, Effect::Begin)
}

impl DeleteSessionFlow {
    /// What comes after `event`.
    pub open spec fn step(self, event: Event) -> (DeleteSessionFlow, Effect) {
        match (self, event) {
            (DeleteSessionFlow::Begin { uuid }, Event::Done) => (
                DeleteSessionFlow::Count { uuid },
                Effect::FindAllByUuid { uuid },
            ),
            (DeleteSessionFlow::Count { uuid }, Event::Rows(rows)) => {
                if rows.len() != 1 {
                    (
                        DeleteSessionFlow::RollBack {
                            failure: Failure::ExpectedOne { uuid, count: rows.len() as u64 },
                        },
                        Effect::Rollback,
                    )
                } else {
                    (DeleteSessionFlow::Delete { uuid }, Effect::DeleteByUuid { uuid })
                }
            },
            (DeleteSessionFlow::Delete { uuid }, Event::Count(count)) => {
                if count == 1 {
                    (DeleteSessionFlow::Commit, Effect::Commit)
                } else if count == 0 {
                    (
                        DeleteSessionFlow::RollBack {
                            failure: Failure::DisappearedInRemoval { uuid },
                        },
                        Effect::Rollback,
                    )
                } else {
                    (
                        DeleteSessionFlow::RollBack {
                            failure: Failure::DuplicateUuid { uuid, count },
                        },
                        Effect::Rollback,
                    )
                }
            },
            (DeleteSessionFlow::Commit, Event::Done) => (
                DeleteSessionFlow::Over,
                Effect::Finish(Event::Done),
            ),
            (DeleteSessionFlow::RollBack { failure }, Event::Done) => (
                DeleteSessionFlow::Over,
                fail(failure),
            ),
            (_, Event::Failed(f)) => (DeleteSessionFlow::Over, fail(f)),
            _ => (DeleteSessionFlow::Over, fail(Failure::UnexpectedReply)),
        }
    }
}

impl Flow for DeleteSessionFlow {
    open spec fn leads_to(self, event: Event, next: Self, effect: Effect) -> bool {
        (next, effect) == self.step(event)
    }

    fn next(self, event: Event) -> (r: (Self, Effect)) {
        match (self, event) {
            (DeleteSessionFlow::Begin { uuid }, Event::Done) => (
                DeleteSessionFlow::Count { uuid: uuid.clone() },
                Effect::FindAllByUuid { uuid },
            ),
            (DeleteSessionFlow::Count { uuid }, Event::Rows(rows)) => {
                if rows.len() != 1 {
                    (
                        DeleteSessionFlow::RollBack {
                            failure: Failure::ExpectedOne { uuid, count: rows.len() as u64 },
                        },
                        Effect::Rollback,
                    )
                } else {
                    (
                        DeleteSessionFlow::Delete { uuid: uuid.clone() },
                        Effect::DeleteByUuid { uuid },
                    )
                }
            },
            (DeleteSessionFlow::Delete { uuid }, Event::Count(count)) => {
                if count == 1 {
                    (DeleteSessionFlow::Commit, Effect::Commit)
                } else if count == 0 {
                    (
                        DeleteSessionFlow::RollBack {
                            failure: Failure::DisappearedInRemoval { uuid },
                        },
                        Effect::Rollback,
                    )
                } else {
                    (
                        DeleteSessionFlow::RollBack {
                            failure: Failure::DuplicateUuid { uuid, count },
                        },
                        Effect::Rollback,
                    )
                }
            },
            (DeleteSessionFlow::Commit, Event::Done) => (
                DeleteSessionFlow::Over,
                Effect::Finish(Event::Done),
            ),
            (DeleteSessionFlow::RollBack { failure }, Event::Done) => (
                DeleteSessionFlow::Over,
                failing(failure),
            ),
            (_, Event::Failed(f)) => (DeleteSessionFlow::Over, failing(f)),
            _ => (DeleteSessionFlow::Over, failing(Failure::UnexpectedReply)),
        }
    }
}

} // verus!
