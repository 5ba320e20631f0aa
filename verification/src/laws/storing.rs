//! Laws of looking sessions up and of changing their records.

use vstd::prelude::*;

use crate::codespace::RemoteZellijState;
use crate::commands::local::zellij_runs;
use crate::commands::rename::{rename_begin, RenameFlow};
use crate::commands::sessions::{
    delete_session_by_uuid_begin, mark_session_removed_begin, names_of, prefix_matches,
    resolve_session_begin, set_codespace_cache_begin, stop_codespace_and_cache_begin,
    DeleteSessionFlow, MarkRemovedFlow, ResolveFlow, SetCacheFlow, StopAndCacheFlow,
};
use crate::commands::{
    session_name as is_session_name, CacheWord, Notice, RenameDetail, RowChange,
    BACKEND_CODESPACE, BACKEND_LOCAL,
};
use crate::display::hex_text;
use crate::entity::session::Model;
use crate::failure::Failure;
use crate::flow::{is_run, Effect, Event, Flow};
use crate::laws::history::{just_failed, misanswered};
use crate::text::{has_prefix, lower, texts};

verus! {

// ── Looking up ──────────────────────────────────────────────────────────────

/// The identifier of the session begins with the query.
pub open spec fn is_meant(session: Model, query: Seq<char>) -> bool {
    has_prefix(hex_text(session.copilot_uuid@), query)
}

proof fn matches_are_meant(rows: Seq<Model>, query: Seq<char>)
    ensures
        prefix_matches(rows, query).len() == 0 ==> forall|i: int|
            0 <= i < rows.len() ==> !is_meant(#[trigger] rows[i], query),
        prefix_matches(rows, query).len() == 1 ==> exists|i: int|
            0 <= i < rows.len() && #[trigger] rows[i] == prefix_matches(rows, query)[0] && is_meant(
                rows[i],
                query,
            ) && forall|j: int|
                0 <= j < rows.len() && j != i ==> !is_meant(#[trigger] rows[j], query),
        forall|k: int|
            0 <= k < prefix_matches(rows, query).len() ==> rows.contains(
                #[trigger] prefix_matches(rows, query)[k],
            ) && is_meant(prefix_matches(rows, query)[k], query),
        forall|i: int|
            0 <= i < rows.len() && is_meant(#[trigger] rows[i], query) ==> prefix_matches(
                rows,
                query,
            ).contains(rows[i]),
    decreases rows.len(),
{
    if rows.len() > 0 {
        let rest = rows.drop_last();
        let last = rows[rows.len() - 1];
        matches_are_meant(rest, query);
        let before = prefix_matches(rest, query);
        let all = prefix_matches(rows, query);
        assert(rows.last() == last);
        assert forall|k: int| 0 <= k < all.len() implies rows.contains(#[trigger] all[k])
            && is_meant(all[k], query) by {
            if k < before.len() {
                assert(all[k] == before[k]);
                let i = rest.index_of(before[k]);
                assert(rows[i] == rest[i]);
            } else {
                assert(all[k] == last);
                assert(rows[rows.len() - 1] == last);
            }
        }
        assert forall|i: int| 0 <= i < rows.len() && is_meant(
            #[trigger] rows[i],
            query,
        ) implies all.contains(rows[i]) by {
            if i < rest.len() {
                assert(rest[i] == rows[i]);
                let k = before.index_of(rows[i]);
                assert(all[k] == rows[i]);
            } else {
                assert(all[all.len() - 1] == last);
            }
        }
        if all.len() == 0 {
            assert forall|i: int| 0 <= i < rows.len() implies !is_meant(#[trigger] rows[i], query) by {
                if is_meant(rows[i], query) {
                    assert(all.contains(rows[i]));
                }
            }
        }
        if all.len() == 1 {
            if is_meant(last, query) {
                assert(before.len() == 0);
                assert forall|j: int| 0 <= j < rows.len() && j != rows.len() - 1 implies !is_meant(
                    #[trigger] rows[j],
                    query,
                ) by {
                    assert(rest[j] == rows[j]);
                }
                assert(rows[rows.len() - 1] == all[0]);
            } else {
                let i = choose|i: int|
                    0 <= i < rest.len() && #[trigger] rest[i] == before[0] && is_meant(
                        rest[i],
                        query,
                    ) && forall|j: int|
                        0 <= j < rest.len() && j != i ==> !is_meant(#[trigger] rest[j], query);
                assert(rows[i] == rest[i]);
                assert forall|j: int| 0 <= j < rows.len() && j != i implies !is_meant(
                    #[trigger] rows[j],
                    query,
                ) by {
                    if j < rest.len() {
                        assert(rest[j] == rows[j]);
                    }
                }
            }
        }
    }
}

/// A session is found by its exact name, or else it is the only one whose identifier begins with
/// the query. If there is none, or more than one, that is the failure, which then gives the names
/// of sessions whose identifiers do.
pub proof fn session_is_found(
    query: String,
    states: Seq<ResolveFlow>,
    effects: Seq<Effect>,
    events: Seq<Event>,
    k: int,
)
    requires
        is_run(states, effects, events),
        (states[0], effects[0]) == resolve_session_begin(query),
        0 <= k < effects.len(),
    ensures
        match effects[k] {
            Effect::FindByName { name } => k == 0 && name == query,
            Effect::AllSessions => k == 1 && events[0] == Event::Row(None),
            Effect::Finish(Event::Row(found)) => {
                &&& found matches Some(session)
                &&& k == 1 && events[0] == Event::Row(Some(session)) || k == 2 && events[0]
                    == Event::Row(None) && (events[1] matches Event::Rows(rows) && exists|i: int|
                    0 <= i < rows@.len() && #[trigger] rows@[i] == session && is_meant(
                        session,
                        query@,
                    ) && forall|j: int|
                        0 <= j < rows@.len() && j != i ==> !is_meant(#[trigger] rows@[j], query@))
            },
            Effect::Finish(Event::Failed(f)) => {
                ||| just_failed(events, k, f)
                ||| f == Failure::UnexpectedReply && misanswered(effects, events, k)
                ||| k == 2 && (events[1] matches Event::Rows(rows) && f == (Failure::NoSession {
                    query,
                }) && forall|i: int|
                    0 <= i < rows@.len() ==> !is_meant(#[trigger] rows@[i], query@))
                ||| k == 2 && (events[1] matches Event::Rows(rows) && (f
                    matches Failure::Ambiguous { query: q, names } && q == query && names@.len() > 1
                    && texts(names@) == names_of(prefix_matches(rows@, query@))))
            },
            _ => false,
        },
{
    if k > 0 {
        assert(states[0].leads_to(events[0], states[1], effects[1]));
        assert(effects[0] !is Finish);
        if k > 1 {
            assert(effects[1] !is Finish);
            assert(states[1].leads_to(events[1], states[2], effects[2]));
            match events[1] {
                Event::Rows(rows) => {
                    matches_are_meant(rows@, query@);
                    let found = prefix_matches(rows@, query@);
                    if found.len() > 1 {
                        match effects[2] {
                            Effect::Finish(Event::Failed(Failure::Ambiguous { names, .. })) => {
                                assert(texts(names@).len() == names_of(found).len());
                            },
                            _ => {},
                        }
                    }
                },
                _ => {},
            }
            if k > 2 {
                assert(effects[2] !is Finish);
            }
        }
    }
}

// ── Changing ────────────────────────────────────────────────────────────────

/// A change is written to the record with the UUID, if there is one, and to no other.
pub proof fn change_is_stored(
    uuid: String,
    change: RowChange,
    states: Seq<SetCacheFlow>,
    effects: Seq<Effect>,
    events: Seq<Event>,
    k: int,
)
    requires
        is_run(states, effects, events),
        (states[0], effects[0]) == set_codespace_cache_begin(uuid, change),
        0 <= k < effects.len(),
    ensures
        match effects[k] {
            Effect::FindByUuid { uuid: u } => k == 0 && u == uuid,
            Effect::Update { row, change: c } => k == 1 && c == change && events[0] == Event::Row(
                Some(row),
            ),
            Effect::Finish(Event::Done) => k == 2 && events[1] == Event::Done,
            Effect::Finish(Event::Failed(f)) => {
                ||| just_failed(events, k, f)
                ||| f == Failure::UnexpectedReply && misanswered(effects, events, k)
                ||| k == 1 && events[0] == Event::Row(None) && f == (Failure::Disappeared { uuid })
            },
            _ => false,
        },
{
    if k > 0 {
        assert(states[0].leads_to(events[0], states[1], effects[1]));
        if k > 1 {
            assert(effects[1] !is Finish);
            assert(states[1].leads_to(events[1], states[2], effects[2]));
            if k > 2 {
                assert(effects[2] !is Finish);
            }
        }
    }
}

/// A Codespace is stopped first, and only if that succeeds its session is stored as shut down,
/// without a remote session.
pub proof fn stop_is_stored(
    name: String,
    github_login: String,
    uuid: String,
    states: Seq<StopAndCacheFlow>,
    effects: Seq<Effect>,
    events: Seq<Event>,
    k: int,
)
    requires
        is_run(states, effects, events),
        (states[0], effects[0]) == stop_codespace_and_cache_begin(name, github_login, uuid),
        0 <= k < effects.len(),
    ensures
        match effects[k] {
            Effect::StopCodespace { name: n, github_login: l } => k == 0 && n == name && l
                == github_login,
            Effect::SetCache { uuid: u, change } => k == 1 && events[0] == Event::Done && u == uuid
                && change == (RowChange::Cache {
                state: CacheWord::Shutdown,
                zellij: RemoteZellijState::Missing,
            }),
            Effect::Finish(Event::Done) => k == 2 && events[1] == Event::Done,
            Effect::Finish(Event::Failed(f)) => just_failed(events, k, f) || f
                == Failure::UnexpectedReply && misanswered(effects, events, k),
            _ => false,
        },
{
    if k > 0 {
        assert(states[0].leads_to(events[0], states[1], effects[1]));
        if k > 1 {
            assert(effects[1] !is Finish);
            assert(states[1].leads_to(events[1], states[2], effects[2]));
            if k > 2 {
                assert(effects[2] !is Finish);
            }
        }
    }
}

/// The record with the UUID is stored as removed, if there is one, and no other.
pub proof fn removal_is_stored(
    uuid: String,
    states: Seq<MarkRemovedFlow>,
    effects: Seq<Effect>,
    events: Seq<Event>,
    k: int,
)
    requires
        is_run(states, effects, events),
        (states[0], effects[0]) == mark_session_removed_begin(uuid),
        0 <= k < effects.len(),
    ensures
        match effects[k] {
            Effect::FindByUuid { uuid: u } => k == 0 && u == uuid,
            Effect::Update { row, change } => k == 1 && change == RowChange::Remove && events[0]
                == Event::Row(Some(row)),
            Effect::Finish(Event::Done) => k == 2 && events[1] == Event::Done,
            Effect::Finish(Event::Failed(f)) => {
                ||| just_failed(events, k, f)
                ||| f == Failure::UnexpectedReply && misanswered(effects, events, k)
                ||| k == 1 && events[0] == Event::Row(None) && f == (Failure::Disappeared { uuid })
            },
            _ => false,
        },
{
    if k > 0 {
        assert(states[0].leads_to(events[0], states[1], effects[1]));
        if k > 1 {
            assert(effects[1] !is Finish);
            assert(states[1].leads_to(events[1], states[2], effects[2]));
            if k > 2 {
                assert(effects[2] !is Finish);
            }
        }
    }
}

proof fn deletion_remembers(
    uuid: String,
    states: Seq<DeleteSessionFlow>,
    effects: Seq<Effect>,
    events: Seq<Event>,
    k: int,
)
    requires
        is_run(states, effects, events),
        (states[0], effects[0]) == delete_session_by_uuid_begin(uuid),
        0 <= k < effects.len(),
    ensures
        match states[k] {
            DeleteSessionFlow::Begin { uuid: u } => k == 0 && u == uuid,
            DeleteSessionFlow::Count { uuid: u } => k == 1 && u == uuid && effects[k]
                is FindAllByUuid,
            DeleteSessionFlow::Delete { uuid: u } => k == 2 && u == uuid && effects[k]
                is DeleteByUuid,
            DeleteSessionFlow::Commit => k == 3 && effects[k] is Commit,
            DeleteSessionFlow::RollBack { failure } => effects[k] is Rollback && (k == 2 && (
            events[1] matches Event::Rows(rows) && rows@.len() != 1 && failure == (
            Failure::ExpectedOne { uuid, count: rows@.len() as u64 })) || k == 3 && (events[2]
                matches Event::Count(count) && count != 1 && failure == (if count == 0 {
                Failure::DisappearedInRemoval { uuid }
            } else {
                Failure::DuplicateUuid { uuid, count }
            }))),
            DeleteSessionFlow::Over => effects[k] is Finish,
        },
    decreases k,
{
    if k > 0 {
        deletion_remembers(uuid, states, effects, events, k - 1);
        assert(states[k - 1].leads_to(events[k - 1], states[k], effects[k]));
        assert(effects[k - 1] !is Finish);
    }
}

/// A record is deleted by its UUID in a transaction: begun, counted, deleted if there is one, and
/// committed if one was deleted. With any other number the transaction is rolled back and the
/// number is the failure.
pub proof fn record_is_deleted(
    uuid: String,
    states: Seq<DeleteSessionFlow>,
    effects: Seq<Effect>,
    events: Seq<Event>,
    k: int,
)
    requires
        is_run(states, effects, events),
        (states[0], effects[0]) == delete_session_by_uuid_begin(uuid),
        0 <= k < effects.len(),
    ensures
        match effects[k] {
            Effect::Begin => k == 0,
            Effect::FindAllByUuid { uuid: u } => k == 1 && u == uuid && events[0] == Event::Done,
            Effect::DeleteByUuid { uuid: u } => k == 2 && u == uuid && (events[1]
                matches Event::Rows(rows) && rows@.len() == 1),
            Effect::Commit => k == 3 && events[2] == Event::Count(1),
            Effect::Rollback => k == 2 && (events[1] matches Event::Rows(rows) && rows@.len() != 1)
                || k == 3 && (events[2] matches Event::Count(count) && count != 1),
            Effect::Finish(Event::Done) => k == 4 && effects[3] is Commit && events[3]
                == Event::Done,
            Effect::Finish(Event::Failed(f)) => {
                ||| just_failed(events, k, f)
                ||| f == Failure::UnexpectedReply && misanswered(effects, events, k)
                ||| k == 3 && effects[2] is Rollback && events[2] == Event::Done && (events[1]
                    matches Event::Rows(rows) && f == (Failure::ExpectedOne {
                    uuid,
                    count: rows@.len() as u64,
                }))
                ||| k == 4 && effects[3] is Rollback && events[3] == Event::Done && (events[2]
                    matches Event::Count(count) && f == (if count == 0 {
                    Failure::DisappearedInRemoval { uuid }
                } else {
                    Failure::DuplicateUuid { uuid, count }
                }))
            },
            _ => false,
        },
{
    deletion_remembers(uuid, states, effects, events, k);
    if k > 0 {
        deletion_remembers(uuid, states, effects, events, k - 1);
        assert(states[k - 1].leads_to(events[k - 1], states[k], effects[k]));
        assert(effects[k - 1] !is Finish);
    }
}

// ── Renaming ────────────────────────────────────────────────────────────────

proof fn renaming_remembers(
    old: String,
    new_name: String,
    session: Model,
    states: Seq<RenameFlow>,
    effects: Seq<Effect>,
    events: Seq<Event>,
    k: int,
)
    requires
        is_run(states, effects, events),
        (states[0], effects[0]) == rename_begin(old, new_name),
        0 < k < effects.len(),
        events[0] == Event::Row(Some(session)),
    ensures
        match states[k] {
            RenameFlow::Resolve { .. } => false,
            RenameFlow::Begin { old_name, uuid, new_name: n } => k == 1 && old_name == session.name
                && uuid == session.copilot_uuid && n == new_name && effects[k] is Begin,
            RenameFlow::Taken { old_name, uuid, new_name: n } => k == 2 && old_name == session.name
                && uuid == session.copilot_uuid && n == new_name && effects[k] is FindByName,
            RenameFlow::Find { old_name, uuid, new_name: n } => k == 3 && old_name == session.name
                && uuid == session.copilot_uuid && n == new_name && effects[k] is FindByUuid,
            RenameFlow::Delete { session: s, old_name, uuid, new_name: n } => k == 4 && old_name
                == session.name && uuid == session.copilot_uuid && n == new_name && events[3]
                == Event::Row(Some(s)) && effects[k] is DeleteRow,
            RenameFlow::Insert { session: s, old_name, uuid, new_name: n } => k == 5 && old_name
                == session.name && uuid == session.copilot_uuid && n == new_name && events[3]
                == Event::Row(Some(s)) && effects[k] is InsertRenamed,
            RenameFlow::Commit { session: s, old_name, uuid, new_name: n } => k == 6 && old_name
                == session.name && uuid == session.copilot_uuid && n == new_name && events[3]
                == Event::Row(Some(s)) && effects[k] is Commit,
            RenameFlow::Query { old_name, uuid, new_name: n } => k == 7 && old_name == session.name
                && uuid == session.copilot_uuid && n == new_name && effects[k] is QueryZellij,
            RenameFlow::Report => k > 6 && effects[k] is Report,
            RenameFlow::RollBack { failure } => {
                &&& effects[k] is Rollback
                &&& k == 3 && (events[2] matches Event::Row(Some(_))) && failure == (
                Failure::NameTaken { name: new_name }) || k == 4 && (events[3] matches Event::Row(
                    Some(s),
                ) && s.name@ != session.name@) && failure == (Failure::RenamedConcurrently {
                    name: session.name,
                }) || k == 5 && (events[4] matches Event::Count(count) && count != 1) && failure
                    == (Failure::ChangedInRename { name: session.name })
            },
            RenameFlow::Over => effects[k] is Finish,
        },
    decreases k,
{
    assert(states[k - 1].leads_to(events[k - 1], states[k], effects[k]));
    assert(effects[k - 1] !is Finish);
    if k > 1 {
        renaming_remembers(old, new_name, session, states, effects, events, k - 1);
    }
}

/// What a rename asks for, in one transaction: that no session has the new name; the record of
/// the session that was found, which must still have its old name; to delete just that record; to
/// store what it held under the new name; and to commit. What stands in the way has the
/// transaction rolled back and is the failure. The report gives the old name and the new one, and
/// that the session still runs exactly if its zellij session was just seen to.
#[verifier::rlimit(30)]
pub proof fn rename_moves_the_record(
    old: String,
    new_name: String,
    session: Model,
    states: Seq<RenameFlow>,
    effects: Seq<Effect>,
    events: Seq<Event>,
    k: int,
)
    requires
        is_run(states, effects, events),
        (states[0], effects[0]) == rename_begin(old, new_name),
        0 < k < effects.len(),
        events[0] == Event::Row(Some(session)),
    ensures
        effects[0] == (Effect::Resolve { query: old }),
        is_session_name(new_name@),
        match effects[k] {
            Effect::Begin => k == 1 && session.name@ != new_name@,
            Effect::FindByName { name } => k == 2 && name == new_name && events[1] == Event::Done,
            Effect::FindByUuid { uuid } => k == 3 && uuid == session.copilot_uuid && events[2]
                == Event::Row(None),
            Effect::DeleteRow { name, uuid } => {
                &&& k == 4 && name == session.name && uuid == session.copilot_uuid
                &&& events[3] matches Event::Row(Some(row)) && row.name@ == session.name@
            },
            Effect::InsertRenamed { row, name } => k == 5 && name == new_name && events[3]
                == Event::Row(Some(row)) && events[4] == Event::Count(1),
            Effect::Commit => k == 6 && effects[5] is InsertRenamed && events[5] == Event::Done,
            Effect::QueryZellij => k == 7 && events[6] == Event::Done && (events[3]
                matches Event::Row(Some(row)) && row.backend@ == BACKEND_LOCAL@),
            Effect::Report(notice) => {
                &&& notice matches Notice::Renamed { old_name, name, uuid, detail }
                &&& old_name == session.name && name == new_name && uuid == session.copilot_uuid
                &&& events[3] matches Event::Row(Some(row))
                &&& if row.backend@ == BACKEND_LOCAL@ {
                    k == 8 && (events[7] matches Event::Zellij(zellij) && detail == (if zellij_runs(
                        zellij@,
                        uuid@,
                    ) {
                        RenameDetail::StillRunning
                    } else {
                        RenameDetail::Nothing
                    }))
                } else {
                    k == 7 && row.backend@ == BACKEND_CODESPACE@ && events[6] == Event::Done
                        && detail == (if row.cached_codespace_state matches Some(state) && lower(
                        state@,
                    ) == lower("available"@) {
                        RenameDetail::CodespaceAvailable
                    } else {
                        RenameDetail::Nothing
                    })
                }
            },
            Effect::Rollback => {
                ||| k == 3 && (events[2] matches Event::Row(Some(_)))
                ||| k == 4 && (events[3] matches Event::Row(Some(row)) && row.name@
                    != session.name@)
                ||| k == 5 && (events[4] matches Event::Count(count) && count != 1)
            },
            Effect::Finish(Event::Done) => effects[k - 1] is Report,
            Effect::Finish(Event::Failed(f)) => {
                ||| just_failed(events, k, f) && effects[k - 1] !is Report
                ||| f == Failure::UnexpectedReply && misanswered(effects, events, k)
                ||| k == 1 && f == Failure::SameName && session.name@ == new_name@
                ||| k == 4 && f == Failure::DisappearedInRename && events[3] == Event::Row(None)
                ||| k == 4 && effects[3] is Rollback && f == (Failure::NameTaken { name: new_name })
                ||| k == 5 && effects[4] is Rollback && f == (Failure::RenamedConcurrently {
                    name: session.name,
                })
                ||| k == 6 && effects[5] is Rollback && f == (Failure::ChangedInRename {
                    name: session.name,
                })
                ||| k == 7 && (events[3] matches Event::Row(Some(row)) && row.backend@
                    != BACKEND_LOCAL@ && row.backend@ != BACKEND_CODESPACE@ && f == (
                Failure::UnknownBackend { name: new_name, backend: row.backend }))
            },
            _ => false,
        },
{
    assert(effects[0] !is Finish);
    renaming_remembers(old, new_name, session, states, effects, events, k);
    assert(states[k - 1].leads_to(events[k - 1], states[k], effects[k]));
    assert(effects[k - 1] !is Finish);
    if k > 1 {
        renaming_remembers(old, new_name, session, states, effects, events, k - 1);
    }
    if k > 3 {
        renaming_remembers(old, new_name, session, states, effects, events, 3);
        renaming_remembers(old, new_name, session, states, effects, events, 2);
        assert(states[2].leads_to(events[2], states[3], effects[3]));
        assert(effects[3] !is Finish);
    }
    if k > 4 {
        renaming_remembers(old, new_name, session, states, effects, events, 4);
        assert(states[3].leads_to(events[3], states[4], effects[4]));
        assert(effects[4] !is Finish);
    }
}

/// A rename to what is not a session name is refused before anything is asked for.
pub proof fn rename_checks_the_name(old: String, new_name: String)
    ensures
        !is_session_name(new_name@) ==> rename_begin(old, new_name).1 == Effect::Finish(
            Event::Failed(
                if new_name@.len() == 0 {
                    Failure::EmptyName
                } else {
                    Failure::NameCharacters
                },
            ),
        ),
        is_session_name(new_name@) ==> rename_begin(old, new_name).1 == (Effect::Resolve {
            query: old,
        }),
{
}

} // verus!
