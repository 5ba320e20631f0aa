//! Laws of removing, deleting and renaming sessions: what holds of every run.

use vstd::prelude::*;

use crate::clock::Moment;
use crate::codespace::operations::{stop_begin, StopFlow};
use crate::commands::remove::{
    has_branch, idle_for, remove_one_begin, with_idle, with_target, RemoveOneFlow,
};
use crate::commands::rename::{rename_begin, RenameFlow};
use crate::commands::sessions::{
    delete_session_by_uuid_begin, names_of, stop_codespace_and_cache_begin, DeleteSessionFlow,
    StopAndCacheFlow,
};
use crate::commands::{renamed, BACKEND_CODESPACE, BACKEND_LOCAL};
use crate::entity::session::{Model, Record};
use crate::flow::{is_run, Effect, Event, Flow};
use crate::gh::GhCall;
use crate::git::{lies_under, Dir};

verus! {

// ── Removing one session ────────────────────────────────────────────────────

/// The effect deletes something for good: a Codespace, a branch, a record or the files of a
/// session.
pub open spec fn destroys(effect: Effect) -> bool {
    effect is DeleteIfExists || effect is DeleteCodespace || effect is DeleteSession
        || effect is DeleteByUuid || effect is DeleteByName || effect is DeleteRow
        || effect is CleanupFiles || effect is DeleteBranch
}

proof fn soft_removal_stays_soft(
    session: Model,
    csm_dir: String,
    live: bool,
    states: Seq<RemoveOneFlow>,
    effects: Seq<Effect>,
    events: Seq<Event>,
    k: int,
)
    requires
        is_run(states, effects, events),
        (states[0], effects[0]) == remove_one_begin(session, csm_dir, live, false),
        0 <= k < effects.len(),
    ensures
        !destroys(effects[k]),
        match states[k] {
            RemoveOneFlow::Zellij { force, .. } => !force,
            RemoveOneFlow::Worktree { force, .. } => !force,
            RemoveOneFlow::Delete { .. } => false,
            RemoveOneFlow::Branch { .. } => false,
            RemoveOneFlow::Files { .. } => false,
            RemoveOneFlow::Record { .. } => false,
            _ => true,
        },
    decreases k,
{
    if k > 0 {
        soft_removal_stays_soft(session, csm_dir, live, states, effects, events, k - 1);
        assert(states[k - 1].leads_to(events[k - 1], states[k], effects[k]));
    }
}

/// A soft removal deletes neither a Codespace nor a branch nor a record nor the files of a
/// session.
pub proof fn soft_removal_destroys_nothing(
    session: Model,
    csm_dir: String,
    live: bool,
    states: Seq<RemoveOneFlow>,
    effects: Seq<Effect>,
    events: Seq<Event>,
    k: int,
)
    requires
        is_run(states, effects, events),
        (states[0], effects[0]) == remove_one_begin(session, csm_dir, live, false),
        0 <= k < effects.len(),
    ensures
        !destroys(effects[k]),
{
    soft_removal_stays_soft(session, csm_dir, live, states, effects, events, k);
}

/// Before place `k` a Codespace was asked to be deleted, and it was.
pub open spec fn codespace_was_deleted(effects: Seq<Effect>, events: Seq<Event>, k: int) -> bool {
    exists|j: int|
        0 <= j < k && #[trigger] effects[j] is DeleteIfExists && events[j] == Event::Done
}

proof fn forced_removal_keeps_order(
    session: Model,
    csm_dir: String,
    live: bool,
    states: Seq<RemoveOneFlow>,
    effects: Seq<Effect>,
    events: Seq<Event>,
    k: int,
)
    requires
        is_run(states, effects, events),
        (states[0], effects[0]) == remove_one_begin(session, csm_dir, live, true),
        session.backend@ == BACKEND_CODESPACE@,
        BACKEND_CODESPACE@ != BACKEND_LOCAL@,
        0 <= k < effects.len(),
    ensures
        match states[k] {
            RemoveOneFlow::Zellij { session: s, csm_dir: c, force } => s == session && force,
            RemoveOneFlow::Worktree { .. } => false,
            RemoveOneFlow::Delete { session: s } => s == session && effects[k] is DeleteIfExists,
            RemoveOneFlow::Branch { .. } => false,
            RemoveOneFlow::Stop { .. } => false,
            RemoveOneFlow::Mark { .. } => false,
            RemoveOneFlow::Over => effects[k] is Finish,
            _ => codespace_was_deleted(effects, events, k),
        },
        effects[k] is DeleteSession || effects[k] is CleanupFiles ==> codespace_was_deleted(
            effects,
            events,
            k,
        ),
    decreases k,
{
    if k > 0 {
        forced_removal_keeps_order(session, csm_dir, live, states, effects, events, k - 1);
        assert(states[k - 1].leads_to(events[k - 1], states[k], effects[k]));
        if codespace_was_deleted(effects, events, k - 1) {
            let j = choose|j: int|
                0 <= j < k - 1 && #[trigger] effects[j] is DeleteIfExists && events[j]
                    == Event::Done;
            assert(effects[j] is DeleteIfExists);
            assert(codespace_was_deleted(effects, events, k));
        }
        if states[k - 1] is Delete && events[k - 1] == Event::Done {
            assert(effects[k - 1] is DeleteIfExists);
            assert(codespace_was_deleted(effects, events, k));
        }
    }
}

/// When a Codespace session is destroyed, its record and its files are deleted only after its
/// Codespace was: what is still billed is never forgotten.
pub proof fn record_goes_after_its_codespace(
    session: Model,
    csm_dir: String,
    live: bool,
    states: Seq<RemoveOneFlow>,
    effects: Seq<Effect>,
    events: Seq<Event>,
    k: int,
)
    requires
        is_run(states, effects, events),
        (states[0], effects[0]) == remove_one_begin(session, csm_dir, live, true),
        session.backend@ == BACKEND_CODESPACE@,
        0 <= k < effects.len(),
        effects[k] is DeleteSession || effects[k] is CleanupFiles,
    ensures
        codespace_was_deleted(effects, events, k),
{
    reveal_strlit("codespace");
    reveal_strlit("local");
    assert(BACKEND_CODESPACE@[0] == 'c' && BACKEND_LOCAL@[0] == 'l');
    forced_removal_keeps_order(session, csm_dir, live, states, effects, events, k);
}

/// Before place `k` the branch of a session was asked to be deleted.
pub open spec fn branch_was_deleted(session: Model, effects: Seq<Effect>, k: int) -> bool {
    exists|j: int|
        0 <= j < k && #[trigger] effects[j] == (Effect::DeleteBranch {
            repo: session.source_repo,
            branch: session.branch,
        })
}

proof fn destruction_includes_the_branch(
    session: Model,
    csm_dir: String,
    live: bool,
    states: Seq<RemoveOneFlow>,
    effects: Seq<Effect>,
    events: Seq<Event>,
    k: int,
)
    requires
        is_run(states, effects, events),
        (states[0], effects[0]) == remove_one_begin(session, csm_dir, live, true),
        has_branch(session),
        0 <= k < effects.len(),
    ensures
        match states[k] {
            RemoveOneFlow::Zellij { session: s, csm_dir: c, force } => s == session && force,
            RemoveOneFlow::Worktree { session: s, force } => s == session && force,
            RemoveOneFlow::Branch { .. } => branch_was_deleted(session, effects, k + 1),
            RemoveOneFlow::Delete { .. } => false,
            RemoveOneFlow::Stop { .. } => false,
            RemoveOneFlow::Mark { .. } => false,
            RemoveOneFlow::Over => effects[k] is Finish,
            _ => branch_was_deleted(session, effects, k),
        },
        effects[k] is DeleteSession ==> states[k] is Record,
    decreases k,
{
    reveal_strlit("codespace");
    reveal_strlit("local");
    assert(BACKEND_CODESPACE@[0] == 'c' && BACKEND_LOCAL@[0] == 'l');
    if k > 0 {
        destruction_includes_the_branch(session, csm_dir, live, states, effects, events, k - 1);
        assert(states[k - 1].leads_to(events[k - 1], states[k], effects[k]));
    }
    if states[k] is Branch {
        assert(effects[k] == (Effect::DeleteBranch {
            repo: session.source_repo,
            branch: session.branch,
        }));
    }
}

/// When a session with a branch of its own is destroyed, its branch is deleted before its
/// record.
pub proof fn branch_goes_with_its_session(
    session: Model,
    csm_dir: String,
    live: bool,
    states: Seq<RemoveOneFlow>,
    effects: Seq<Effect>,
    events: Seq<Event>,
    k: int,
)
    requires
        is_run(states, effects, events),
        (states[0], effects[0]) == remove_one_begin(session, csm_dir, live, true),
        has_branch(session),
        0 <= k < effects.len(),
        effects[k] is DeleteSession,
    ensures
        branch_was_deleted(session, effects, k),
{
    destruction_includes_the_branch(session, csm_dir, live, states, effects, events, k);
}

proof fn removal_keeps_its_session(
    session: Model,
    csm_dir: String,
    live: bool,
    force: bool,
    states: Seq<RemoveOneFlow>,
    effects: Seq<Effect>,
    events: Seq<Event>,
    k: int,
)
    requires
        is_run(states, effects, events),
        (states[0], effects[0]) == remove_one_begin(session, csm_dir, live, force),
        0 <= k < effects.len(),
    ensures
        effects[k] matches Effect::RemoveWorktree { repo, dir } ==> repo == session.source_repo
            && dir == Dir::At(session.worktree_path) && lies_under(
            session.worktree_path@,
            csm_dir@,
        ),
        states[k] matches RemoveOneFlow::Zellij { session: s, csm_dir: c, .. } ==> s == session
            && c == csm_dir,
    decreases k,
{
    if k > 0 {
        removal_keeps_its_session(session, csm_dir, live, force, states, effects, events, k - 1);
        assert(states[k - 1].leads_to(events[k - 1], states[k], effects[k]));
    }
}

/// The worktree of a session is removed only if it lies under the data directory: a directory
/// of the user is never touched.
pub proof fn only_managed_worktrees_are_removed(
    session: Model,
    csm_dir: String,
    live: bool,
    force: bool,
    states: Seq<RemoveOneFlow>,
    effects: Seq<Effect>,
    events: Seq<Event>,
    k: int,
)
    requires
        is_run(states, effects, events),
        (states[0], effects[0]) == remove_one_begin(session, csm_dir, live, force),
        0 <= k < effects.len(),
        effects[k] is RemoveWorktree,
    ensures
        effects[k] == (Effect::RemoveWorktree {
            repo: session.source_repo,
            dir: Dir::At(session.worktree_path),
        }),
        lies_under(session.worktree_path@, csm_dir@),
{
    removal_keeps_its_session(session, csm_dir, live, force, states, effects, events, k);
}

/// What a soft removal asks for deletes nothing either: to stop a Codespace and to store that
/// it is stopped asks for nothing else.
pub proof fn stopping_and_storing_only_stops(
    name: String,
    github_login: String,
    uuid: String,
    states: Seq<StopAndCacheFlow>,
    effects: Seq<Effect>,
    events: Seq<Event>,
    k: int,
)
    requires
        is_run(states, effects, events),
        (states[0], effects[0]) == stop_codespace_and_cache_begin(name, github_login, uuid),
        0 <= k < effects.len(),
    ensures
        effects[k] is StopCodespace || effects[k] is SetCache || effects[k] is Finish,
{
    if k > 0 {
        assert(states[k - 1].leads_to(events[k - 1], states[k], effects[k]));
    }
}

/// To stop a Codespace asks `gh` for the account, to stop the Codespace and for its state, and
/// for nothing else.
pub proof fn stopping_only_stops(
    name: String,
    github_login: String,
    states: Seq<StopFlow>,
    effects: Seq<Effect>,
    events: Seq<Event>,
    k: int,
)
    requires
        is_run(states, effects, events),
        (states[0], effects[0]) == stop_begin(name, github_login),
        0 <= k < effects.len(),
    ensures
        effects[k] is Finish || effects[k] == Effect::Gh(GhCall::Login) || (effects[k] matches
            Effect::Gh(GhCall::Stop { .. })) || (effects[k] matches Effect::Gh(
            GhCall::State { .. },
        )),
{
    if k > 0 {
        assert(states[k - 1].leads_to(events[k - 1], states[k], effects[k]));
    }
}

// ── Removing several sessions ───────────────────────────────────────────────

/// No two sessions have the same name.
pub open spec fn distinct_names(rows: Seq<Model>) -> bool {
    forall|i: int, j: int|
        0 <= i < j < rows.len() ==> (#[trigger] rows[i]).name@ != (#[trigger] rows[j]).name@
}

/// Adding a session to those that are to be removed keeps their names distinct, drops none of
/// them, and leaves one with the name of the added session among them.
pub proof fn no_session_is_removed_twice(targets: Seq<Model>, session: Model)
    requires
        distinct_names(targets),
    ensures
        distinct_names(with_target(targets, session)),
        with_target(targets, session).len() >= targets.len(),
        with_target(targets, session).take(targets.len() as int) == targets,
        names_of(with_target(targets, session)).contains(session.name@),
{
    let all = with_target(targets, session);
    assert(all.take(targets.len() as int) =~= targets);
    if !names_of(targets).contains(session.name@) {
        assert forall|i: int| 0 <= i < targets.len() implies (#[trigger] targets[i]).name@
            != session.name@ by {
            assert(names_of(targets)[i] == targets[i].name@);
        }
        assert(names_of(all)[targets.len() as int] == session.name@);
    }
}

/// Every session that has not been used for the given number of days is among those that are
/// removed, by its name, and nothing else is added.
pub proof fn idle_sessions_are_removed(
    targets: Seq<Model>,
    rows: Seq<Model>,
    days: u64,
    at: Moment,
)
    requires
        distinct_names(targets),
    ensures
        distinct_names(with_idle(targets, rows, days, at)),
        forall|i: int|
            0 <= i < rows.len() && idle_for(#[trigger] rows[i], days, at) ==> names_of(
                with_idle(targets, rows, days, at),
            ).contains(rows[i].name@),
        forall|k: int|
            targets.len() <= k < with_idle(targets, rows, days, at).len() ==> rows.contains(
                #[trigger] with_idle(targets, rows, days, at)[k],
            ) && idle_for(with_idle(targets, rows, days, at)[k], days, at),
        with_idle(targets, rows, days, at).len() >= targets.len(),
    decreases rows.len(),
{
    if rows.len() > 0 {
        let rest = rows.drop_last();
        let last = rows[rows.len() - 1];
        idle_sessions_are_removed(targets, rest, days, at);
        let before = with_idle(targets, rest, days, at);
        let all = with_idle(targets, rows, days, at);
        no_session_is_removed_twice(before, last);
        assert forall|i: int| 0 <= i < rows.len() && idle_for(
            #[trigger] rows[i],
            days,
            at,
        ) implies names_of(all).contains(rows[i].name@) by {
            if i < rest.len() {
                assert(rest[i] == rows[i]);
                let k = names_of(before).index_of(rows[i].name@);
                assert(names_of(before)[k] == rows[i].name@);
                assert(all[k] == before[k]) by {
                    assert(all.take(before.len() as int)[k] == all[k]);
                }
                assert(names_of(all)[k] == rows[i].name@);
            }
        }
        assert forall|k: int| targets.len() <= k < all.len() implies rows.contains(
            #[trigger] all[k],
        ) && idle_for(all[k], days, at) by {
            if k < before.len() {
                assert(all.take(before.len() as int)[k] == all[k]);
                assert(before[k] == all[k]);
                let i = rest.index_of(before[k]);
                assert(rows[i] == all[k]);
            } else {
                assert(all[k] == last);
                assert(rows[rows.len() - 1] == all[k]);
            }
        }
    }
}

// ── Deleting a record ───────────────────────────────────────────────────────

proof fn deletion_asks_in_order(
    uuid: String,
    states: Seq<DeleteSessionFlow>,
    effects: Seq<Effect>,
    events: Seq<Event>,
    k: int,
)
    requires
        is_run(states, effects, events),
        (states[0], effects[0]) == delete_session_by_uuid_begin(uuid),
        0 <= k < effects.len(),
    ensures
        match states[k] {
            DeleteSessionFlow::Begin { uuid: u } => k == 0 && u == uuid && effects[k]
                == Effect::Begin,
            DeleteSessionFlow::Count { uuid: u } => k == 1 && u == uuid && effects[k] == (
            Effect::FindAllByUuid { uuid }),
            DeleteSessionFlow::Delete { uuid: u } => {
                &&& k == 2 && u == uuid && effects[k] == (Effect::DeleteByUuid { uuid })
                &&& effects[1] == (Effect::FindAllByUuid { uuid })
                &&& events[1] matches Event::Rows(rows) && rows@.len() == 1
            },
            DeleteSessionFlow::Commit => effects[k] == Effect::Commit,
            DeleteSessionFlow::RollBack { .. } => effects[k] == Effect::Rollback,
            DeleteSessionFlow::Over => effects[k] is Finish,
        },
    decreases k,
{
    if k > 0 {
        deletion_asks_in_order(uuid, states, effects, events, k - 1);
        assert(states[k - 1].leads_to(events[k - 1], states[k], effects[k]));
    }
}

/// A deletion is committed only if exactly one session with the UUID was found and exactly one
/// was deleted; with any other number it is rolled back.
pub proof fn exactly_one_record_is_deleted(
    uuid: String,
    states: Seq<DeleteSessionFlow>,
    effects: Seq<Effect>,
    events: Seq<Event>,
    k: int,
)
    requires
        is_run(states, effects, events),
        (states[0], effects[0]) == delete_session_by_uuid_begin(uuid),
        0 <= k < effects.len(),
    ensures
        effects[k] == Effect::Commit ==> {
            &&& k == 3
            &&& effects[1] == (Effect::FindAllByUuid { uuid })
            &&& events[1] matches Event::Rows(rows) && rows@.len() == 1
            &&& effects[2] == (Effect::DeleteByUuid { uuid })
            &&& events[2] == Event::Count(1)
        },
        k > 0 && effects[k - 1] is DeleteByUuid && (events[k - 1] matches Event::Count(n) && n != 1)
            ==> effects[k] == Effect::Rollback,
{
    deletion_asks_in_order(uuid, states, effects, events, k);
    if k > 0 {
        deletion_asks_in_order(uuid, states, effects, events, k - 1);
        assert(states[k - 1].leads_to(events[k - 1], states[k], effects[k]));
    }
}

// ── Renaming ────────────────────────────────────────────────────────────────

/// Before place `k` the new name was looked for, and no session had it.
pub open spec fn name_was_unused(
    effects: Seq<Effect>,
    events: Seq<Event>,
    k: int,
    name: String,
) -> bool {
    exists|j: int|
        0 <= j < k && #[trigger] effects[j] == (Effect::FindByName { name }) && events[j]
            == Event::Row(None)
}

proof fn renaming_keeps_order(
    old: String,
    new_name: String,
    states: Seq<RenameFlow>,
    effects: Seq<Effect>,
    events: Seq<Event>,
    k: int,
)
    requires
        is_run(states, effects, events),
        (states[0], effects[0]) == rename_begin(old, new_name),
        0 <= k < effects.len(),
    ensures
        match states[k] {
            RenameFlow::Resolve { new_name: n } => n == new_name,
            RenameFlow::Begin { new_name: n, .. } => n == new_name && effects[k] == Effect::Begin,
            RenameFlow::Taken { new_name: n, .. } => n == new_name && effects[k] == (
            Effect::FindByName { name: new_name }),
            RenameFlow::Find { new_name: n, .. } => n == new_name && name_was_unused(
                effects,
                events,
                k,
                new_name,
            ),
            RenameFlow::Delete { session, old_name, uuid, new_name: n } => {
                &&& n == new_name && name_was_unused(effects, events, k, new_name)
                &&& effects[k] == (Effect::DeleteRow { name: old_name, uuid })
                &&& session.name@ == old_name@
            },
            RenameFlow::Insert { session, new_name: n, .. } => n == new_name && effects[k] == (
            Effect::InsertRenamed { row: session, name: new_name }),
            RenameFlow::Commit { .. } => effects[k] == Effect::Commit,
            _ => true,
        },
        effects[k] is Commit ==> states[k] is Commit,
        effects[k] is InsertRenamed ==> states[k] is Insert,
    decreases k,
{
    if k > 0 {
        renaming_keeps_order(old, new_name, states, effects, events, k - 1);
        assert(states[k - 1].leads_to(events[k - 1], states[k], effects[k]));
        if name_was_unused(effects, events, k - 1, new_name) {
            let j = choose|j: int|
                0 <= j < k - 1 && #[trigger] effects[j] == (Effect::FindByName { name: new_name })
                    && events[j] == Event::Row(None);
            assert(effects[j] == (Effect::FindByName { name: new_name }));
            assert(name_was_unused(effects, events, k, new_name));
        }
        if states[k - 1] is Taken && events[k - 1] == Event::Row(None) {
            assert(effects[k - 1] == (Effect::FindByName { name: new_name }));
            assert(name_was_unused(effects, events, k, new_name));
        }
    }
}

/// A session is stored under its new name only if no session had that name and exactly one
/// record, that of the session, was deleted before it; and this is committed only once it is
/// stored. So a rename neither loses nor doubles a session.
pub proof fn renaming_replaces_one_record(
    old: String,
    new_name: String,
    states: Seq<RenameFlow>,
    effects: Seq<Effect>,
    events: Seq<Event>,
    k: int,
)
    requires
        is_run(states, effects, events),
        (states[0], effects[0]) == rename_begin(old, new_name),
        0 <= k < effects.len(),
    ensures
        effects[k] matches Effect::InsertRenamed { row, name } ==> {
            &&& name == new_name && k > 0
            &&& name_was_unused(effects, events, k, new_name)
            &&& effects[k - 1] matches Effect::DeleteRow { name: deleted, .. }
            &&& deleted@ == row.name@ && events[k - 1] == Event::Count(1)
        },
        effects[k] is Commit ==> k > 0 && effects[k - 1] is InsertRenamed && events[k - 1]
            == Event::Done,
{
    renaming_keeps_order(old, new_name, states, effects, events, k);
    if k > 0 {
        renaming_keeps_order(old, new_name, states, effects, events, k - 1);
        assert(states[k - 1].leads_to(events[k - 1], states[k], effects[k]));
        if name_was_unused(effects, events, k - 1, new_name) {
            let j = choose|j: int|
                0 <= j < k - 1 && #[trigger] effects[j] == (Effect::FindByName { name: new_name })
                    && events[j] == Event::Row(None);
            assert(effects[j] == (Effect::FindByName { name: new_name }));
        }
    }
}

/// A renamed session keeps everything but its name and when it was last used.
pub proof fn renaming_keeps_the_session(row: Record, name: Seq<char>, now: Seq<char>)
    ensures
        renamed(renamed(row, name, now), row.name, row.last_used_at) == row,
{
}

} // verus!
