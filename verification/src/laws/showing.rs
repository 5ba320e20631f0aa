//! Laws of what is stored of Codespaces, of refreshing it, and of what is shown.

use vstd::prelude::*;

use crate::codespace::laws::stored_states_are_read_back;
use crate::codespace::RemoteZellijState;
use crate::commands::list::{is_order, listed_before, SortKey};
use crate::commands::refresh::{refreshed, seen_of, session_at, RefreshFlow};
use crate::commands::states::{same_snapshot, stored_seen, stored_zellij};
use crate::commands::{cache_text, changed, CacheWord, RefreshUpdate, RowChange, STATUS_REMOVED};
use crate::display::{age_text, rank_of};
use crate::entity::session::Record;
use crate::flow::{is_run, Effect, Event, Flow};
use crate::text::lower;
use crate::zellij::{listed, runs, status_text};

verus! {

// ── The store ───────────────────────────────────────────────────────────────

/// The states in which a Codespace and its remote session were stored are those that are read
/// later; nothing else of the session changes but the time.
pub proof fn stored_cache_is_read_back(
    row: Record,
    state: CacheWord,
    zellij: RemoteZellijState,
    now: Seq<char>,
)
    ensures
        ({
            let after = changed(row, RowChange::Cache { state, zellij }, now);
            &&& stored_seen(after).state == cache_text(state)
            &&& stored_seen(after).branch == row.cached_codespace_branch
            &&& stored_zellij(after) == Some(zellij)
            &&& after.status == row.status && after.name == row.name
            &&& after.copilot_uuid == row.copilot_uuid && after.last_used_at == row.last_used_at
        }),
{
    stored_states_are_read_back(zellij);
}

/// What a refresh stores is what is read later.
pub proof fn refreshed_cache_is_read_back(update: RefreshUpdate, now: Seq<char>)
    ensures
        stored_seen(refreshed(update, now)).state == lower(seen_of(update.remote).state),
        stored_seen(refreshed(update, now)).branch == seen_of(update.remote).branch,
        stored_zellij(refreshed(update, now)) == Some(update.zellij),
        refreshed(update, now).name == update.latest@.name,
        refreshed(update, now).status == update.latest@.status,
{
    stored_states_are_read_back(update.zellij);
}

/// Removing a session and activating it again leaves everything but the time of its last use as
/// it was, if it was active.
pub proof fn activation_undoes_removal(row: Record, now: Seq<char>)
    requires
        row.status == crate::commands::STATUS_ACTIVE@,
    ensures
        changed(changed(row, RowChange::Remove, now), RowChange::Activate, now) == (Record {
            last_used_at: now,
            ..row
        }),
        changed(row, RowChange::Remove, now).status == STATUS_REMOVED@,
{
}

// ── Refreshing ──────────────────────────────────────────────────────────────

proof fn refresh_keeps_snapshot(
    states: Seq<RefreshFlow>,
    effects: Seq<Effect>,
    events: Seq<Event>,
    k: int,
)
    requires
        is_run(states, effects, events),
        states[0] is Login || states[0] is Over,
        effects[0] !is RefreshRow,
        0 <= k < effects.len(),
    ensures
        states[k] matches RefreshFlow::Clock { refresh, latest, .. } ==> (session_at(
            refresh@,
        ) matches Some(session) && same_snapshot(session@, latest@)),
        effects[k] matches Effect::RefreshRow(update) ==> (states[k] matches RefreshFlow::Write {
            refresh,
            ..
        } && (session_at(refresh@) matches Some(session) && same_snapshot(
            session@,
            update.latest@,
        ))),
    decreases k,
{
    if k > 0 {
        refresh_keeps_snapshot(states, effects, events, k - 1);
        assert(states[k - 1].leads_to(events[k - 1], states[k], effects[k]));
    }
}

/// A refresh writes only to a session whose stored state is still the one that the refresh
/// began with; what another process stored meanwhile is not overwritten.
pub proof fn refresh_overwrites_no_change(
    states: Seq<RefreshFlow>,
    effects: Seq<Effect>,
    events: Seq<Event>,
    k: int,
)
    requires
        is_run(states, effects, events),
        states[0] is Login || states[0] is Over,
        effects[0] !is RefreshRow,
        0 <= k < effects.len(),
    ensures
        effects[k] matches Effect::RefreshRow(update) ==> (states[k] matches RefreshFlow::Write {
            refresh,
            ..
        } && (session_at(refresh@) matches Some(session) && same_snapshot(
            session@,
            update.latest@,
        ))),
{
    refresh_keeps_snapshot(states, effects, events, k);
}

// ── Zellij sessions ─────────────────────────────────────────────────────────

/// A running session exists. A session shows as stopped exactly if it does not exist, and what
/// shows as running runs.
pub proof fn statuses_agree(sessions: Seq<(Seq<char>, bool)>, name: Seq<char>)
    ensures
        runs(sessions, name) ==> listed(sessions, name),
        status_text(sessions, name) == "stopped"@ <==> !listed(sessions, name),
        status_text(sessions, name) == "running"@ ==> runs(sessions, name),
        status_text(sessions, name) == "running"@ || status_text(sessions, name) == "exited"@
            || status_text(sessions, name) == "stopped"@,
    decreases sessions.len(),
{
    reveal_strlit("running");
    reveal_strlit("exited");
    reveal_strlit("stopped");
    assert("running"@[0] == 'r' && "exited"@[0] == 'e' && "stopped"@[0] == 's');
    if sessions.len() > 0 {
        let rest = sessions.drop_first();
        statuses_agree(rest, name);
        assert(sessions[0] == sessions.first());
        if listed(rest, name) {
            let i = choose|i: int| 0 <= i < rest.len() && (#[trigger] rest[i]).0 == name;
            assert(sessions[i + 1] == rest[i]);
        }
        if runs(rest, name) {
            let i = choose|i: int| 0 <= i < rest.len() && #[trigger] rest[i] == (name, true);
            assert(sessions[i + 1] == rest[i]);
        }
        if listed(sessions, name) && sessions[0].0 != name {
            let i = choose|i: int| 0 <= i < sessions.len() && (#[trigger] sessions[i]).0 == name;
            assert(rest[i - 1] == sessions[i]);
        }
        if runs(sessions, name) {
            let i = choose|i: int|
                0 <= i < sessions.len() && #[trigger] sessions[i] == (name, true);
            assert(sessions[i].0 == name);
        }
    }
}

/// Where no two sessions have one name, a session shows as running exactly if it runs, as
/// exited exactly if it exists and does not run, and as stopped exactly if it does not exist.
pub proof fn statuses_tell_sessions_apart(sessions: Seq<(Seq<char>, bool)>, name: Seq<char>)
    requires
        forall|i: int, j: int|
            0 <= i < j < sessions.len() ==> (#[trigger] sessions[i]).0 != (#[trigger] sessions[j]).0,
    ensures
        status_text(sessions, name) == "running"@ <==> runs(sessions, name),
        status_text(sessions, name) == "exited"@ <==> listed(sessions, name) && !runs(
            sessions,
            name,
        ),
        status_text(sessions, name) == "stopped"@ <==> !listed(sessions, name),
    decreases sessions.len(),
{
    reveal_strlit("running");
    reveal_strlit("exited");
    reveal_strlit("stopped");
    assert("running"@[0] == 'r' && "exited"@[0] == 'e' && "stopped"@[0] == 's');
    statuses_agree(sessions, name);
    if sessions.len() > 0 {
        let rest = sessions.drop_first();
        assert(sessions[0] == sessions.first());
        if sessions[0].0 == name {
            if runs(sessions, name) {
                let i = choose|i: int|
                    0 <= i < sessions.len() && #[trigger] sessions[i] == (name, true);
                assert(i == 0);
            }
        } else {
            assert forall|i: int, j: int| 0 <= i < j < rest.len() implies (
            #[trigger] rest[i]).0 != (#[trigger] rest[j]).0 by {
                assert(rest[i] == sessions[i + 1] && rest[j] == sessions[j + 1]);
            }
            statuses_tell_sessions_apart(rest, name);
            if runs(sessions, name) {
                let i = choose|i: int|
                    0 <= i < sessions.len() && #[trigger] sessions[i] == (name, true);
                assert(rest[i - 1] == sessions[i]);
            }
        }
    }
}

// ── Listings ────────────────────────────────────────────────────────────────

/// Running sessions rank before exited ones, those before stopped ones, those before removed
/// ones, and those before all others.
pub proof fn statuses_are_ranked(other: Seq<char>)
    requires
        other != "running"@ && other != "exited"@ && other != "stopped"@ && other != "removed"@,
    ensures
        rank_of("running"@) < rank_of("exited"@) < rank_of("stopped"@) < rank_of("removed"@)
            < rank_of(other),
{
    reveal_strlit("running");
    reveal_strlit("exited");
    reveal_strlit("stopped");
    reveal_strlit("removed");
    assert("running"@[0] == 'r' && "exited"@[0] == 'e' && "stopped"@[0] == 's');
    assert("removed"@[0] == 'r' && "removed"@[1] == 'e' && "running"@[1] == 'u');
}

proof fn order_has_no_duplicates(keys: Seq<SortKey>, order: Seq<usize>)
    requires
        is_order(keys, order),
    ensures
        order.no_duplicates(),
{
    assert forall|i: int, j: int| 0 <= i < order.len() && 0 <= j < order.len() && i
        != j implies order[i] != order[j] by {
        if i < j {
            assert(listed_before(keys, order[i] as int, order[j] as int));
            crate::commands::list::no_session_precedes_itself(keys, order[i] as int);
        } else {
            assert(listed_before(keys, order[j] as int, order[i] as int));
            crate::commands::list::no_session_precedes_itself(keys, order[i] as int);
        }
    }
}

/// A listing holds every session exactly once.
pub proof fn every_session_is_listed_once(keys: Seq<SortKey>, order: Seq<usize>, i: int)
    requires
        is_order(keys, order),
        keys.len() <= usize::MAX,
        0 <= i < keys.len(),
    ensures
        order.contains(i as usize),
        order.no_duplicates(),
{
    order_has_no_duplicates(keys, order);
    let all = Set::new(|k: usize| k < keys.len());
    let ints = vstd::set_lib::set_int_range(0, keys.len() as int);
    vstd::set_lib::lemma_int_range(0, keys.len() as int);
    let to_usize = |k: int| k as usize;
    assert(all =~= ints.map(to_usize)) by {
        assert forall|k: usize| all.contains(k) == ints.map(to_usize).contains(k) by {
            if all.contains(k) {
                assert(ints.contains(k as int) && to_usize(k as int) == k);
            }
        }
    }
    vstd::set_lib::lemma_map_size(ints, all, to_usize);
    ints.lemma_map_finite(to_usize);
    let listed_set = order.to_set();
    order.unique_seq_to_set();
    assert(listed_set.subset_of(all)) by {
        assert forall|k: usize| listed_set.contains(k) implies all.contains(k) by {
            let j = order.index_of(k);
            assert(order[j] == k);
        }
    }
    vstd::set_lib::lemma_subset_equality(listed_set, all);
    assert(all.contains(i as usize));
}

// ── Ages ────────────────────────────────────────────────────────────────────

/// An age of less than a minute, or one that lies in the future, shows as "now".
pub proof fn recent_times_show_as_now(secs: int)
    requires
        secs < 60,
    ensures
        age_text(secs) == "now"@,
{
}

} // verus!
