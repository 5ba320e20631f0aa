//! Laws of what is known of Codespaces, and of refreshing it.

use vstd::prelude::*;

use crate::codespace::laws::stored_states_are_read_back;
use crate::codespace::{state_word, RemoteState, RemoteZellijState};
use crate::commands::local::{zellij_listed, zellij_runs};
use crate::commands::refresh::{
    any_codespace, first_due, has_codespace, is_due, is_refresh_begin, is_visiting, refreshed, seen_of, Due, Progress,
    RefreshFlow,
};
use crate::commands::states::{
    cached_states, codespace_status, fresh, same_snapshot, shown_branch, shown_status,
    stored_zellij, Known, Seen,
};
use crate::commands::{
    details_of, CodespaceDetails, Observation, RefreshUpdate, BACKEND_CODESPACE, BACKEND_LOCAL,
    STATUS_REMOVED,
};
use crate::entity::session::{Model, Record};
use crate::failure::Failure;
use crate::flow::{is_run, Effect, Event, Flow};
use crate::gh::GhCall;
use crate::laws::history::{just_failed, misanswered};
use crate::text::{lower, opt_text};
use crate::zellij::State;

verus! {

// ── Knowing ─────────────────────────────────────────────────────────────────

/// What is known of every Codespace but `name` is the same.
pub open spec fn agree_elsewhere(a: Known, b: Known, name: Seq<char>) -> bool {
    &&& a.current_login == b.current_login
    &&& forall|n: Seq<char>|
        n != name ==> (#[trigger] a.values.contains_key(n) <==> b.values.contains_key(n))
    &&& forall|n: Seq<char>|
        n != name && a.values.contains_key(n) ==> #[trigger] a.values[n] == b.values[n]
    &&& forall|n: Seq<char>|
        n != name ==> (#[trigger] a.zellij_values.contains_key(n) <==> b.zellij_values.contains_key(
            n,
        ))
    &&& forall|n: Seq<char>|
        n != name && a.zellij_values.contains_key(n) ==> #[trigger] a.zellij_values[n]
            == b.zellij_values[n]
}

/// What is known of a Codespace after it was seen is what was seen; of the others it is what it
/// was.
pub proof fn what_is_seen_is_known(
    known: Known,
    name: Seq<char>,
    seen: Seen,
    zellij: RemoteZellijState,
)
    ensures
        ({
            let after = known.with_seen(name, seen, zellij);
            &&& after.values.contains_key(name) && after.values[name] == seen
            &&& after.zellij_values.contains_key(name) && after.zellij_values[name] == zellij
            &&& agree_elsewhere(after, known, name)
        }),
{
}

/// What is known of a Codespace after a session was read anew is what is stored with the session,
/// and of its remote session nothing if nothing is stored; of the others it is what it was.
pub proof fn what_is_stored_is_known(known: Known, name: Seq<char>, session: Record)
    ensures
        ({
            let after = known.with_cache(name, session);
            &&& after.values.contains_key(name)
            &&& after.values[name].state == (match session.cached_codespace_state {
                Some(state) => state,
                None => "unknown"@,
            })
            &&& after.values[name].branch == session.cached_codespace_branch
            &&& session.cached_zellij_state is None ==> !after.zellij_values.contains_key(name)
            &&& agree_elsewhere(after, known, name)
        }),
        forall|zellij: RemoteZellijState|
            session.cached_zellij_state == Some(#[trigger] state_word(zellij))
                ==> known.with_cache(name, session).zellij_values.contains_key(name)
                && known.with_cache(name, session).zellij_values[name] == zellij,
{
    assert forall|zellij: RemoteZellijState|
        session.cached_zellij_state == Some(
            #[trigger] state_word(zellij),
        ) implies known.with_cache(name, session).zellij_values.contains_key(name)
        && known.with_cache(name, session).zellij_values[name] == zellij by {
        stored_states_are_read_back(zellij);
    }
}

/// The session is one with the Codespace `name`.
pub open spec fn is_in(session: Record, name: Seq<char>) -> bool {
    session.backend == BACKEND_CODESPACE@ && session.codespace_name == Some(name)
}

/// What is known before anything is asked comes from the last session with the Codespace: its
/// stored state and branch. Nothing is known of a Codespace that no session has, and no account
/// was asked.
pub proof fn last_session_is_known(
    sessions: Seq<Model>,
    local: Seq<(Seq<char>, bool)>,
    name: Seq<char>,
    i: int,
)
    requires
        0 <= i < sessions.len(),
        is_in(sessions[i]@, name),
        forall|j: int| i < j < sessions.len() ==> !is_in((#[trigger] sessions[j])@, name),
    ensures
        ({
            let known = cached_states(sessions, local);
            &&& known.current_login is None
            &&& known.values.contains_key(name)
            &&& known.values[name].state == (match sessions[i]@.cached_codespace_state {
                Some(state) => state,
                None => "unknown"@,
            })
            &&& known.values[name].branch == sessions[i]@.cached_codespace_branch
            &&& zellij_runs(local, sessions[i]@.copilot_uuid) ==> known.zellij_values.contains_key(
                name,
            ) && known.zellij_values[name] is Running
            &&& !zellij_runs(local, sessions[i]@.copilot_uuid) && zellij_listed(
                local,
                sessions[i]@.copilot_uuid,
            ) ==> known.zellij_values.contains_key(name) && known.zellij_values[name] is Exited
            &&& forall|zellij: RemoteZellijState|
                !zellij_runs(local, sessions[i]@.copilot_uuid) && !zellij_listed(
                    local,
                    sessions[i]@.copilot_uuid,
                ) && sessions[i]@.cached_zellij_state == Some(
                    #[trigger] state_word(zellij),
                ) ==> known.zellij_values.contains_key(name) && known.zellij_values[name] == zellij
        }),
    decreases sessions.len(),
{
    let rest = sessions.drop_last();
    assert(sessions.last() == sessions[sessions.len() - 1]);
    no_account_is_asked(rest, local);
    if i == sessions.len() - 1 {
        assert forall|zellij: RemoteZellijState|
            sessions[i]@.cached_zellij_state == Some(
                #[trigger] state_word(zellij),
            ) implies stored_zellij(sessions[i]@) == Some(zellij) by {
            stored_states_are_read_back(zellij);
        }
    } else {
        assert(rest[i] == sessions[i]);
        assert forall|j: int| i < j < rest.len() implies !is_in((#[trigger] rest[j])@, name) by {
            assert(rest[j] == sessions[j]);
        }
        assert(!is_in(sessions[sessions.len() - 1]@, name));
        last_session_is_known(rest, local, name, i);
    }
}

proof fn no_account_is_asked(sessions: Seq<Model>, local: Seq<(Seq<char>, bool)>)
    ensures
        cached_states(sessions, local).current_login is None,
    decreases sessions.len(),
{
    if sessions.len() > 0 {
        no_account_is_asked(sessions.drop_last(), local);
    }
}

/// Nothing is known of a Codespace that no session has.
pub proof fn other_codespaces_are_unknown(
    sessions: Seq<Model>,
    local: Seq<(Seq<char>, bool)>,
    name: Seq<char>,
)
    requires
        forall|j: int| 0 <= j < sessions.len() ==> !is_in((#[trigger] sessions[j])@, name),
    ensures
        !cached_states(sessions, local).values.contains_key(name),
        !cached_states(sessions, local).zellij_values.contains_key(name),
    decreases sessions.len(),
{
    if sessions.len() > 0 {
        let rest = sessions.drop_last();
        assert forall|j: int| 0 <= j < rest.len() implies !is_in((#[trigger] rest[j])@, name) by {
            assert(rest[j] == sessions[j]);
        }
        assert(!is_in(sessions[sessions.len() - 1]@, name));
        other_codespaces_are_unknown(rest, local, name);
    }
}

// ── Showing ─────────────────────────────────────────────────────────────────

/// What shows of a remote session in this state.
pub open spec fn shown_word(zellij: RemoteZellijState) -> Seq<char> {
    match zellij {
        RemoteZellijState::Connecting => "running"@,
        RemoteZellijState::Running => "running"@,
        RemoteZellijState::LegacyTmux => "running"@,
        RemoteZellijState::Exited => "exited"@,
        RemoteZellijState::Missing => "stopped"@,
    }
}

/// A Codespace session of the account that was asked shows what was last seen of it: the state of
/// its remote session, then that of its Codespace in small letters; and as its branch the one that
/// was seen, if one was.
pub proof fn what_is_seen_shows(
    session: Model,
    local: Seq<(Seq<char>, bool)>,
    known: Known,
    details: CodespaceDetails,
    seen: Seen,
    zellij: RemoteZellijState,
    checked_out: Option<Seq<char>>,
)
    requires
        session.status@ != STATUS_REMOVED@,
        session.backend@ == BACKEND_CODESPACE@,
        details_of(session) == Ok::<CodespaceDetails, Failure>(details),
        known.current_login is None || known.current_login == Some(details.github_login@),
    ensures
        ({
            let after = known.with_seen(details.name@, seen, zellij);
            &&& shown_status(session, local, after) == Ok::<Seq<char>, Failure>(
                shown_word(zellij) + "/"@ + lower(seen.state),
            )
            &&& shown_branch(session, checked_out, after) == Ok::<Seq<char>, Failure>(
                match seen.branch {
                    Some(branch) => branch,
                    None => session.branch@,
                },
            )
        }),
{
    backends_differ();
}

proof fn backends_differ()
    ensures
        BACKEND_LOCAL@ != BACKEND_CODESPACE@,
{
    reveal_strlit("local");
    reveal_strlit("codespace");
    assert("local"@.len() == 5 && "codespace"@.len() == 9);
}

proof fn lower_again(s: Seq<char>)
    ensures
        lower(lower(s)) == lower(s),
{
    assert(lower(lower(s)) =~= lower(s));
}

/// A listing shows the same of a Codespace whether a refresh has just seen it or what the refresh
/// stored is read back.
pub proof fn refreshed_session_shows_the_same(
    session: Model,
    known: Known,
    details: CodespaceDetails,
    update: RefreshUpdate,
    now: Seq<char>,
    local: Seq<(Seq<char>, bool)>,
    checked_out: Option<Seq<char>>,
)
    requires
        details_of(session) == Ok::<CodespaceDetails, Failure>(details),
    ensures
        ({
            let seen = known.with_seen(details.name@, seen_of(update.remote), update.zellij);
            let read = known.with_cache(details.name@, refreshed(update, now));
            &&& shown_status(session, local, seen) == shown_status(session, local, read)
            &&& shown_branch(session, checked_out, seen) == shown_branch(
                session,
                checked_out,
                read,
            )
        }),
{
    stored_states_are_read_back(update.zellij);
    lower_again(seen_of(update.remote).state);
    let seen = known.with_seen(details.name@, seen_of(update.remote), update.zellij);
    let read = known.with_cache(details.name@, refreshed(update, now));
    assert(codespace_status(seen, details) == codespace_status(read, details));
}

/// A Codespace of another account than the one that was asked shows its owner in place of its
/// state, and what was seen of its remote session earlier; its branch is the one that the session
/// was created with.
pub proof fn other_accounts_show_their_owner(
    session: Model,
    local: Seq<(Seq<char>, bool)>,
    known: Known,
    details: CodespaceDetails,
    login: Seq<char>,
    checked_out: Option<Seq<char>>,
)
    requires
        session.status@ != STATUS_REMOVED@,
        session.backend@ == BACKEND_CODESPACE@,
        details_of(session) == Ok::<CodespaceDetails, Failure>(details),
        known.current_login == Some(login),
        login != details.github_login@,
    ensures
        shown_status(session, local, known) == Ok::<Seq<char>, Failure>(
            (if !known.zellij_values.contains_key(details.name@)
                || known.zellij_values[details.name@] is Missing {
                "unknown"@
            } else {
                shown_word(known.zellij_values[details.name@])
            }) + "/account:"@ + details.github_login@,
        ),
        shown_branch(session, checked_out, known) == Ok::<Seq<char>, Failure>(session.branch@),
{
    backends_differ();
}

/// Where nothing was seen of the remote session of a Codespace, it shows as stopped if the
/// Codespace is shut down or missing, and else as unknown; a Codespace of which nothing is known
/// shows as unknown itself.
pub proof fn unseen_sessions_are_unknown(
    session: Model,
    local: Seq<(Seq<char>, bool)>,
    known: Known,
    details: CodespaceDetails,
)
    requires
        session.status@ != STATUS_REMOVED@,
        session.backend@ == BACKEND_CODESPACE@,
        details_of(session) == Ok::<CodespaceDetails, Failure>(details),
        known.current_login is None || known.current_login == Some(details.github_login@),
        !known.zellij_values.contains_key(details.name@),
    ensures
        known.values.contains_key(details.name@) ==> shown_status(session, local, known) == Ok::<
            Seq<char>,
            Failure,
        >(
            (if lower(known.values[details.name@].state) == "shutdown"@ || lower(
                known.values[details.name@].state,
            ) == "missing"@ {
                "stopped"@
            } else {
                "unknown"@
            }) + "/"@ + lower(known.values[details.name@].state),
        ),
        !known.values.contains_key(details.name@) ==> shown_status(session, local, known) == Ok::<
            Seq<char>,
            Failure,
        >("unknown"@ + "/"@ + "unknown"@),
{
    backends_differ();
    reveal_strlit("shutdown");
    reveal_strlit("missing");
    reveal_strlit("unknown");
    assert("unknown"@.len() == 7 && "shutdown"@.len() == 8 && "missing"@.len() == 7);
    assert("unknown"@[0] == 'u' && "missing"@[0] == 'm');
}

// ── Refreshing ──────────────────────────────────────────────────────────────

proof fn first_due_is_first(sessions: Seq<Model>, login: Seq<char>, at: int)
    requires
        0 <= at,
    ensures
        ({
            let found = first_due(sessions, login, at);
            &&& at <= found
            &&& at <= sessions.len() ==> found <= sessions.len()
            &&& found < sessions.len() ==> is_due(sessions[found], login)
            &&& forall|i: int| at <= i < found ==> !is_due(#[trigger] sessions[i], login)
        }),
    decreases sessions.len() - at,
{
    if at < sessions.len() && !is_due(sessions[at], login) {
        first_due_is_first(sessions, login, at + 1);
    }
}

/// The session is active, has a Codespace of the account `login`, and its Codespace is well
/// described.
pub open spec fn belongs_to(session: Model, login: Seq<char>) -> bool {
    &&& session.status@ != STATUS_REMOVED@
    &&& session.backend@ == BACKEND_CODESPACE@
    &&& details_of(session) matches Ok(details) && details.github_login@ == login
}

/// What the listing shows of the Codespace `name` of a session: its entry, or that it is gone,
/// with the branch that was known of it.
pub open spec fn is_shown(
    listed: Map<Seq<char>, RemoteState>,
    name: Seq<char>,
    session: Model,
    remote: Observation,
) -> bool {
    match remote {
        Observation::Listed(state) => listed.contains_key(name) && listed[name] == state,
        Observation::Gone { branch } => !listed.contains_key(name) && branch
            == session.cached_codespace_branch,
    }
}

/// Before place `k` the record with this UUID was asked for.
pub open spec fn was_read(effects: Seq<Effect>, k: int, uuid: String) -> bool {
    exists|j: int| 0 <= j < k && #[trigger] effects[j] == (Effect::FindByUuid { uuid })
}

/// What a refresh knows while it deals with a session.
spec fn deals(
    sessions: Vec<Model>,
    local: State,
    effects: Seq<Effect>,
    events: Seq<Event>,
    k: int,
    p: Progress,
    due: Due,
) -> bool {
    &&& k > 1
    &&& p.sessions == sessions@ && p.local == local@
    &&& events[0] == Event::Text(p.login)
    &&& events[1] matches Event::Listed(listed) && listed@ == p.listed
    &&& 0 <= p.at < sessions@.len()
    &&& belongs_to(sessions@[p.at], p.login@)
    &&& sessions@[p.at].codespace_name == Some(due.name)
    &&& due.uuid == sessions@[p.at].copilot_uuid
    &&& is_shown(p.listed, due.name@, sessions@[p.at], due.remote)
    &&& forall|i: int|
        0 <= i < p.at && belongs_to(#[trigger] sessions@[i], p.login@) ==> was_read(
            effects,
            k,
            sessions@[i].copilot_uuid,
        )
}

/// The observed Codespace is available.
pub open spec fn is_on(remote: Observation) -> bool {
    remote matches Observation::Listed(state) && lower(state.state@) == "available"@
}

/// The state of the remote session was found in this way when the record is read in place `k`:
/// a local client shows that it runs, a remote one that is on was asked, and else it is missing.
pub open spec fn zellij_is_found(
    effects: Seq<Effect>,
    events: Seq<Event>,
    k: int,
    local: State,
    uuid: String,
    remote: Observation,
    zellij: RemoteZellijState,
) -> bool {
    if zellij_runs(local@, uuid@) {
        zellij is Running
    } else if is_on(remote) {
        effects[k - 1] is AskLauncher && events[k - 1] == Event::Remote(zellij)
    } else {
        zellij is Missing
    }
}

/// The state of the remote session that is written in place `k` to the record `latest`: the one
/// that was found; but where none was found although the record says that the session is being
/// connected, it is still being connected exactly if the record was written in the last minute.
pub open spec fn zellij_is_right(
    effects: Seq<Effect>,
    events: Seq<Event>,
    k: int,
    local: State,
    uuid: String,
    update: RefreshUpdate,
) -> bool {
    let connecting = opt_text(update.latest.cached_zellij_state) == Some("connecting"@);
    if effects[k - 1] is Now {
        &&& connecting
        &&& zellij_is_found(
            effects,
            events,
            k - 2,
            local,
            uuid,
            update.remote,
            RemoteZellijState::Missing,
        )
        &&& events[k - 1] matches Event::At(at) && update.zellij == (if fresh(
            update.latest@,
            60,
            at,
        ) {
            RemoteZellijState::Connecting
        } else {
            RemoteZellijState::Missing
        })
    } else {
        &&& zellij_is_found(
            effects,
            events,
            k - 1,
            local,
            uuid,
            update.remote,
            update.zellij,
        )
        &&& !(connecting && update.zellij is Missing)
    }
}

/// What is known so far in a state of a refresh.
pub open spec fn known_so_far(state: RefreshFlow, effect: Effect) -> Option<Known> {
    match state {
        RefreshFlow::Login { states, .. } => Some(states@),
        RefreshFlow::List { states, .. } => Some(states@),
        RefreshFlow::Remote { refresh, .. } => Some(refresh@.states),
        RefreshFlow::Latest { refresh, .. } => Some(refresh@.states),
        RefreshFlow::Clock { refresh, .. } => Some(refresh@.states),
        RefreshFlow::Write { refresh, .. } => Some(refresh@.states),
        RefreshFlow::Current { refresh, .. } => Some(refresh@.states),
        RefreshFlow::Over => match effect {
            Effect::Finish(Event::Codespaces(states)) => Some(states@),
            _ => None,
        },
    }
}

/// The Codespace that a state of a refresh is about.
pub open spec fn codespace_in_turn(state: RefreshFlow) -> Option<Seq<char>> {
    match state {
        RefreshFlow::Remote { due, .. } => Some(due.name@),
        RefreshFlow::Latest { due, .. } => Some(due.name@),
        RefreshFlow::Clock { due, .. } => Some(due.name@),
        RefreshFlow::Write { due, .. } => Some(due.name@),
        RefreshFlow::Current { due, .. } => Some(due.name@),
        _ => None,
    }
}

proof fn lower_available()
    ensures
        lower("available"@) == "available"@,
        lower("missing"@) != lower("available"@),
{
    reveal_strlit("available");
    reveal_strlit("missing");
    assert(lower("available"@) =~= "available"@);
    assert(lower("missing"@).len() == 7);
}

spec fn refresh_knows(
    sessions: Vec<Model>,
    local: State,
    state: RefreshFlow,
    effects: Seq<Effect>,
    events: Seq<Event>,
    k: int,
) -> bool {
    match state {
        RefreshFlow::Login { sessions: s, local: l, states } => k == 0 && s == sessions && l == local
            && effects[k] == Effect::Gh(GhCall::Login),
        RefreshFlow::List { sessions: s, local: l, states, login } => k == 1 && s == sessions && l
            == local && events[0] == Event::Text(login) && effects[k] == Effect::Gh(
            GhCall::ListStates,
        ),
        RefreshFlow::Remote { refresh, due } => {
            &&& deals(sessions, local, effects, events, k, refresh@, due)
            &&& !zellij_runs(local@, due.uuid@) && is_on(due.remote)
            &&& effects[k] matches Effect::AskLauncher { name, uuid, github_login, mode }
            &&& name == due.name && uuid == due.uuid && mode is State && Some(github_login)
                == sessions@[refresh@.at].github_login
        },
        RefreshFlow::Latest { refresh, due, zellij } => {
            &&& deals(sessions, local, effects, events, k, refresh@, due)
            &&& effects[k] == (Effect::FindByUuid { uuid: due.uuid })
            &&& zellij_is_found(effects, events, k, local, due.uuid, due.remote, zellij)
        },
        RefreshFlow::Clock { refresh, due, latest } => {
            &&& deals(sessions, local, effects, events, k, refresh@, due)
            &&& effects[k] is Now
            &&& was_read(effects, k, due.uuid)
            &&& effects[k - 1] == (Effect::FindByUuid { uuid: due.uuid })
            &&& events[k - 1] == Event::Row(Some(latest))
            &&& opt_text(latest.cached_zellij_state) == Some("connecting"@)
            &&& same_snapshot(sessions@[refresh@.at]@, latest@)
            &&& zellij_is_found(
                effects,
                events,
                k - 1,
                local,
                due.uuid,
                due.remote,
                RemoteZellijState::Missing,
            )
        },
        RefreshFlow::Write { refresh, due, zellij } => {
            &&& deals(sessions, local, effects, events, k, refresh@, due)
            &&& was_read(effects, k, due.uuid)
            &&& effects[k] matches Effect::RefreshRow(update) && update.remote == due.remote
                && update.zellij == zellij && zellij_is_right(
                effects,
                events,
                k,
                local,
                due.uuid,
                update,
            )
        },
        RefreshFlow::Current { refresh, due } => {
            &&& deals(sessions, local, effects, events, k, refresh@, due)
            &&& was_read(effects, k, due.uuid)
            &&& effects[k] == (Effect::FindByUuid { uuid: due.uuid })
            &&& effects[k - 1] is RefreshRow && events[k - 1] == Event::Count(0)
        },
        RefreshFlow::Over => effects[k] is Finish,
    }
}

/// All sessions of the account before the place `at` were read before place `k`.
spec fn read_up_to(
    sessions: Vec<Model>,
    login: Seq<char>,
    effects: Seq<Effect>,
    k: int,
    at: int,
) -> bool {
    forall|i: int|
        0 <= i < at && i < sessions@.len() && belongs_to(#[trigger] sessions@[i], login) ==> was_read(
            effects,
            k,
            sessions@[i].copilot_uuid,
        )
}

proof fn visiting_knows(
    sessions: Vec<Model>,
    local: State,
    next: RefreshFlow,
    effects: Seq<Effect>,
    events: Seq<Event>,
    k: int,
    p: Progress,
)
    requires
        k > 1,
        is_visiting(next, effects[k], p),
        p.sessions == sessions@ && p.local == local@,
        events[0] == Event::Text(p.login),
        events[1] matches Event::Listed(listed) && listed@ == p.listed,
        0 <= p.at <= sessions@.len(),
        read_up_to(sessions, p.login@, effects, k, p.at),
    ensures
        refresh_knows(sessions, local, next, effects, events, k),
        effects[k] is FindByUuid || effects[k] is AskLauncher || effects[k] is Finish,
        effects[k] matches Effect::Finish(Event::Codespaces(states)) ==> read_up_to(
            sessions,
            p.login@,
            effects,
            k,
            sessions@.len() as int,
        ) && states@ == (Known { current_login: Some(p.login@), ..p.states }),
        effects[k] matches Effect::Finish(Event::Failed(f)) ==> exists|i: int|
            0 <= i < sessions@.len() && (#[trigger] sessions@[i]).status@ != STATUS_REMOVED@
                && sessions@[i].backend@ == BACKEND_CODESPACE@ && (details_of(sessions@[i])
                matches Err(g) && g == f),
        effects[k] matches Effect::Finish(event) ==> event is Codespaces || event is Failed,
        effects[k] !is Finish ==> known_so_far(next, effects[k]) == Some(p.states),
{
    first_due_is_first(sessions@, p.login@, p.at);
    lower_available();
    let at = first_due(p.sessions, p.login@, p.at);
    if at < sessions@.len() {
        assert(is_due(sessions@[at], p.login@));
        assert forall|i: int| 0 <= i < at && belongs_to(
            #[trigger] sessions@[i],
            p.login@,
        ) implies was_read(effects, k, sessions@[i].copilot_uuid) by {
            if i >= p.at {
                assert(!is_due(sessions@[i], p.login@));
            }
        }
    } else {
        assert forall|i: int| 0 <= i < sessions@.len() && belongs_to(
            #[trigger] sessions@[i],
            p.login@,
        ) implies was_read(effects, k, sessions@[i].copilot_uuid) by {
            if i >= p.at {
                assert(!is_due(sessions@[i], p.login@));
            }
        }
    }
}

/// What a refresh goes on from after it has dealt with the session in its place.
spec fn moved_on(p: Progress, states: Known) -> Progress {
    Progress { at: p.at + 1, states, ..p }
}

proof fn read_next(
    sessions: Vec<Model>,
    effects: Seq<Effect>,
    events: Seq<Event>,
    k: int,
    local: State,
    p: Progress,
    due: Due,
)
    requires
        0 < k,
        deals(sessions, local, effects, events, k, p, due),
        was_read(effects, k + 1, due.uuid),
    ensures
        read_up_to(sessions, p.login@, effects, k + 1, p.at + 1),
        deals(sessions, local, effects, events, k + 1, p, due),
{
    assert forall|i: int| 0 <= i < p.at && belongs_to(
        #[trigger] sessions@[i],
        p.login@,
    ) implies was_read(effects, k + 1, sessions@[i].copilot_uuid) by {
        let j = choose|j: int|
            0 <= j < k && #[trigger] effects[j] == (Effect::FindByUuid {
                uuid: sessions@[i].copilot_uuid,
            });
        assert(effects[j] is FindByUuid);
    }
}

proof fn deals_later(
    sessions: Vec<Model>,
    effects: Seq<Effect>,
    events: Seq<Event>,
    k: int,
    local: State,
    p: Progress,
    due: Due,
)
    requires
        0 < k,
        deals(sessions, local, effects, events, k, p, due),
    ensures
        deals(sessions, local, effects, events, k + 1, p, due),
{
    assert forall|i: int| 0 <= i < p.at && belongs_to(
        #[trigger] sessions@[i],
        p.login@,
    ) implies was_read(effects, k + 1, sessions@[i].copilot_uuid) by {
        let j = choose|j: int|
            0 <= j < k && #[trigger] effects[j] == (Effect::FindByUuid {
                uuid: sessions@[i].copilot_uuid,
            });
        assert(effects[j] is FindByUuid);
    }
}

proof fn still_read(effects: Seq<Effect>, k: int, uuid: String)
    requires
        was_read(effects, k, uuid),
    ensures
        was_read(effects, k + 1, uuid),
{
    let j = choose|j: int| 0 <= j < k && #[trigger] effects[j] == (Effect::FindByUuid { uuid });
    assert(effects[j] is FindByUuid);
}

/// The plan that the next step of a refresh visits from, where there is one.
spec fn goes_on_from(state: RefreshFlow, event: Event) -> Option<Progress> {
    match (state, event) {
        (RefreshFlow::List { sessions, local, states, login }, Event::Listed(listed)) => Some(
            Progress {
                sessions: sessions@,
                at: 0,
                local: local@,
                login,
                listed: listed@,
                states: states@,
            },
        ),
        (RefreshFlow::Latest { refresh, due, zellij }, Event::Row(Some(latest))) => if 0
            <= refresh@.at < refresh@.sessions.len() && !same_snapshot(
            refresh@.sessions[refresh@.at]@,
            latest@,
        ) {
            Some(moved_on(refresh@, refresh@.states.with_cache(due.name@, latest@)))
        } else {
            None
        },
        (RefreshFlow::Write { refresh, due, zellij }, Event::Count(count)) => if count > 0 {
            Some(
                moved_on(
                    refresh@,
                    refresh@.states.with_seen(due.name@, seen_of(due.remote), zellij),
                ),
            )
        } else {
            None
        },
        (RefreshFlow::Current { refresh, due }, Event::Row(Some(current))) => Some(
            moved_on(refresh@, refresh@.states.with_cache(due.name@, current@)),
        ),
        _ => None,
    }
}

proof fn step_is_visited(
    sessions: Vec<Model>,
    local: State,
    states: Seq<RefreshFlow>,
    effects: Seq<Effect>,
    events: Seq<Event>,
    k: int,
    p: Progress,
)
    requires
        is_run(states, effects, events),
        0 <= k < events.len(),
        refresh_knows(sessions, local, states[k], effects, events, k),
        goes_on_from(states[k], events[k]) == Some(p),
    ensures
        refresh_knows(sessions, local, states[k + 1], effects, events, k + 1),
        effects[k + 1] is FindByUuid || effects[k + 1] is AskLauncher || effects[k + 1] is Finish,
        events[0] == Event::Text(p.login),
        effects[k + 1] matches Effect::Finish(Event::Codespaces(known)) ==> read_up_to(
            sessions,
            p.login@,
            effects,
            k + 1,
            sessions@.len() as int,
        ) && known@ == (Known { current_login: Some(p.login@), ..p.states }),
        effects[k + 1] matches Effect::Finish(Event::Failed(f)) ==> exists|i: int|
            0 <= i < sessions@.len() && (#[trigger] sessions@[i]).status@ != STATUS_REMOVED@
                && sessions@[i].backend@ == BACKEND_CODESPACE@ && (details_of(sessions@[i])
                matches Err(g) && g == f),
        effects[k + 1] matches Effect::Finish(event) ==> event is Codespaces || event is Failed,
        effects[k + 1] !is Finish ==> known_so_far(states[k + 1], effects[k + 1]) == Some(p.states),
{
    assert(states[k].leads_to(events[k], states[k + 1], effects[k + 1]));
    match states[k] {
        RefreshFlow::Latest { refresh, due, .. } => {
            assert(effects[k] == (Effect::FindByUuid { uuid: due.uuid }));
            assert(was_read(effects, k + 1, due.uuid));
            read_next(sessions, effects, events, k, local, refresh@, due);
        },
        RefreshFlow::Write { refresh, due, .. } => {
            still_read(effects, k, due.uuid);
            read_next(sessions, effects, events, k, local, refresh@, due);
        },
        RefreshFlow::Current { refresh, due } => {
            still_read(effects, k, due.uuid);
            read_next(sessions, effects, events, k, local, refresh@, due);
        },
        _ => {},
    }
    visiting_knows(sessions, local, states[k + 1], effects, events, k + 1, p);
}

#[verifier::rlimit(30)]
proof fn refresh_remembers(
    sessions: Vec<Model>,
    local: State,
    states: Seq<RefreshFlow>,
    effects: Seq<Effect>,
    events: Seq<Event>,
    k: int,
)
    requires
        is_run(states, effects, events),
        is_refresh_begin(states[0], effects[0], sessions, local),
        0 <= k < effects.len(),
    ensures
        refresh_knows(sessions, local, states[k], effects, events, k),
    decreases k,
{
    if k > 0 {
        refresh_remembers(sessions, local, states, effects, events, k - 1);
        assert(states[k - 1].leads_to(events[k - 1], states[k], effects[k]));
        assert(effects[k - 1] !is Finish);
        match goes_on_from(states[k - 1], events[k - 1]) {
            Some(p) => {
                step_is_visited(sessions, local, states, effects, events, k - 1, p);
            },
            None => {
                match states[k - 1] {
                    RefreshFlow::Remote { refresh, due } => {
                        deals_later(sessions, effects, events, k - 1, local, refresh@, due);
                    },
                    RefreshFlow::Latest { refresh, due, .. } => {
                        deals_later(sessions, effects, events, k - 1, local, refresh@, due);
                        assert(effects[k - 1] == (Effect::FindByUuid { uuid: due.uuid }));
                        assert(was_read(effects, k, due.uuid));
                    },
                    RefreshFlow::Clock { refresh, due, .. } => {
                        deals_later(sessions, effects, events, k - 1, local, refresh@, due);
                        still_read(effects, k - 1, due.uuid);
                    },
                    RefreshFlow::Write { refresh, due, .. } => {
                        deals_later(sessions, effects, events, k - 1, local, refresh@, due);
                        still_read(effects, k - 1, due.uuid);
                    },
                    _ => {},
                }
            },
        }
    }
}

/// The session in place `i` belongs to the account that was asked.
pub open spec fn is_own(sessions: Vec<Model>, events: Seq<Event>, i: int) -> bool {
    &&& 0 <= i < sessions@.len()
    &&& events.len() > 0
    &&& events[0] matches Event::Text(login) && belongs_to(sessions@[i], login@)
}

/// What a refresh asks for: the account, the listing, and for each active session with a Codespace
/// of that account the stored record. The remote session is asked for only where no local client
/// shows that it runs and the Codespace is listed as available. What is written to a record is what
/// the listing shows of the Codespace of that session. A refresh ends well only after the records of
/// all such sessions were read, and then says which account was asked.
#[verifier::rlimit(30)]
pub proof fn refresh_covers_the_account(
    sessions: Vec<Model>,
    local: State,
    states: Seq<RefreshFlow>,
    effects: Seq<Effect>,
    events: Seq<Event>,
    k: int,
)
    requires
        is_run(states, effects, events),
        is_refresh_begin(states[0], effects[0], sessions, local),
        0 <= k < effects.len(),
    ensures
        match effects[k] {
            Effect::Gh(GhCall::Login) => k == 0,
            Effect::Gh(GhCall::ListStates) => k == 1 && events[0] is Text,
            Effect::AskLauncher { name, uuid, github_login, mode } => {
                &&& k > 1 && mode is State && !zellij_runs(local@, uuid@)
                &&& events[1] matches Event::Listed(listed) && listed@.contains_key(name@) && lower(
                    listed@[name@].state@,
                ) == "available"@
                &&& exists|i: int| #[trigger]
                    is_own(sessions, events, i) && sessions@[i].codespace_name == Some(name)
                        && sessions@[i].copilot_uuid == uuid && sessions@[i].github_login == Some(
                        github_login,
                    )
            },
            Effect::FindByUuid { uuid } => exists|i: int| #[trigger]
                is_own(sessions, events, i) && sessions@[i].copilot_uuid == uuid,
            Effect::Now => k > 1 && effects[k - 1] is FindByUuid && (events[k - 1]
                matches Event::Row(Some(latest)) && opt_text(latest.cached_zellij_state) == Some(
                "connecting"@,
            )),
            Effect::RefreshRow(update) => {
                &&& k > 1
                &&& events[k - 1] == Event::Row(Some(update.latest)) || effects[k - 1] is Now
                    && events[k - 2] == Event::Row(Some(update.latest))
                &&& events[1] matches Event::Listed(listed) && exists|i: int| #[trigger]
                    is_own(sessions, events, i) && same_snapshot(sessions@[i]@, update.latest@) && (
                    sessions@[i].codespace_name matches Some(name) && is_shown(
                        listed@,
                        name@,
                        sessions@[i],
                        update.remote,
                    )) && zellij_is_right(
                    effects,
                    events,
                    k,
                    local,
                    sessions@[i].copilot_uuid,
                    update,
                )
            },
            Effect::Finish(Event::Codespaces(known)) => {
                &&& k == 0 || known@.current_login == (match events[0] {
                    Event::Text(login) => Some(login@),
                    _ => None,
                })
                &&& forall|i: int| #[trigger]
                    is_own(sessions, events, i) && k > 0 ==> was_read(
                        effects,
                        k,
                        sessions@[i].copilot_uuid,
                    )
                &&& k == 0 ==> forall|i: int|
                    0 <= i < sessions@.len() ==> (#[trigger] sessions@[i]).status@
                        == STATUS_REMOVED@ || sessions@[i].backend@ != BACKEND_CODESPACE@
            },
            Effect::Finish(Event::Failed(f)) => {
                ||| just_failed(events, k, f)
                ||| f == Failure::UnexpectedReply && misanswered(effects, events, k)
                ||| k > 1 && (effects[k - 1] matches Effect::FindByUuid { uuid } && f
                    == (Failure::DisappearedInRefresh { uuid })) && events[k - 1] == Event::Row(None)
                ||| exists|i: int|
                    0 <= i < sessions@.len() && (#[trigger] sessions@[i]).status@
                        != STATUS_REMOVED@ && sessions@[i].backend@ == BACKEND_CODESPACE@ && (
                    details_of(sessions@[i]) matches Err(g) && g == f)
            },
            _ => false,
        },
{
    refresh_remembers(sessions, local, states, effects, events, k);
    match states[k] {
        RefreshFlow::Remote { refresh, .. } => {
            assert(is_own(sessions, events, refresh@.at));
        },
        RefreshFlow::Latest { refresh, .. } => {
            assert(is_own(sessions, events, refresh@.at));
        },
        RefreshFlow::Write { refresh, .. } => {
            assert(is_own(sessions, events, refresh@.at));
        },
        RefreshFlow::Current { refresh, .. } => {
            assert(is_own(sessions, events, refresh@.at));
        },
        _ => {},
    }
    if k > 0 {
        refresh_remembers(sessions, local, states, effects, events, k - 1);
        assert(states[k - 1].leads_to(events[k - 1], states[k], effects[k]));
        assert(effects[k - 1] !is Finish);
        match goes_on_from(states[k - 1], events[k - 1]) {
            Some(p) => {
                step_is_visited(sessions, local, states, effects, events, k - 1, p);
            },
            None => {},
        }
    } else {
        assert(forall|i: int|
            0 <= i < sessions@.len() ==> has_codespace(
                #[trigger] sessions@[i],
            ) ==> any_codespace(sessions@));
    }
}

proof fn others_stay_known(
    sessions: Vec<Model>,
    local: State,
    states: Seq<RefreshFlow>,
    effects: Seq<Effect>,
    events: Seq<Event>,
    k: int,
    name: Seq<char>,
)
    requires
        is_run(states, effects, events),
        is_refresh_begin(states[0], effects[0], sessions, local),
        0 <= k < events.len(),
        codespace_in_turn(states[k]) != Some(name) || goes_on_from(states[k], events[k]) is None,
        known_so_far(states[k + 1], effects[k + 1]) is Some,
    ensures
        ({
            let before = known_so_far(states[k], effects[k]);
            let after = known_so_far(states[k + 1], effects[k + 1]);
            &&& before is Some
            &&& before->0.values.contains_key(name) ==> after->0.values.contains_key(name)
                && after->0.values[name] == before->0.values[name]
            &&& before->0.zellij_values.contains_key(name) ==> after->0.zellij_values.contains_key(
                name,
            ) && after->0.zellij_values[name] == before->0.zellij_values[name]
        }),
{
    refresh_remembers(sessions, local, states, effects, events, k);
    assert(states[k].leads_to(events[k], states[k + 1], effects[k + 1]));
    assert(effects[k] !is Finish);
    match goes_on_from(states[k], events[k]) {
        Some(p) => {
            step_is_visited(sessions, local, states, effects, events, k, p);
        },
        None => {},
    }
}

proof fn stays_known(
    sessions: Vec<Model>,
    local: State,
    states: Seq<RefreshFlow>,
    effects: Seq<Effect>,
    events: Seq<Event>,
    j: int,
    k: int,
    name: Seq<char>,
    seen: Seen,
    zellij: RemoteZellijState,
)
    requires
        is_run(states, effects, events),
        is_refresh_begin(states[0], effects[0], sessions, local),
        0 <= j < k < effects.len(),
        known_so_far(states[j + 1], effects[j + 1]) matches Some(known) ==> known.values.contains_key(
            name,
        ) && known.values[name] == seen && known.zellij_values.contains_key(name)
            && known.zellij_values[name] == zellij,
        forall|i: int| j < i < k ==> codespace_in_turn(#[trigger] states[i]) != Some(name),
        known_so_far(states[k], effects[k]) is Some,
    ensures
        known_so_far(states[k], effects[k]) matches Some(known) && known.values.contains_key(name)
            && known.values[name] == seen && known.zellij_values.contains_key(name)
            && known.zellij_values[name] == zellij,
    decreases k,
{
    if k > j + 1 {
        assert(codespace_in_turn(states[k - 1]) != Some(name));
        others_stay_known(sessions, local, states, effects, events, k - 1, name);
        stays_known(sessions, local, states, effects, events, j, k - 1, name, seen, zellij);
    }
}

/// A refresh ends with what it stored. If it has written what it saw of a Codespace and that was
/// stored, and it does not come to the same Codespace again, then what is known of the Codespace at
/// the end is what it saw: the state and the branch that were listed, or that the Codespace is
/// missing, and the state of the remote session that was written.
pub proof fn refresh_shows_what_it_stored(
    sessions: Vec<Model>,
    local: State,
    states: Seq<RefreshFlow>,
    effects: Seq<Effect>,
    events: Seq<Event>,
    j: int,
    k: int,
    update: RefreshUpdate,
    count: u64,
    name: Seq<char>,
)
    requires
        is_run(states, effects, events),
        is_refresh_begin(states[0], effects[0], sessions, local),
        0 <= j < k < effects.len(),
        effects[j] == Effect::RefreshRow(update),
        events[j] == Event::Count(count),
        count > 0,
        codespace_in_turn(states[j]) == Some(name),
        forall|i: int| j < i < k ==> codespace_in_turn(#[trigger] states[i]) != Some(name),
        effects[k] matches Effect::Finish(Event::Codespaces(_)),
    ensures
        effects[k] matches Effect::Finish(Event::Codespaces(shown)) && {
            &&& shown@.values.contains_key(name)
            &&& match update.remote {
                Observation::Listed(state) => shown@.values[name].state == state.state@
                    && shown@.values[name].branch == opt_text(state.branch),
                Observation::Gone { branch } => shown@.values[name].state == "missing"@
                    && shown@.values[name].branch == opt_text(branch),
            }
            &&& shown@.zellij_values.contains_key(name)
            &&& shown@.zellij_values[name] == update.zellij
        },
{
    refresh_remembers(sessions, local, states, effects, events, j);
    refresh_remembers(sessions, local, states, effects, events, k);
    assert(states[j].leads_to(events[j], states[j + 1], effects[j + 1]));
    match goes_on_from(states[j], events[j]) {
        Some(p) => {
            step_is_visited(sessions, local, states, effects, events, j, p);
        },
        None => {},
    }
    stays_known(
        sessions,
        local,
        states,
        effects,
        events,
        j,
        k,
        name,
        seen_of(update.remote),
        update.zellij,
    );
}

/// The session in whose turn a record is written has the Codespace that the refresh is about, and
/// that Codespace is the one that was looked up in the listing.
pub proof fn refresh_writes_for_its_codespace(
    sessions: Vec<Model>,
    local: State,
    states: Seq<RefreshFlow>,
    effects: Seq<Effect>,
    events: Seq<Event>,
    k: int,
    update: RefreshUpdate,
)
    requires
        is_run(states, effects, events),
        is_refresh_begin(states[0], effects[0], sessions, local),
        0 <= k < effects.len(),
        effects[k] == Effect::RefreshRow(update),
    ensures
        exists|i: int| #[trigger]
            is_own(sessions, events, i) && (sessions@[i].codespace_name matches Some(name)
                && codespace_in_turn(states[k]) == Some(name@)) && was_read(
                effects,
                k,
                sessions@[i].copilot_uuid,
            ),
{
    refresh_remembers(sessions, local, states, effects, events, k);
    match states[k] {
        RefreshFlow::Write { refresh, .. } => {
            assert(is_own(sessions, events, refresh@.at));
        },
        _ => {},
    }
}

/// What another process stored meanwhile is shown instead: if a record turns out to be changed
/// since the refresh began, or could not be written, then what is known of its Codespace is what
/// is stored with it now.
pub proof fn refresh_shows_what_others_stored(
    sessions: Vec<Model>,
    local: State,
    states: Seq<RefreshFlow>,
    effects: Seq<Effect>,
    events: Seq<Event>,
    k: int,
    name: Seq<char>,
    row: Model,
)
    requires
        is_run(states, effects, events),
        is_refresh_begin(states[0], effects[0], sessions, local),
        0 < k < events.len(),
        effects[k] is FindByUuid,
        events[k] == Event::Row(Some(row)),
        codespace_in_turn(states[k]) == Some(name),
        effects[k - 1] is RefreshRow && events[k - 1] == Event::Count(0) || effects[k + 1]
            !is RefreshRow && effects[k + 1] !is Now,
        known_so_far(states[k + 1], effects[k + 1]) is Some,
    ensures
        known_so_far(states[k + 1], effects[k + 1]) matches Some(known) && {
            &&& known.values.contains_key(name)
            &&& known.values[name].state == (match row@.cached_codespace_state {
                Some(state) => state,
                None => "unknown"@,
            })
            &&& known.values[name].branch == row@.cached_codespace_branch
            &&& row@.cached_zellij_state is None ==> !known.zellij_values.contains_key(name)
        },
{
    refresh_remembers(sessions, local, states, effects, events, k);
    refresh_remembers(sessions, local, states, effects, events, k - 1);
    assert(states[k].leads_to(events[k], states[k + 1], effects[k + 1]));
    assert(states[k - 1].leads_to(events[k - 1], states[k], effects[k]));
    match goes_on_from(states[k], events[k]) {
        Some(p) => {
            step_is_visited(sessions, local, states, effects, events, k, p);
        },
        None => {},
    }
}

} // verus!
