//! Refreshing what is stored of the Codespaces of sessions, step by step.

use vstd::prelude::*;

use crate::codespace::{state_word, RemoteState, RemoteZellijState};
use crate::commands::local::{session_runs, zellij_runs};
use crate::commands::states::{
    cache_snapshot_matches, cache_updated_within_at, cached_codespace_states, cached_states, fresh,
    same_snapshot, use_session_cache, CodespaceStates, Known, Seen,
};
use crate::commands::{
    codespace_details, details_of, Observation, RefreshUpdate, BACKEND_CODESPACE, STATUS_REMOVED,
};
use crate::entity::session::{Model, Record};
use crate::failure::Failure;
use crate::flow::{fail, failing, Effect, Event, Flow};
use crate::gh::{GhCall, LauncherMode};
use crate::names::NameMap;
use crate::text::{is_text, lower, opt_text, same, same_ignoring_case, to_lower};
use crate::zellij::State;

verus! {

/// For how many seconds a stored "connecting" counts although no remote session is seen.
pub const CONNECTING_SECONDS: i64 = 60;

/// What was seen of a Codespace, as texts. One that is not listed is missing.
pub open spec fn seen_of(remote: Observation) -> Seen {
    match remote {
        Observation::Listed(state) => state@,
        Observation::Gone { branch } => Seen { state: "missing"@, branch: opt_text(branch) },
    }
}

fn remote_of(remote: &Observation) -> (r: RemoteState)
    ensures
        r@ == seen_of(*remote),
{
    match remote {
        Observation::Listed(state) => state.clone(),
        Observation::Gone { branch } => RemoteState {
            state: "missing".to_string(),
            branch: branch.clone(),
        },
    }
}

/// The record after what was seen is stored at the time `now`. The time of a connection that
/// is still being made is kept.
pub open spec fn refreshed(update: RefreshUpdate, now: Seq<char>) -> Record {
    let seen = seen_of(update.remote);
    Record {
        cached_codespace_state: Some(lower(seen.state)),
        cached_codespace_branch: seen.branch,
        cached_zellij_state: Some(state_word(update.zellij)),
        codespace_state_updated_at: if update.zellij is Connecting {
            update.latest@.codespace_state_updated_at
        } else {
            Some(now)
        },
        ..update.latest@
    }
}

/// The session after what was seen is stored at the time `now`.
pub fn refreshed_row(update: &RefreshUpdate, now: &str) -> (r: Model)
    ensures
        r@ == refreshed(*update, now@),
{
    let seen = remote_of(&update.remote);
    let row = update.latest.clone();
    Model {
        cached_codespace_state: Some(to_lower(&seen.state)),
        cached_codespace_branch: seen.branch,
        cached_zellij_state: Some(update.zellij.as_str().to_string()),
        codespace_state_updated_at: match update.zellij {
            RemoteZellijState::Connecting => update.latest.codespace_state_updated_at.clone(),
            _ => Some(now.to_string()),
        },
        ..row
    }
}

/// A refresh in progress: the sessions and the place of the one that is dealt with, the
/// zellij sessions at the start, the account that was asked and what it listed, and what is
/// known so far.
#[derive(Debug)]
pub struct Refresh {
    pub sessions: Vec<Model>,
    pub at: usize,
    pub local: State,
    pub login: String,
    pub listed: NameMap<RemoteState>,
    pub states: CodespaceStates,
}

/// A refresh in progress as a mathematical value.
#[verifier::ext_equal]
pub struct Progress {
    pub sessions: Seq<Model>,
    pub at: int,
    pub local: Seq<(Seq<char>, bool)>,
    pub login: String,
    pub listed: Map<Seq<char>, RemoteState>,
    pub states: Known,
}

impl View for Refresh {
    type V = Progress;

    open spec fn view(&self) -> Progress {
        Progress {
            sessions: self.sessions@,
            at: self.at as int,
            local: self.local@,
            login: self.login,
            listed: self.listed@,
            states: self.states@,
        }
    }
}

/// The session that is dealt with: its Codespace and what was seen of it.
#[derive(Debug)]
pub struct Due {
    pub name: String,
    pub uuid: String,
    pub remote: Observation,
}

/// The session has a Codespace and is not removed.
pub open spec fn has_codespace(session: Model) -> bool {
    session.status@ != STATUS_REMOVED@ && session.backend@ == BACKEND_CODESPACE@
}

fn is_remote(session: &Model) -> (r: bool)
    ensures
        r == has_codespace(*session),
{
    !same(&session.status, STATUS_REMOVED) && same(&session.backend, BACKEND_CODESPACE)
}

/// The session is to be refreshed: it has a Codespace, and not one of another account.
pub open spec fn is_due(session: Model, login: Seq<char>) -> bool {
    has_codespace(session) && !(details_of(session) matches Ok(details) && details.github_login@
        != login)
}

/// The first place from `at` on of a session that is to be refreshed, or the end.
pub open spec fn first_due(sessions: Seq<Model>, login: Seq<char>, at: int) -> int
    decreases sessions.len() - at,
{
    if at >= sessions.len() || is_due(sessions[at], login) {
        at
    } else {
        first_due(sessions, login, at + 1)
    }
}

/// What the listing says of the Codespace of a session.
pub open spec fn observation(
    listed: Map<Seq<char>, RemoteState>,
    name: Seq<char>,
    session: Model,
) -> Observation {
    if listed.contains_key(name) {
        Observation::Listed(listed[name])
    } else {
        Observation::Gone { branch: session.cached_codespace_branch }
    }
}

/// Refreshing what is stored of the Codespaces of sessions that belong to the current
/// account. What another process stored meanwhile is never overwritten: it is shown instead.
#[derive(Debug)]
pub enum RefreshFlow {
    Login { sessions: Vec<Model>, local: State, states: CodespaceStates },
    List { sessions: Vec<Model>, local: State, states: CodespaceStates, login: String },
    Remote { refresh: Refresh, due: Due },
    Latest { refresh: Refresh, due: Due, zellij: RemoteZellijState },
    Clock { refresh: Refresh, due: Due, latest: Model },
    Write { refresh: Refresh, due: Due, zellij: RemoteZellijState },
    Current { refresh: Refresh, due: Due },
    Over,
}

/// `next` and `effect` are what comes when it is the turn of the first session from the place
/// of the refresh on that is to be refreshed, or the end where there is none.
pub open spec fn is_visiting(next: RefreshFlow, effect: Effect, p: Progress) -> bool {
    let at = first_due(p.sessions, p.login@, p.at);
    if at >= p.sessions.len() {
        &&& next is Over
        &&& effect matches Effect::Finish(Event::Codespaces(states))
        &&& states@ == (Known { current_login: Some(p.login@), ..p.states })
    } else {
        let session = p.sessions[at];
        let here = Progress { at, ..p };
        match details_of(session) {
            Err(f) => (next, effect) == (RefreshFlow::Over, fail(f)),
            Ok(details) => {
                let due = Due {
                    name: details.name,
                    uuid: session.copilot_uuid,
                    remote: observation(p.listed, details.name@, session),
                };
                if zellij_runs(p.local, session.copilot_uuid@) {
                    &&& next matches RefreshFlow::Latest { refresh, due: d, zellij }
                    &&& refresh@ == here && d == due && zellij is Running
                    &&& effect == (Effect::FindByUuid { uuid: due.uuid })
                } else if lower(seen_of(due.remote).state) == lower("available"@) {
                    &&& next matches RefreshFlow::Remote { refresh, due: d }
                    &&& refresh@ == here && d == due
                    &&& effect == (Effect::AskLauncher {
                        name: due.name,
                        uuid: due.uuid,
                        github_login: details.github_login,
                        mode: LauncherMode::State,
                    })
                } else {
                    &&& next matches RefreshFlow::Latest { refresh, due: d, zellij }
                    &&& refresh@ == here && d == due && zellij is Missing
                    &&& effect == (Effect::FindByUuid { uuid: due.uuid })
                }
            },
        }
    }
}

/// The refresh with the next place and something more known.
pub open spec fn went_on(p: Progress, states: Known) -> Progress {
    Progress {
        at: if p.at < p.sessions.len() {
            p.at + 1
        } else {
            p.at
        },
        states,
        ..p
    }
}

fn visit(refresh: Refresh) -> (r: (RefreshFlow, Effect))
    ensures
        is_visiting(r.0, r.1, refresh@),
{
    let n = refresh.sessions.len();
    let mut at = refresh.at;
    while at < n
        invariant
            n == refresh.sessions@.len(),
            first_due(refresh.sessions@, refresh.login@, refresh.at as int) == first_due(
                refresh.sessions@,
                refresh.login@,
                at as int,
            ),
        decreases n - at,
    {
        let session = &refresh.sessions[at];
        if is_remote(session) {
            match codespace_details(session) {
                Err(f) => {
                    return (RefreshFlow::Over, failing(f));
                },
                Ok(details) => {
                    if same(&details.github_login, &refresh.login) {
                        let remote = match refresh.listed.get(&details.name) {
                            Some(state) => Observation::Listed(state.clone()),
                            None => Observation::Gone {
                                branch: session.cached_codespace_branch.clone(),
                            },
                        };
                        let uuid = session.copilot_uuid.clone();
                        let name = details.name.clone();
                        let running = session_runs(&refresh.local, &uuid);
                        let available = same_ignoring_case(&remote_of(&remote).state, "available");
                        let due = Due { name: name.clone(), uuid: uuid.clone(), remote };
                        let refresh = Refresh { at, ..refresh };
                        return if running {
                            (
                                RefreshFlow::Latest {
                                    refresh,
                                    due,
                                    zellij: RemoteZellijState::Running,
                                },
                                Effect::FindByUuid { uuid },
                            )
                        } else if available {
                            (
                                RefreshFlow::Remote { refresh, due },
                                Effect::AskLauncher {
                                    name,
                                    uuid,
                                    github_login: details.github_login,
                                    mode: LauncherMode::State,
                                },
                            )
                        } else {
                            (
                                RefreshFlow::Latest {
                                    refresh,
                                    due,
                                    zellij: RemoteZellijState::Missing,
                                },
                                Effect::FindByUuid { uuid },
                            )
                        };
                    }
                },
            }
        }
        at = at + 1;
    }
    let mut states = refresh.states;
    states.current_login = Some(refresh.login);
    (RefreshFlow::Over, Effect::Finish(Event::Codespaces(states)))
}

/// Whether a session in some place has a Codespace and is not removed.
pub open spec fn any_codespace(sessions: Seq<Model>) -> bool {
    exists|i: int| 0 <= i < sessions.len() && has_codespace(#[trigger] sessions[i])
}

/// How it begins: with what is stored, and unless no session has a Codespace, with the account.
pub open spec fn is_refresh_begin(
    first: RefreshFlow,
    effect: Effect,
    sessions: Vec<Model>,
    local: State,
) -> bool {
    if any_codespace(sessions@) {
        &&& first matches RefreshFlow::Login { sessions: s, local: l, states }
        &&& s == sessions && l == local && states@ == cached_states(sessions@, local@)
        &&& effect == Effect::Gh(GhCall::Login)
    } else {
        &&& first is Over
        &&& effect matches Effect::Finish(Event::Codespaces(states))
        &&& states@ == cached_states(sessions@, local@)
    }
}

/// Refresh what is stored of the Codespaces of sessions.
pub fn refresh_codespace_states(sessions: Vec<Model>, local: State) -> (r: (RefreshFlow, Effect))
    ensures
        is_refresh_begin(r.0, r.1, sessions, local),
{
    let states = cached_codespace_states(&sessions, &local);
    let mut i: usize = 0;
    while i < sessions.len()
        invariant
            i <= sessions@.len(),
            states@ == cached_states(sessions@, local@),
            forall|j: int| 0 <= j < i ==> !has_codespace(#[trigger] sessions@[j]),
        decreases sessions@.len() - i,
    {
        if is_remote(&sessions[i]) {
            assert(has_codespace(sessions@[i as int]));
            return (
                RefreshFlow::Login { sessions, local, states },
                Effect::Gh(GhCall::Login),
            );
        }
        i = i + 1;
    }
    (RefreshFlow::Over, Effect::Finish(Event::Codespaces(states)))
}

/// The session that a refresh is dealing with.
pub open spec fn session_at(p: Progress) -> Option<Model> {
    if 0 <= p.at < p.sessions.len() {
        Some(p.sessions[p.at])
    } else {
        None
    }
}

/// The stored session says that it is being connected.
pub open spec fn says_connecting(session: Model) -> bool {
    opt_text(session.cached_zellij_state) == Some("connecting"@)
}

impl Flow for RefreshFlow {
    open spec fn leads_to(self, event: Event, next: Self, effect: Effect) -> bool {
        match (self, event) {
            (RefreshFlow::Login { sessions, local, states }, Event::Text(login)) => (next, effect)
                == (
                (RefreshFlow::List { sessions, local, states, login }),
                Effect::Gh(GhCall::ListStates),
            ),
            (RefreshFlow::List { sessions, local, states, login }, Event::Listed(listed)) =>
                is_visiting(
                    next,
                    effect,
                    Progress {
                        sessions: sessions@,
                        at: 0,
                        local: local@,
                        login,
                        listed: listed@,
                        states: states@,
                    },
                ),
            (RefreshFlow::Remote { refresh, due }, Event::Remote(zellij)) => (next, effect) == (
                (RefreshFlow::Latest { refresh, due, zellij }),
                (Effect::FindByUuid { uuid: due.uuid }),
            ),
            (RefreshFlow::Latest { refresh, due, zellij }, Event::Row(None)) => (next, effect) == (
                RefreshFlow::Over,
                fail(Failure::DisappearedInRefresh { uuid: due.uuid }),
            ),
            (RefreshFlow::Latest { refresh, due, zellij }, Event::Row(Some(latest))) => {
                match session_at(refresh@) {
                    None => (next, effect) == (RefreshFlow::Over, fail(Failure::UnexpectedReply)),
                    Some(session) => if !same_snapshot(session@, latest@) {
                        is_visiting(
                            next,
                            effect,
                            went_on(refresh@, refresh@.states.with_cache(due.name@, latest@)),
                        )
                    } else if zellij is Missing && says_connecting(latest) {
                        (next, effect) == (
                            (RefreshFlow::Clock { refresh, due, latest }),
                            Effect::Now,
                        )
                    } else {
                        (next, effect) == (
                            (RefreshFlow::Write { refresh, due, zellij }),
                            Effect::RefreshRow(
                                (RefreshUpdate { latest, remote: due.remote, zellij }),
                            ),
                        )
                    },
                }
            },
            (RefreshFlow::Clock { refresh, due, latest }, Event::At(at)) => if at.valid() {
                let zellij = if fresh(latest@, CONNECTING_SECONDS as int, at) {
                    RemoteZellijState::Connecting
                } else {
                    RemoteZellijState::Missing
                };
                (next, effect) == (
                    (RefreshFlow::Write { refresh, due, zellij }),
                    Effect::RefreshRow((RefreshUpdate { latest, remote: due.remote, zellij })),
                )
            } else {
                (next, effect) == (RefreshFlow::Over, fail(Failure::UnexpectedReply))
            },
            (RefreshFlow::Write { refresh, due, zellij }, Event::Count(count)) => if count == 0 {
                (next, effect) == (
                    (RefreshFlow::Current { refresh, due }),
                    (Effect::FindByUuid { uuid: due.uuid }),
                )
            } else {
                is_visiting(
                    next,
                    effect,
                    went_on(
                        refresh@,
                        refresh@.states.with_seen(due.name@, seen_of(due.remote), zellij),
                    ),
                )
            },
            (RefreshFlow::Current { refresh, due }, Event::Row(None)) => (next, effect) == (
                RefreshFlow::Over,
                fail(Failure::DisappearedInRefresh { uuid: due.uuid }),
            ),
            (RefreshFlow::Current { refresh, due }, Event::Row(Some(current))) => is_visiting(
                next,
                effect,
                went_on(refresh@, refresh@.states.with_cache(due.name@, current@)),
            ),
            (_, Event::Failed(f)) => (next, effect) == (RefreshFlow::Over, fail(f)),
            _ => (next, effect) == (RefreshFlow::Over, fail(Failure::UnexpectedReply)),
        }
    }

    fn next(self, event: Event) -> (r: (Self, Effect)) {
        match (self, event) {
            (RefreshFlow::Login { sessions, local, states }, Event::Text(login)) => (
                RefreshFlow::List { sessions, local, states, login },
                Effect::Gh(GhCall::ListStates),
            ),
            (RefreshFlow::List { sessions, local, states, login }, Event::Listed(listed)) => visit(
                Refresh { sessions, at: 0, local, login, listed, states },
            ),
            (RefreshFlow::Remote { refresh, due }, Event::Remote(zellij)) => {
                let uuid = due.uuid.clone();
                (RefreshFlow::Latest { refresh, due, zellij }, Effect::FindByUuid { uuid })
            },
            (RefreshFlow::Latest { refresh, due, zellij }, Event::Row(None)) => (
                RefreshFlow::Over,
                failing(Failure::DisappearedInRefresh { uuid: due.uuid }),
            ),
            (RefreshFlow::Latest { refresh, due, zellij }, Event::Row(Some(latest))) => {
                if refresh.at >= refresh.sessions.len() {
                    return (RefreshFlow::Over, failing(Failure::UnexpectedReply));
                }
                let missing = match zellij {
                    RemoteZellijState::Missing => true,
                    _ => false,
                };
                if !cache_snapshot_matches(&refresh.sessions[refresh.at], &latest) {
                    let Refresh { sessions, at, local, login, listed, mut states } = refresh;
                    use_session_cache(&mut states, &due.name, &latest);
                    continue_with(sessions, at, local, login, listed, states)
                } else if missing && is_text(&latest.cached_zellij_state, "connecting") {
                    (RefreshFlow::Clock { refresh, due, latest }, Effect::Now)
                } else {
                    let Due { name, uuid, remote } = due;
                    let copy = copy_observation(&remote);
                    (
                        RefreshFlow::Write { refresh, due: Due { name, uuid, remote }, zellij },
                        Effect::RefreshRow(RefreshUpdate { latest, remote: copy, zellij }),
                    )
                }
            },
            (RefreshFlow::Clock { refresh, due, latest }, Event::At(at)) => {
                if at.is_valid() {
                    let zellij = if cache_updated_within_at(&latest, CONNECTING_SECONDS, at) {
                        RemoteZellijState::Connecting
                    } else {
                        RemoteZellijState::Missing
                    };
                    let Due { name, uuid, remote } = due;
                    let copy = copy_observation(&remote);
                    (
                        RefreshFlow::Write { refresh, due: Due { name, uuid, remote }, zellij },
                        Effect::RefreshRow(RefreshUpdate { latest, remote: copy, zellij }),
                    )
                } else {
                    (RefreshFlow::Over, failing(Failure::UnexpectedReply))
                }
            },
            (RefreshFlow::Write { refresh, due, zellij }, Event::Count(count)) => {
                if count == 0 {
                    let uuid = due.uuid.clone();
                    (RefreshFlow::Current { refresh, due }, Effect::FindByUuid { uuid })
                } else {
                    let Refresh { sessions, at, local, login, listed, mut states } = refresh;
                    see(&mut states, due.name, &due.remote, zellij);
                    continue_with(sessions, at, local, login, listed, states)
                }
            },
            (RefreshFlow::Current { refresh, due }, Event::Row(None)) => (
                RefreshFlow::Over,
                failing(Failure::DisappearedInRefresh { uuid: due.uuid }),
            ),
            (RefreshFlow::Current { refresh, due }, Event::Row(Some(current))) => {
                let Refresh { sessions, at, local, login, listed, mut states } = refresh;
                use_session_cache(&mut states, &due.name, &current);
                continue_with(sessions, at, local, login, listed, states)
            },
            (_, Event::Failed(f)) => (RefreshFlow::Over, failing(f)),
            _ => (RefreshFlow::Over, failing(Failure::UnexpectedReply)),
        }
    }
}

fn copy_observation(remote: &Observation) -> (r: Observation)
    ensures
        r == *remote,
{
    match remote {
        Observation::Listed(state) => Observation::Listed(state.clone()),
        Observation::Gone { branch } => Observation::Gone { branch: branch.clone() },
    }
}

fn see(states: &mut CodespaceStates, name: String, remote: &Observation, zellij: RemoteZellijState)
    ensures
        final(states)@ == old(states)@.with_seen(name@, seen_of(*remote), zellij),
{
    let ghost text = name@;
    states.values.insert(name.clone(), remote_of(remote));
    states.zellij_values.insert(name, zellij);
    assert(states@ =~= old(states)@.with_seen(text, seen_of(*remote), zellij)) by {
        assert(states@.values =~= old(states)@.values.insert(text, seen_of(*remote)));
    }
}

fn continue_with(
    sessions: Vec<Model>,
    at: usize,
    local: State,
    login: String,
    listed: NameMap<RemoteState>,
    states: CodespaceStates,
) -> (r: (RefreshFlow, Effect))
    ensures
        is_visiting(
            r.0,
            r.1,
            went_on(
                Progress {
                    sessions: sessions@,
                    at: at as int,
                    local: local@,
                    login,
                    listed: listed@,
                    states: states@,
                },
                states@,
            ),
        ),
{
    let at = if at < sessions.len() {
        at + 1
    } else {
        at
    };
    visit(Refresh { sessions, at, local, login, listed, states })
}

} // verus!
