//! What is known of the Codespaces of sessions, and how a session is described from it.

use vstd::prelude::*;

use crate::clock::{age, age_at, is_past, now, stamp_seconds, Moment};
use crate::codespace::{cached_state, RemoteState, RemoteZellijState};
use crate::commands::{
    codespace_details, details_of, CodespaceDetails, BACKEND_CODESPACE, BACKEND_LOCAL,
    STATUS_REMOVED,
};
use crate::display::{short_text, short_uuid};
use crate::entity::session::{Model, Record};
use crate::failure::Failure;
use crate::git::{repo_label, repo_name};
use crate::names::NameMap;
use crate::text::{cat2, cat3, lower, opt_text, same, same_opt, to_lower};
use crate::zellij::{listed, runs, status_text, State};

verus! {

/// What is known of Codespaces by name: their states, the states of their remote sessions,
/// and the account that was asked, if one was.
#[derive(Debug)]
pub struct CodespaceStates {
    pub values: NameMap<RemoteState>,
    pub zellij_values: NameMap<RemoteZellijState>,
    pub current_login: Option<String>,
}

/// The state of a Codespace and its branch as texts.
#[verifier::ext_equal]
pub struct Seen {
    pub state: Seq<char>,
    pub branch: Option<Seq<char>>,
}

impl View for RemoteState {
    type V = Seen;

    open spec fn view(&self) -> Seen {
        Seen { state: self.state@, branch: opt_text(self.branch) }
    }
}

/// What is known of Codespaces, as texts.
#[verifier::ext_equal]
pub struct Known {
    pub values: Map<Seq<char>, Seen>,
    pub zellij_values: Map<Seq<char>, RemoteZellijState>,
    pub current_login: Option<Seq<char>>,
}

/// The texts of a map of Codespace states.
pub open spec fn seen_states(m: Map<Seq<char>, RemoteState>) -> Map<Seq<char>, Seen> {
    m.map_values(|s: RemoteState| s@)
}

impl View for CodespaceStates {
    type V = Known;

    open spec fn view(&self) -> Known {
        Known {
            values: seen_states(self.values@),
            zellij_values: self.zellij_values@,
            current_login: opt_text(self.current_login),
        }
    }
}

proof fn seen_insert(m: Map<Seq<char>, RemoteState>, k: Seq<char>, v: RemoteState)
    ensures
        seen_states(m.insert(k, v)) == seen_states(m).insert(k, v@),
{
    assert(seen_states(m.insert(k, v)) =~= seen_states(m).insert(k, v@));
}

/// The state of a remote session that is stored with a session.
pub open spec fn stored_zellij(session: Record) -> Option<RemoteZellijState> {
    match session.cached_zellij_state {
        Some(word) => cached_state(word),
        None => None,
    }
}

/// The state of a Codespace that is stored with a session.
pub open spec fn stored_seen(session: Record) -> Seen {
    Seen {
        state: match session.cached_codespace_state {
            Some(state) => state,
            None => "unknown"@,
        },
        branch: session.cached_codespace_branch,
    }
}

/// The state of the remote session as far as it is known locally: a local client shows
/// that it runs or has exited, and else what is stored counts.
pub open spec fn local_zellij(
    session: Record,
    local: Seq<(Seq<char>, bool)>,
) -> Option<RemoteZellijState> {
    let name = short_text(session.copilot_uuid);
    if runs(local, name) {
        Some(RemoteZellijState::Running)
    } else if listed(local, name) {
        Some(RemoteZellijState::Exited)
    } else {
        stored_zellij(session)
    }
}

impl Known {
    /// Nothing is known.
    pub open spec fn nothing() -> Known {
        Known { values: Map::empty(), zellij_values: Map::empty(), current_login: None }
    }

    /// What is known after also reading what is stored with `session`.
    pub open spec fn with_stored(
        self,
        session: Record,
        local: Seq<(Seq<char>, bool)>,
    ) -> Known {
        match session.codespace_name {
            Some(name) => if session.backend == BACKEND_CODESPACE@ {
                Known {
                    values: self.values.insert(name, stored_seen(session)),
                    zellij_values: match local_zellij(session, local) {
                        Some(state) => self.zellij_values.insert(name, state),
                        None => self.zellij_values,
                    },
                    ..self
                }
            } else {
                self
            },
            None => self,
        }
    }

    /// What is known after `session` was read anew for the Codespace `name`.
    pub open spec fn with_cache(self, name: Seq<char>, session: Record) -> Known {
        Known {
            values: self.values.insert(name, stored_seen(session)),
            zellij_values: match stored_zellij(session) {
                Some(state) => self.zellij_values.insert(name, state),
                None => self.zellij_values.remove(name),
            },
            ..self
        }
    }

    /// What is known after the Codespace `name` was seen.
    pub open spec fn with_seen(
        self,
        name: Seq<char>,
        seen: Seen,
        zellij: RemoteZellijState,
    ) -> Known {
        Known {
            values: self.values.insert(name, seen),
            zellij_values: self.zellij_values.insert(name, zellij),
            ..self
        }
    }
}

/// What is stored of the Codespaces of sessions.
pub open spec fn cached_states(
    sessions: Seq<Model>,
    local: Seq<(Seq<char>, bool)>,
) -> Known
    decreases sessions.len(),
{
    if sessions.len() == 0 {
        Known::nothing()
    } else {
        cached_states(sessions.drop_last(), local).with_stored(sessions.last()@, local)
    }
}

fn stored_remote(session: &Model) -> (r: RemoteState)
    ensures
        r@ == stored_seen(session@),
{
    RemoteState {
        state: match &session.cached_codespace_state {
            Some(state) => state.clone(),
            None => "unknown".to_string(),
        },
        branch: session.cached_codespace_branch.clone(),
    }
}

fn stored_remote_zellij(session: &Model) -> (r: Option<RemoteZellijState>)
    ensures
        r == stored_zellij(session@),
{
    match &session.cached_zellij_state {
        Some(word) => RemoteZellijState::from_cached(word),
        None => None,
    }
}

/// What is stored of the Codespaces of sessions. Nothing remote is asked.
pub fn cached_codespace_states(sessions: &Vec<Model>, local_zellij: &State) -> (r: CodespaceStates)
    ensures
        r@ == cached_states(sessions@, local_zellij@),
{
    let mut states = CodespaceStates {
        values: NameMap::new(),
        zellij_values: NameMap::new(),
        current_login: None,
    };
    let mut i: usize = 0;
    assert(states@ =~= cached_states(sessions@.take(0), local_zellij@)) by {
        assert(states@.values =~= Map::<Seq<char>, Seen>::empty());
    }
    while i < sessions.len()
        invariant
            i <= sessions@.len(),
            states@ == cached_states(sessions@.take(i as int), local_zellij@),
        decreases sessions@.len() - i,
    {
        let session = &sessions[i];
        let ghost before = states@;
        let ghost values = states.values@;
        assert(sessions@.take(i + 1).drop_last() =~= sessions@.take(i as int));
        if same(&session.backend, BACKEND_CODESPACE) {
            if let Some(codespace_name) = &session.codespace_name {
                let remote = stored_remote(session);
                proof {
                    seen_insert(values, codespace_name@, remote);
                }
                states.values.insert(codespace_name.clone(), remote);
                let zellij_name = short_uuid(&session.copilot_uuid);
                let zellij = if local_zellij.is_running(&zellij_name) {
                    Some(RemoteZellijState::Running)
                } else if local_zellij.is_listed(&zellij_name) {
                    Some(RemoteZellijState::Exited)
                } else {
                    stored_remote_zellij(session)
                };
                if let Some(state) = zellij {
                    states.zellij_values.insert(codespace_name.clone(), state);
                }
                assert(states@ =~= before.with_stored(session@, local_zellij@));
            }
        }
        i = i + 1;
    }
    assert(sessions@.take(i as int) =~= sessions@);
    states
}

/// Replace what is known of a Codespace by what is stored with `session`.
pub fn use_session_cache(states: &mut CodespaceStates, codespace_name: &str, session: &Model)
    ensures
        final(states)@ == old(states)@.with_cache(codespace_name@, session@),
{
    let remote = stored_remote(session);
    proof {
        seen_insert(states.values@, codespace_name@, remote);
    }
    states.values.insert(codespace_name.to_string(), remote);
    match stored_remote_zellij(session) {
        Some(state) => {
            states.zellij_values.insert(codespace_name.to_string(), state);
        },
        None => {
            states.zellij_values.remove(codespace_name);
        },
    }
    assert(states@ =~= old(states)@.with_cache(codespace_name@, session@));
}

/// Two records hold the same of their Codespace.
pub open spec fn same_snapshot(left: Record, right: Record) -> bool {
    &&& left.cached_codespace_state == right.cached_codespace_state
    &&& left.cached_codespace_branch == right.cached_codespace_branch
    &&& left.cached_zellij_state == right.cached_zellij_state
    &&& left.codespace_state_updated_at == right.codespace_state_updated_at
}

/// Whether two sessions hold the same of their Codespace.
pub fn cache_snapshot_matches(left: &Model, right: &Model) -> (r: bool)
    ensures
        r == same_snapshot(left@, right@),
{
    same_opt(&left.cached_codespace_state, &right.cached_codespace_state) && same_opt(
        &left.cached_codespace_branch,
        &right.cached_codespace_branch,
    ) && same_opt(&left.cached_zellij_state, &right.cached_zellij_state) && same_opt(
        &left.codespace_state_updated_at,
        &right.codespace_state_updated_at,
    )
}

/// What is stored of a session's Codespace was written at most `seconds` before `at`, and
/// not after it.
pub open spec fn fresh(session: Record, seconds: int, at: Moment) -> bool {
    &&& session.codespace_state_updated_at matches Some(time)
    &&& age(time, at) matches Some(secs)
    &&& 0 <= secs <= seconds
}

/// Whether what is stored of a session's Codespace was written at most `seconds` before
/// `at`, and not after it.
pub fn cache_updated_within_at(session: &Model, seconds: i64, at: Moment) -> (r: bool)
    requires
        at.valid(),
    ensures
        r == fresh(session@, seconds as int, at),
        session@.codespace_state_updated_at matches Some(time) && is_past(time, at) ==> r == (
        at.seconds - stamp_seconds(session@.codespace_state_updated_at->0) <= seconds),
{
    match &session.codespace_state_updated_at {
        Some(time) => match age_at(time, at) {
            Some(secs) => 0 <= secs && secs <= seconds,
            None => false,
        },
        None => false,
    }
}

/// Whether what is stored of a session's Codespace was written at most `seconds` ago, and
/// not in the future.
pub fn cache_updated_within(session: &Model, seconds: i64) -> (r: bool)
    ensures
        exists|at: Moment| at.current() && r == #[trigger] fresh(session@, seconds as int, at),
{
    let at = now();
    cache_updated_within_at(session, seconds, at)
}

/// The whole days between a timestamp and a moment, if the timestamp can be read. A day
/// that has not passed in full does not count, in either direction.
pub open spec fn whole_days(timestamp: Seq<char>, at: Moment) -> Option<int> {
    match age(timestamp, at) {
        Some(secs) => Some(
            if secs >= 0 {
                secs as int / 86_400
            } else {
                -((-secs) / 86_400)
            },
        ),
        None => None,
    }
}

/// Whole days elapsed at `at` since a stored timestamp. None if the timestamp can't be
/// parsed.
pub fn days_since_at(timestamp: &str, at: Moment) -> (r: Option<i64>)
    requires
        at.valid(),
    ensures
        match r {
            Some(days) => whole_days(timestamp@, at) == Some(days as int),
            None => whole_days(timestamp@, at) is None,
        },
        is_past(timestamp@, at) ==> (r matches Some(days) && days == (at.seconds - stamp_seconds(
            timestamp@,
        )) / 86_400),
{
    match age_at(timestamp, at) {
        Some(secs) => Some(
            if secs >= 0 {
                secs / 86_400
            } else {
                let past: i64 = -secs;
                let days: i64 = past / 86_400;
                -days
            },
        ),
        None => None,
    }
}

/// Whole days elapsed since a stored timestamp. None if the timestamp can't be parsed.
pub fn days_since(timestamp: &str) -> (r: Option<i64>)
    ensures
        exists|at: Moment|
            at.current() && match r {
                Some(days) => #[trigger] whole_days(timestamp@, at) == Some(days as int),
                None => whole_days(timestamp@, at) is None,
            },
{
    let at = now();
    let r = days_since_at(timestamp, at);
    assert(match r {
        Some(days) => whole_days(timestamp@, at) == Some(days as int),
        None => whole_days(timestamp@, at) is None,
    });
    r
}

// ── Descriptions ────────────────────────────────────────────────────────────

/// `r` is the expected text, or the expected failure.
pub open spec fn says(r: Result<String, Failure>, expected: Result<Seq<char>, Failure>) -> bool {
    match expected {
        Ok(text) => r matches Ok(t) && t@ == text,
        Err(f) => r == Err::<String, Failure>(f),
    }
}

/// The failure for a session with an unknown backend.
pub open spec fn unknown_backend(session: Model) -> Failure {
    Failure::UnknownBackend { name: session.name, backend: session.backend }
}

/// The repository of a session as it is shown, with a suffix for a Codespace.
pub open spec fn shown_repo(session: Model) -> Result<Seq<char>, Failure> {
    if session.backend@ == BACKEND_LOCAL@ {
        Ok(repo_label(session.source_repo@))
    } else if session.backend@ == BACKEND_CODESPACE@ {
        Ok(repo_label(session.source_repo@) + "@cs"@)
    } else {
        Err(unknown_backend(session))
    }
}

/// The repository of a session as it is shown.
pub fn session_repo_label(session: &Model) -> (r: Result<String, Failure>)
    ensures
        says(r, shown_repo(*session)),
{
    let repo = repo_name(&session.source_repo);
    if same(&session.backend, BACKEND_LOCAL) {
        Ok(repo)
    } else if same(&session.backend, BACKEND_CODESPACE) {
        Ok(cat2(&repo, "@cs"))
    } else {
        Err(
            Failure::UnknownBackend {
                name: session.name.clone(),
                backend: session.backend.clone(),
            },
        )
    }
}

/// The branch of a session is asked of its worktree.
pub open spec fn asks_worktree(session: Record) -> bool {
    session.backend == BACKEND_LOCAL@ && session.status != STATUS_REMOVED@
}

/// Whether the branch of a session is asked of its worktree.
pub fn branch_is_local(session: &Model) -> (r: bool)
    ensures
        r == asks_worktree(session@),
{
    same(&session.backend, BACKEND_LOCAL) && !same(&session.status, STATUS_REMOVED)
}

/// Another account than the owner of the Codespace was asked.
pub open spec fn other_account(known: Known, details: CodespaceDetails) -> bool {
    known.current_login matches Some(login) && login != details.github_login@
}

/// The branch of a session as it is shown: the checked-out branch of its worktree, the
/// branch that is known of its Codespace, or the one it was created with.
pub open spec fn shown_branch(
    session: Model,
    checked_out: Option<Seq<char>>,
    known: Known,
) -> Result<Seq<char>, Failure> {
    if session.backend@ == BACKEND_LOCAL@ {
        Ok(
            match checked_out {
                Some(branch) => if asks_worktree(session@) {
                    branch
                } else {
                    session.branch@
                },
                None => session.branch@,
            },
        )
    } else if session.backend@ == BACKEND_CODESPACE@ {
        match details_of(session) {
            Err(f) => Err(f),
            Ok(details) => Ok(
                if !other_account(known, details) && known.values.contains_key(details.name@)
                    && known.values[details.name@].branch is Some {
                    known.values[details.name@].branch->0
                } else {
                    session.branch@
                },
            ),
        }
    } else {
        Err(unknown_backend(session))
    }
}

/// The branch of a session as it is shown, where `checked_out` is the branch that its
/// worktree has, if that could be read.
pub fn session_display_branch(
    session: &Model,
    checked_out: &Option<String>,
    states: &CodespaceStates,
) -> (r: Result<String, Failure>)
    ensures
        says(r, shown_branch(*session, opt_text(*checked_out), states@)),
{
    if same(&session.backend, BACKEND_LOCAL) {
        match checked_out {
            Some(branch) if branch_is_local(session) => Ok(branch.clone()),
            _ => Ok(session.branch.clone()),
        }
    } else if same(&session.backend, BACKEND_CODESPACE) {
        let details = match codespace_details(session) {
            Ok(details) => details,
            Err(f) => {
                return Err(f);
            },
        };
        if let Some(login) = &states.current_login {
            if !same(login, &details.github_login) {
                return Ok(session.branch.clone());
            }
        }
        assert(states@.values.dom() =~= states.values@.dom());
        match states.values.get(&details.name) {
            Some(state) => {
                assert(states@.values[details.name@] == state@);
                match &state.branch {
                    Some(branch) => Ok(branch.clone()),
                    None => Ok(session.branch.clone()),
                }
            },
            None => Ok(session.branch.clone()),
        }
    } else {
        Err(
            Failure::UnknownBackend {
                name: session.name.clone(),
                backend: session.backend.clone(),
            },
        )
    }
}

/// What is known of the remote session of a Codespace.
pub open spec fn observed_zellij(known: Known, name: Seq<char>) -> Option<RemoteZellijState> {
    if known.zellij_values.contains_key(name) {
        Some(known.zellij_values[name])
    } else {
        None
    }
}

/// The status of a Codespace session as it is shown: the status of the remote session and
/// the state of the Codespace, or the account that owns it where another one was asked.
pub open spec fn codespace_status(known: Known, details: CodespaceDetails) -> Seq<char> {
    let observed = observed_zellij(known, details.name@);
    if other_account(known, details) {
        (match observed {
            Some(RemoteZellijState::Connecting) | Some(RemoteZellijState::Running) | Some(
                RemoteZellijState::LegacyTmux,
            ) => "running"@,
            Some(RemoteZellijState::Exited) => "exited"@,
            Some(RemoteZellijState::Missing) | None => "unknown"@,
        }) + "/account:"@ + details.github_login@
    } else {
        let remote = if known.values.contains_key(details.name@) {
            lower(known.values[details.name@].state)
        } else {
            "unknown"@
        };
        (match observed {
            Some(RemoteZellijState::Connecting) | Some(RemoteZellijState::Running) | Some(
                RemoteZellijState::LegacyTmux,
            ) => "running"@,
            Some(RemoteZellijState::Exited) => "exited"@,
            Some(RemoteZellijState::Missing) => "stopped"@,
            None => if remote == "shutdown"@ || remote == "missing"@ {
                "stopped"@
            } else {
                "unknown"@
            },
        }) + "/"@ + remote
    }
}

/// The status of a session as it is shown.
pub open spec fn shown_status(
    session: Model,
    local: Seq<(Seq<char>, bool)>,
    known: Known,
) -> Result<Seq<char>, Failure> {
    if session.status@ == STATUS_REMOVED@ {
        Ok(STATUS_REMOVED@)
    } else if session.backend@ == BACKEND_LOCAL@ {
        Ok(status_text(local, short_text(session.copilot_uuid@)))
    } else if session.backend@ == BACKEND_CODESPACE@ {
        match details_of(session) {
            Err(f) => Err(f),
            Ok(details) => Ok(codespace_status(known, details)),
        }
    } else {
        Err(unknown_backend(session))
    }
}

/// The status of a session as it is shown.
pub fn session_display_status(
    session: &Model,
    zellij_state: &State,
    codespace_states: &CodespaceStates,
) -> (r: Result<String, Failure>)
    ensures
        says(r, shown_status(*session, zellij_state@, codespace_states@)),
{
    if same(&session.status, STATUS_REMOVED) {
        return Ok(STATUS_REMOVED.to_string());
    }
    let zellij_name = short_uuid(&session.copilot_uuid);
    if same(&session.backend, BACKEND_LOCAL) {
        return Ok(zellij_state.display_status(&zellij_name).to_string());
    }
    if !same(&session.backend, BACKEND_CODESPACE) {
        return Err(
            Failure::UnknownBackend {
                name: session.name.clone(),
                backend: session.backend.clone(),
            },
        );
    }
    let details = match codespace_details(session) {
        Ok(details) => details,
        Err(f) => {
            return Err(f);
        },
    };
    let observed = codespace_states.zellij_values.get(&details.name);
    if let Some(login) = &codespace_states.current_login {
        if !same(login, &details.github_login) {
            let zellij_status = match observed {
                Some(RemoteZellijState::Connecting) | Some(RemoteZellijState::Running) | Some(
                    RemoteZellijState::LegacyTmux,
                ) => "running",
                Some(RemoteZellijState::Exited) => "exited",
                Some(RemoteZellijState::Missing) | None => "unknown",
            };
            return Ok(cat3(zellij_status, "/account:", &details.github_login));
        }
    }
    assert(codespace_states@.values.dom() =~= codespace_states.values@.dom());
    let remote_status = match codespace_states.values.get(&details.name) {
        Some(state) => {
            assert(codespace_states@.values[details.name@] == state@);
            to_lower(&state.state)
        },
        None => "unknown".to_string(),
    };
    let zellij_status = match observed {
        Some(RemoteZellijState::Connecting) | Some(RemoteZellijState::Running) | Some(
            RemoteZellijState::LegacyTmux,
        ) => "running",
        Some(RemoteZellijState::Exited) => "exited",
        Some(RemoteZellijState::Missing) => "stopped",
        None => {
            if same(&remote_status, "shutdown") || same(&remote_status, "missing") {
                "stopped"
            } else {
                "unknown"
            }
        },
    };
    Ok(cat3(zellij_status, "/", &remote_status))
}

} // verus!
