//! Laws of what the user is told along the way.

use vstd::prelude::*;

use crate::codespace::RepoInfo;
use crate::commands::remote::{cleanup_failed_codespace_creation_begin, CleanupFailedFlow};
use crate::commands::remove::{rm_begin, RmFlow};
use crate::commands::stop::{stop_begin, StopSessionsFlow};
use crate::failure::Failure;
use crate::flow::{fail, is_run, Effect, Event, Flow};
use crate::remark::{is_trouble, Narrated, Remark, Topic};

verus! {

// ── Stopping ────────────────────────────────────────────────────────────────

proof fn resolved_place_is_named(
    names: Vec<String>,
    states: Seq<StopSessionsFlow>,
    effects: Seq<Effect>,
    events: Seq<Event>,
    k: int,
)
    requires
        is_run(states, effects, events),
        (states[0], effects[0]) == stop_begin(names),
        0 <= k < effects.len(),
    ensures
        states[k] matches StopSessionsFlow::Resolve(list) ==> list.at < list.names.len(),
{
    if k > 0 {
        assert(states[k - 1].leads_to(events[k - 1], states[k], effects[k]));
    }
}

/// No session that was named is passed over in silence: where the next one comes, or the list
/// is over, without a report on this one, the user is warned.
pub proof fn skipped_stops_are_mentioned(
    names: Vec<String>,
    states: Seq<StopSessionsFlow>,
    effects: Seq<Effect>,
    events: Seq<Event>,
    k: int,
)
    requires
        is_run(states, effects, events),
        (states[0], effects[0]) == stop_begin(names),
        0 <= k < events.len(),
        states[k] is Resolve || states[k] is Zellij || states[k] is Codespace,
        states[k + 1] is Resolve || states[k + 1] is Over,
        effects[k + 1] != fail(Failure::UnexpectedReply),
    ensures
        states[k].told(&events[k]).len() > 0,
        is_trouble(states[k].told(&events[k]).last().topic),
{
    resolved_place_is_named(names, states, effects, events, k);
    assert(states[k].leads_to(events[k], states[k + 1], effects[k + 1]));
}

// ── Removing ────────────────────────────────────────────────────────────────

/// A name that no session is found for is mentioned, with the reason.
pub proof fn unresolved_removals_are_mentioned(
    names: Vec<String>,
    force: bool,
    interactive: bool,
    older_than: Option<u64>,
    states: Seq<RmFlow>,
    effects: Seq<Effect>,
    events: Seq<Event>,
    k: int,
)
    requires
        is_run(states, effects, events),
        (states[0], effects[0]) == rm_begin(names, force, interactive, older_than),
        0 <= k < events.len(),
        states[k] is Resolve,
        events[k] is Failed,
    ensures
        ({
            let told = states[k].told(&events[k]);
            &&& told.len() == 1
            &&& told[0].topic == Topic::NotResolved
            &&& events[k] matches Event::Failed(f) && told[0].error == Some(&f)
            &&& effects[k] matches Effect::Resolve { query } && told[0].detail == Some(&query)
        }),
{
    if k > 0 {
        assert(states[k - 1].leads_to(events[k - 1], states[k], effects[k]));
    }
}

/// Nothing else is said while sessions are removed: a remark comes only where a name was looked
/// for and that failed.
pub proof fn removals_are_not_chatty(state: RmFlow, event: Event)
    ensures
        state.told(&event).len() > 0 ==> state is Resolve && event is Failed,
{
}

// ── Undoing a creation ──────────────────────────────────────────────────────

/// The remark warns of the Codespace and gives the reason why it could not be deleted.
pub open spec fn warns_of(remark: Remark, codespace: String, failure: Failure) -> bool {
    &&& is_trouble(remark.topic)
    &&& remark.codespace == Some(&codespace)
    &&& remark.delete_error == Some(&failure)
}

proof fn undoing_remembers_the_failure(
    session_name: String,
    uuid: String,
    repo: RepoInfo,
    codespace: String,
    github_login: String,
    states: Seq<CleanupFailedFlow>,
    effects: Seq<Effect>,
    events: Seq<Event>,
    failure: Failure,
    k: int,
)
    requires
        is_run(states, effects, events),
        (states[0], effects[0]) == cleanup_failed_codespace_creation_begin(
            session_name,
            uuid,
            repo,
            codespace,
            github_login,
        ),
        0 < k < effects.len(),
        events[0] == Event::Failed(failure),
    ensures
        match states[k] {
            CleanupFailedFlow::Find { codespace_name, delete_error, .. } => codespace_name
                == codespace && delete_error == failure,
            CleanupFailedFlow::Name { codespace_name, delete_error, .. } => codespace_name
                == codespace && delete_error == failure,
            CleanupFailedFlow::Keep { codespace_name, delete_error, .. } => codespace_name
                == codespace && delete_error == failure,
            CleanupFailedFlow::Over => effects[k] is Finish,
            _ => false,
        },
    decreases k,
{
    assert(states[k - 1].leads_to(events[k - 1], states[k], effects[k]));
    if k > 1 {
        undoing_remembers_the_failure(
            session_name,
            uuid,
            repo,
            codespace,
            github_login,
            states,
            effects,
            events,
            failure,
            k - 1,
        );
        assert(effects[k - 1] !is Finish);
    }
}

/// A Codespace that could not be deleted is mentioned before its undoing ends, with the
/// reason.
pub proof fn undeleted_codespaces_are_mentioned(
    session_name: String,
    uuid: String,
    repo: RepoInfo,
    codespace: String,
    github_login: String,
    states: Seq<CleanupFailedFlow>,
    effects: Seq<Effect>,
    events: Seq<Event>,
    failure: Failure,
    k: int,
)
    requires
        is_run(states, effects, events),
        (states[0], effects[0]) == cleanup_failed_codespace_creation_begin(
            session_name,
            uuid,
            repo,
            codespace,
            github_login,
        ),
        0 < k < effects.len(),
        events[0] == Event::Failed(failure),
        effects[k] == Effect::Finish(Event::Done),
    ensures
        k > 1,
        states[k - 1].told(&events[k - 1]).len() == 1,
        warns_of(states[k - 1].told(&events[k - 1])[0], codespace, failure),
{
    assert(states[k - 1].leads_to(events[k - 1], states[k], effects[k]));
    if k > 1 {
        undoing_remembers_the_failure(
            session_name,
            uuid,
            repo,
            codespace,
            github_login,
            states,
            effects,
            events,
            failure,
            k - 1,
        );
        assert(effects[k - 1] !is Finish);
    }
}

} // verus!
