//! Laws of stopping and removing sessions.

use vstd::prelude::*;

use crate::clock::{age, Moment};
use crate::commands::local::{zellij_listed, zellij_runs};
use crate::commands::remove::{
    idle_for, is_gathered, is_gathering, is_removing, remove_one_begin, rm_begin, with_idle,
    with_target, Plan, RemoveOneFlow, RmFlow,
};
use crate::commands::sessions::names_of;
use crate::commands::stop::{stop_begin, StopList, StopSessionsFlow};
use crate::commands::{
    details_of, Notice, RowChange, BACKEND_CODESPACE, BACKEND_LOCAL, STATUS_REMOVED,
};
use crate::entity::session::Model;
use crate::failure::Failure;
use crate::flow::{is_run, Effect, Event, Flow};
use crate::git::{lies_under, Dir};
use crate::laws::history::{answered, just_answered, just_failed, misanswered};
use crate::laws::removing::{distinct_names, idle_sessions_are_removed, no_session_is_removed_twice};
use crate::remark::{bare, Narrated, Remark, Topic};
use crate::zellij::State;

verus! {

// ── Stopping ────────────────────────────────────────────────────────────────

/// How many sessions were looked for before place `k`.
pub open spec fn turns(effects: Seq<Effect>, k: int) -> nat
    decreases k,
{
    if k <= 0 {
        0
    } else {
        turns(effects, k - 1) + (if effects[k - 1] is Resolve {
            1nat
        } else {
            0
        })
    }
}

/// The session has a backend that can be stopped.
pub open spec fn can_be_stopped(session: Model) -> bool {
    session.backend@ == BACKEND_LOCAL@ || session.backend@ == BACKEND_CODESPACE@ && details_of(
        session,
    ) is Ok
}

/// The place `j` shows that a session cannot be stopped: it was found, is not removed and has no
/// backend that can be stopped, or stopping its Codespace failed.
pub open spec fn shows_failure(effects: Seq<Effect>, events: Seq<Event>, j: int) -> bool {
    ||| effects[j] is Resolve && (events[j] matches Event::Row(Some(session)) && session.status@
        != STATUS_REMOVED@ && !can_be_stopped(session))
    ||| effects[j] is StopAndCache && events[j] is Failed
}

/// How many places before place `k` show that a session cannot be stopped.
pub open spec fn failures_shown(effects: Seq<Effect>, events: Seq<Event>, k: int) -> nat
    decreases k,
{
    if k <= 0 {
        0
    } else {
        failures_shown(effects, events, k - 1) + (if shows_failure(effects, events, k - 1) {
            1nat
        } else {
            0
        })
    }
}

/// The session was the last one that was found, right before place `k` or before its zellij
/// session was stopped.
pub open spec fn is_current(
    effects: Seq<Effect>,
    events: Seq<Event>,
    k: int,
    session: Model,
) -> bool {
    ||| k > 0 && effects[k - 1] is Resolve && events[k - 1] == Event::Row(Some(session))
    ||| k > 1 && effects[k - 1] is StopZellij && effects[k - 2] is Resolve && events[k - 2]
        == Event::Row(Some(session))
}

/// Nothing more is to be done for the session that was looked for last: it was reported, was not
/// found, is removed or cannot be stopped.
pub open spec fn turn_is_over(effects: Seq<Effect>, events: Seq<Event>, k: int) -> bool {
    ||| k == 1
    ||| k > 1 && effects[k - 1] is Report
    ||| k > 1 && effects[k - 1] is StopAndCache && events[k - 1] is Failed
    ||| k > 1 && effects[k - 1] is Resolve && match events[k - 1] {
        Event::Failed(_) => true,
        Event::Row(Some(session)) => session.status@ == STATUS_REMOVED@ || !can_be_stopped(session),
        _ => false,
    }
    ||| k > 2 && effects[k - 1] is StopZellij && (events[k - 2] matches Event::Row(Some(session))
        && !can_be_stopped(session))
}

/// How the name was resolved whose turn it is in place `k`.
pub open spec fn resolved_before(effects: Seq<Effect>, events: Seq<Event>, k: int) -> Event {
    if effects[k - 1] is StopZellij {
        events[k - 2]
    } else {
        events[k - 1]
    }
}

spec fn keeps_list(
    names: Vec<String>,
    effects: Seq<Effect>,
    events: Seq<Event>,
    k: int,
    list: StopList,
    due: nat,
) -> bool {
    &&& list.names == names && list.at < names@.len()
    &&& k > 0 && events[0] == Event::Zellij(list.sessions)
    &&& list.at == turns(effects, k) - due
    &&& list.failures <= list.at
}

proof fn stopping_remembers(
    names: Vec<String>,
    states: Seq<StopSessionsFlow>,
    effects: Seq<Effect>,
    events: Seq<Event>,
    k: int,
)
    requires
        is_run(states, effects, events),
        (states[0], effects[0]) == stop_begin(names),
        0 <= k < effects.len(),
    ensures
        match states[k] {
            StopSessionsFlow::Query { names: n } => k == 0 && n == names && effects[k]
                is QueryZellij,
            StopSessionsFlow::Resolve(list) => {
                &&& keeps_list(names, effects, events, k, list, 0)
                &&& effects[k] is Resolve
                &&& list.failures == failures_shown(effects, events, k)
            },
            StopSessionsFlow::Zellij { list, session } => {
                &&& keeps_list(names, effects, events, k, list, 1)
                &&& effects[k] is StopZellij && session.status@ != STATUS_REMOVED@
                &&& effects[k - 1] is Resolve && events[k - 1] == Event::Row(Some(session))
                &&& list.failures + (if can_be_stopped(session) {
                    0int
                } else {
                    1
                }) == failures_shown(effects, events, k)
            },
            StopSessionsFlow::Codespace { list, name, uuid, codespace } => {
                &&& keeps_list(names, effects, events, k, list, 1)
                &&& effects[k] is StopAndCache
                &&& list.failures == failures_shown(effects, events, k)
                &&& (effects[k] matches Effect::StopAndCache { name: n, uuid: u, .. } && n
                    == codespace && u == uuid)
                &&& resolved_before(effects, events, k) matches Event::Row(Some(session))
                    && session.name == name && session.copilot_uuid == uuid
            },
            StopSessionsFlow::Report(list) => {
                &&& keeps_list(names, effects, events, k, list, 1)
                &&& effects[k] is Report
                &&& list.failures == failures_shown(effects, events, k)
            },
            StopSessionsFlow::Over => effects[k] is Finish,
        },
    decreases k,
{
    if k > 0 {
        stopping_remembers(names, states, effects, events, k - 1);
        assert(states[k - 1].leads_to(events[k - 1], states[k], effects[k]));
        assert(effects[k - 1] !is Finish);
        assert(turns(effects, 0) == 0 && failures_shown(effects, events, 0) == 0);
        assert(turns(effects, k) == turns(effects, k - 1) + (if effects[k - 1] is Resolve {
            1nat
        } else {
            0
        }));
    }
}

/// What `stop` asks for. Each named session is looked for once, in order. One that is found and
/// not removed has its zellij session stopped exactly if that ran or was listed at the start; then
/// a local one is reported as what it was at the start, and a Codespace one has its own Codespace
/// stopped and is reported if that succeeds. After the last name `stop` ends well exactly if no
/// session was seen not to be stoppable, and else with their number.
pub proof fn stop_deals_with_each_session(
    names: Vec<String>,
    states: Seq<StopSessionsFlow>,
    effects: Seq<Effect>,
    events: Seq<Event>,
    k: int,
)
    requires
        is_run(states, effects, events),
        (states[0], effects[0]) == stop_begin(names),
        0 <= k < effects.len(),
    ensures
        match effects[k] {
            Effect::QueryZellij => k == 0 && names@.len() > 0,
            Effect::Resolve { query } => k > 0 && turns(effects, k) < names@.len() && query
                == names@[turns(effects, k) as int] && turn_is_over(effects, events, k),
            Effect::StopZellij { uuid } => {
                &&& k > 0 && effects[k - 1] is Resolve
                &&& events[k - 1] matches Event::Row(Some(session)) && session.status@
                    != STATUS_REMOVED@ && uuid == session.copilot_uuid
                &&& events[0] matches Event::Zellij(zellij) && (zellij_runs(zellij@, uuid@)
                    || zellij_listed(zellij@, uuid@))
            },
            Effect::StopAndCache { name, github_login, uuid } => exists|session: Model| #[trigger]
                is_current(effects, events, k, session) && session.status@ != STATUS_REMOVED@
                    && session.backend@ == BACKEND_CODESPACE@ && session.codespace_name == Some(
                    name,
                ) && session.github_login == Some(github_login) && uuid == session.copilot_uuid && (
                effects[k - 1] is StopZellij || (events[0] matches Event::Zellij(zellij)
                    && !zellij_listed(zellij@, uuid@) && !zellij_runs(zellij@, uuid@))),
            Effect::Report(notice) => match notice {
                Notice::StoppedSession { name, uuid } => exists|session: Model| #[trigger]
                    is_current(effects, events, k, session) && session.backend@ == BACKEND_LOCAL@
                        && session.name == name && session.copilot_uuid == uuid && (events[0]
                        matches Event::Zellij(zellij) && zellij_runs(zellij@, uuid@))
                        && effects[k - 1] is StopZellij,
                Notice::CleanedUp { name, uuid } => exists|session: Model| #[trigger]
                    is_current(effects, events, k, session) && session.backend@ == BACKEND_LOCAL@
                        && session.name == name && session.copilot_uuid == uuid && (events[0]
                        matches Event::Zellij(zellij) && !zellij_runs(zellij@, uuid@)
                        && zellij_listed(zellij@, uuid@)) && effects[k - 1] is StopZellij,
                Notice::NotRunning { name, uuid } => exists|session: Model| #[trigger]
                    is_current(effects, events, k, session) && session.backend@ == BACKEND_LOCAL@
                        && session.status@ != STATUS_REMOVED@ && session.name == name
                        && session.copilot_uuid == uuid && (events[0] matches Event::Zellij(zellij)
                        && !zellij_runs(zellij@, uuid@) && !zellij_listed(zellij@, uuid@)),
                Notice::StoppedCodespace { name, uuid, codespace } => {
                    &&& k > 0 && events[k - 1] == Event::Done
                    &&& effects[k - 1] matches Effect::StopAndCache { name: n, uuid: u, .. }
                    &&& n == codespace && u == uuid
                    &&& exists|session: Model| #[trigger]
                        is_current(effects, events, k - 1, session) && session.name == name
                },
                _ => false,
            },
            Effect::Finish(Event::Done) => k > 0 && turns(effects, k) == names@.len()
                && failures_shown(effects, events, k) == 0 && turn_is_over(effects, events, k),
            Effect::Finish(Event::Failed(f)) => {
                ||| k == 0 && names@.len() == 0 && f == Failure::NoNames
                ||| k == 1 && just_failed(events, k, f)
                ||| f == Failure::UnexpectedReply && misanswered(effects, events, k)
                ||| turns(effects, k) == names@.len() && turn_is_over(effects, events, k)
                    && failures_shown(effects, events, k) > 0 && f == (Failure::StopFailures { count: failures_shown(effects, events, k) as u64 })
            },
            _ => false,
        },
{
    stopping_remembers(names, states, effects, events, k);
    if k > 0 {
        stopping_remembers(names, states, effects, events, k - 1);
        assert(states[k - 1].leads_to(events[k - 1], states[k], effects[k]));
        assert(effects[k - 1] !is Finish);
        assert(turns(effects, 0) == 0 && failures_shown(effects, events, 0) == 0);
        match (states[k - 1], events[k - 1]) {
            (StopSessionsFlow::Resolve(_), Event::Row(Some(session))) => {
                assert(is_current(effects, events, k, session));
            },
            (StopSessionsFlow::Zellij { session, .. }, _) => {
                assert(is_current(effects, events, k, session));
            },
            _ => {},
        }
        if states[k - 1] is Codespace {
            stopping_remembers(names, states, effects, events, k - 2);
            assert(states[k - 2].leads_to(events[k - 2], states[k - 1], effects[k - 1]));
            match (states[k - 2], events[k - 2]) {
                (StopSessionsFlow::Resolve(_), Event::Row(Some(session))) => {
                    assert(is_current(effects, events, k - 1, session));
                },
                (StopSessionsFlow::Zellij { session, .. }, _) => {
                    assert(is_current(effects, events, k - 1, session));
                },
                _ => {},
            }
        }
    }
}

/// What is said of a session whose backend cannot be stopped: why its Codespace is not known, or
/// which backend it has.
pub open spec fn backend_trouble<'a>(session: &'a Model) -> Seq<Remark<'a>> {
    let plain = |topic: Topic| Remark {
        name: Some(&session.name),
        uuid: Some(&session.copilot_uuid),
        ..bare(topic)
    };
    if can_be_stopped(*session) {
        Seq::empty()
    } else if session.backend@ == BACKEND_CODESPACE@ {
        seq![Remark { fault: Some(details_of(*session)->Err_0), ..plain(Topic::InvalidDetails) }]
    } else {
        seq![Remark { detail: Some(&session.backend), ..plain(Topic::UnknownBackend) }]
    }
}

/// The user is warned exactly of what `stop` cannot do: a name that no session is found for, a
/// session that is removed, a zellij session that did not end, a backend that cannot be stopped,
/// and a Codespace that could not be stopped, each with its session and the reason.
pub proof fn stop_tells_what_it_cannot_do(
    names: Vec<String>,
    states: Seq<StopSessionsFlow>,
    effects: Seq<Effect>,
    events: Seq<Event>,
    k: int,
)
    requires
        is_run(states, effects, events),
        (states[0], effects[0]) == stop_begin(names),
        0 <= k < events.len(),
    ensures
        ({
            let told = states[k].told(&events[k]);
            match (effects[k], events[k]) {
                (Effect::Resolve { query }, Event::Failed(f)) => told == seq![
                    Remark { detail: Some(&query), error: Some(&f), ..bare(Topic::NotResolved) },
                ],
                (Effect::Resolve { .. }, Event::Row(Some(session))) => told == (if session.status@
                    == STATUS_REMOVED@ {
                    seq![
                        Remark {
                            name: Some(&session.name),
                            uuid: Some(&session.copilot_uuid),
                            ..bare(Topic::Removed)
                        },
                    ]
                } else if events[0] matches Event::Zellij(zellij) && (zellij_runs(
                    zellij@,
                    session.copilot_uuid@,
                ) || zellij_listed(zellij@, session.copilot_uuid@)) {
                    Seq::empty()
                } else {
                    backend_trouble(&session)
                }),
                (Effect::StopZellij { .. }, event) => events[k - 1] matches Event::Row(Some(session))
                    && told == (if event == Event::Flag(false) {
                    seq![
                        Remark {
                            name: Some(&session.name),
                            uuid: Some(&session.copilot_uuid),
                            ..bare(Topic::StillPresent)
                        },
                    ]
                } else {
                    Seq::empty()
                }) + backend_trouble(&session),
                (Effect::StopAndCache { name: codespace, .. }, Event::Failed(f)) => resolved_before(
                    effects,
                    events,
                    k,
                ) matches Event::Row(Some(session)) && told == seq![
                    Remark {
                        name: Some(&session.name),
                        uuid: Some(&session.copilot_uuid),
                        codespace: Some(&codespace),
                        error: Some(&f),
                        ..bare(Topic::NotStopped)
                    },
                ],
                _ => told.len() == 0,
            }
        }),
{
    stopping_remembers(names, states, effects, events, k);
    if k > 0 {
        assert(states[k - 1].leads_to(events[k - 1], states[k], effects[k]));
        stopping_remembers(names, states, effects, events, k - 1);
    }
}

// ── Removing one session ────────────────────────────────────────────────────

/// The worktree of the session needs no removal at place `k`: it was just asked for, the session
/// is removed already, or its directory is not under the data directory.
pub open spec fn worktree_is_settled(
    effects: Seq<Effect>,
    k: int,
    session: Model,
    csm_dir: String,
) -> bool {
    ||| k > 0 && effects[k - 1] is RemoveWorktree
    ||| session.status@ == STATUS_REMOVED@ && k == 0
    ||| !lies_under(session.worktree_path@, csm_dir@) && (k == 0 || k == 1 && effects[0]
        is StopZellij)
}

proof fn removing_remembers(
    session: Model,
    csm_dir: String,
    live: bool,
    force: bool,
    states: Seq<RemoveOneFlow>,
    effects: Seq<Effect>,
    events: Seq<Event>,
    k: int,
)
    requires
        is_run(states, effects, events),
        (states[0], effects[0]) == remove_one_begin(session, csm_dir, live, force),
        0 <= k < effects.len(),
    ensures
        match states[k] {
            RemoveOneFlow::Zellij { session: s, csm_dir: c, force: f } => k == 0 && s == session && c
                == csm_dir && f == force && effects[k] is StopZellij && session.status@
                != STATUS_REMOVED@,
            RemoveOneFlow::Worktree { session: s, force: f } => s == session && f == force
                && effects[k] is RemoveWorktree && session.backend@ == BACKEND_LOCAL@
                && session.status@ != STATUS_REMOVED@,
            RemoveOneFlow::Delete { session: s } => s == session && force && effects[k]
                is DeleteIfExists && session.backend@ == BACKEND_CODESPACE@,
            RemoveOneFlow::Stop { session: s } => s == session && !force && effects[k]
                is StopAndCache && session.backend@ == BACKEND_CODESPACE@ && session.status@
                != STATUS_REMOVED@,
            RemoveOneFlow::Branch { name, uuid } => force && name == session.name && uuid
                == session.copilot_uuid && effects[k] is DeleteBranch,
            RemoveOneFlow::Files { name, uuid } => force && name == session.name && uuid
                == session.copilot_uuid && effects[k] is CleanupFiles,
            RemoveOneFlow::Record { name, uuid } => force && name == session.name && uuid
                == session.copilot_uuid && effects[k] is DeleteSession,
            RemoveOneFlow::Mark { name, uuid } => !force && name == session.name && uuid
                == session.copilot_uuid && effects[k] is Update,
            RemoveOneFlow::Report => effects[k] is Report,
            RemoveOneFlow::Over => effects[k] is Finish,
        },
    decreases k,
{
    reveal_strlit("local");
    reveal_strlit("codespace");
    assert("local"@.len() == 5 && "codespace"@.len() == 9);
    if k > 0 {
        removing_remembers(session, csm_dir, live, force, states, effects, events, k - 1);
        assert(states[k - 1].leads_to(events[k - 1], states[k], effects[k]));
        assert(effects[k - 1] !is Finish);
    }
}

/// What the removal of a session asks for. A session that is removed already is only reported,
/// unless it is to be destroyed. Otherwise its zellij session is stopped if it has one; the
/// worktree of a local session is removed exactly if it lies under the data directory; the
/// Codespace of a Codespace session is stopped, or deleted if the session is destroyed. To destroy
/// a session then deletes its branch if it has one, its files and its record; else it is stored as
/// removed, and as stopped if it has a Codespace. The session is reported as what became of it.
pub proof fn session_is_removed(
    session: Model,
    csm_dir: String,
    live: bool,
    force: bool,
    states: Seq<RemoveOneFlow>,
    effects: Seq<Effect>,
    events: Seq<Event>,
    k: int,
)
    requires
        is_run(states, effects, events),
        (states[0], effects[0]) == remove_one_begin(session, csm_dir, live, force),
        0 <= k < effects.len(),
    ensures
        live && session.status@ != STATUS_REMOVED@ ==> effects[0] is StopZellij || effects[0]
            is Finish,
        match effects[k] {
            Effect::StopZellij { uuid } => k == 0 && live && session.status@ != STATUS_REMOVED@
                && uuid == session.copilot_uuid,
            Effect::RemoveWorktree { repo, dir } => {
                &&& session.backend@ == BACKEND_LOCAL@ && session.status@ != STATUS_REMOVED@
                &&& lies_under(session.worktree_path@, csm_dir@)
                &&& repo == session.source_repo && dir == Dir::At(session.worktree_path)
                &&& k == 0 || k == 1 && effects[0] is StopZellij
            },
            Effect::DeleteIfExists { name, github_login } => {
                &&& force && session.backend@ == BACKEND_CODESPACE@
                &&& session.codespace_name == Some(name)
                &&& session.github_login == Some(github_login)
                &&& k == 0 || k == 1 && effects[0] is StopZellij
            },
            Effect::StopAndCache { name, github_login, uuid } => {
                &&& !force && session.backend@ == BACKEND_CODESPACE@ && session.status@
                    != STATUS_REMOVED@
                &&& session.codespace_name == Some(name)
                &&& session.github_login == Some(github_login)
                &&& uuid == session.copilot_uuid
                &&& k == 0 || k == 1 && effects[0] is StopZellij
            },
            Effect::DeleteBranch { repo, branch } => {
                &&& force && session.backend@ == BACKEND_LOCAL@ && session.branch@.len() > 0
                &&& repo == session.source_repo && branch == session.branch
                &&& worktree_is_settled(effects, k, session, csm_dir)
            },
            Effect::CleanupFiles { uuid } => {
                &&& force && uuid == session.copilot_uuid
                &&& if session.backend@ == BACKEND_LOCAL@ {
                    if session.branch@.len() > 0 {
                        k > 0 && effects[k - 1] is DeleteBranch
                    } else {
                        worktree_is_settled(effects, k, session, csm_dir)
                    }
                } else {
                    k > 0 && effects[k - 1] is DeleteIfExists && events[k - 1] == Event::Done
                }
            },
            Effect::DeleteSession { uuid } => uuid == session.copilot_uuid && k > 0 && effects[k - 1]
                is CleanupFiles,
            Effect::Update { row, change } => {
                &&& !force && row == session && session.status@ != STATUS_REMOVED@
                &&& match change {
                    RowChange::Remove => session.backend@ == BACKEND_LOCAL@ && worktree_is_settled(
                        effects,
                        k,
                        session,
                        csm_dir,
                    ),
                    RowChange::RemoveStopped => k > 0 && effects[k - 1] is StopAndCache && events[k
                        - 1] == Event::Done,
                    _ => false,
                }
            },
            Effect::Report(notice) => match notice {
                Notice::Destroyed { name, uuid } => name == session.name && uuid
                    == session.copilot_uuid && k > 0 && effects[k - 1] is DeleteSession && events[k
                    - 1] == Event::Done,
                Notice::Removed { name, uuid } => name == session.name && uuid
                    == session.copilot_uuid && k > 0 && effects[k - 1] is Update && events[k - 1]
                    == Event::Done,
                Notice::AlreadyRemoved { name, uuid } => name == session.name && uuid
                    == session.copilot_uuid && k == 0 && !force && session.status@
                    == STATUS_REMOVED@,
                _ => false,
            },
            Effect::Finish(Event::Done) => k > 0 && effects[k - 1] is Report,
            Effect::Finish(Event::Failed(f)) => {
                ||| k == 0 && session.backend@ == BACKEND_CODESPACE@ && (details_of(session)
                    matches Err(g) && g == f)
                ||| k <= 1 && f == (Failure::UnknownBackend {
                    name: session.name,
                    backend: session.backend,
                }) && session.backend@ != BACKEND_LOCAL@ && session.backend@ != BACKEND_CODESPACE@
                ||| just_failed(events, k, f) && (effects[k - 1] is DeleteIfExists || effects[k - 1]
                    is StopAndCache || effects[k - 1] is DeleteSession || effects[k - 1] is Update)
                ||| f == Failure::UnexpectedReply && misanswered(effects, events, k)
            },
            _ => false,
        },
{
    reveal_strlit("local");
    reveal_strlit("codespace");
    assert("local"@.len() == 5 && "codespace"@.len() == 9);
    removing_remembers(session, csm_dir, live, force, states, effects, events, k);
    if k > 0 {
        removing_remembers(session, csm_dir, live, force, states, effects, events, k - 1);
        assert(states[k - 1].leads_to(events[k - 1], states[k], effects[k]));
        assert(effects[k - 1] !is Finish);
        removing_remembers(session, csm_dir, live, force, states, effects, events, 0);
    }
}

/// The user is warned exactly of what a removal leaves behind and goes on without: a zellij session
/// that did not end, a worktree and a branch that could not be removed, with the reason.
pub proof fn removal_tells_what_stays(
    session: Model,
    csm_dir: String,
    live: bool,
    force: bool,
    states: Seq<RemoveOneFlow>,
    effects: Seq<Effect>,
    events: Seq<Event>,
    k: int,
)
    requires
        is_run(states, effects, events),
        (states[0], effects[0]) == remove_one_begin(session, csm_dir, live, force),
        0 <= k < events.len(),
    ensures
        ({
            let told = states[k].told(&events[k]);
            let plain = |topic: Topic| Remark {
                name: Some(&session.name),
                uuid: Some(&session.copilot_uuid),
                ..bare(topic)
            };
            match (effects[k], events[k]) {
                (Effect::StopZellij { .. }, Event::Flag(false)) => told == seq![
                    plain(Topic::StillThere),
                ],
                (Effect::RemoveWorktree { .. }, Event::Failed(f)) => told == seq![
                    Remark { error: Some(&f), ..plain(Topic::WorktreeStays) },
                ],
                (Effect::DeleteBranch { .. }, Event::Failed(f)) => told == seq![
                    Remark { error: Some(&f), ..plain(Topic::BranchStays) },
                ],
                _ => told.len() == 0,
            }
        }),
{
    removing_remembers(session, csm_dir, live, force, states, effects, events, k);
}

// ── Removing several sessions ───────────────────────────────────────────────

/// A session is idle for a number of days exactly if its last use is at least as many times
/// twenty-four hours ago.
pub proof fn days_have_twenty_four_hours(session: Model, days: u64, at: Moment)
    requires
        days >= 1,
    ensures
        idle_for(session, days, at) <==> (age(session.last_used_at@, at) matches Some(secs) && secs
            >= days * 86_400),
{
    match age(session.last_used_at@, at) {
        Some(secs) => {
            if secs >= 0 {
                assert(secs as int / 86_400 >= days <==> secs >= days * 86_400)
                    by (nonlinear_arith)
                    requires
                        secs >= 0,
                        days >= 1,
                ;
            } else {
                assert((-secs) / 86_400 >= 0);
            }
        },
        None => {},
    }
}

/// The names of the sessions to remove: those that were given, or those that were picked.
pub open spec fn are_wanted(
    names: Seq<String>,
    interactive: bool,
    events: Seq<Event>,
    wanted: Seq<String>,
) -> bool {
    if interactive {
        events.len() > 1 && (events[1] matches Event::Picked(Some(picked)) && picked@ == wanted)
    } else {
        wanted == names
    }
}

/// The answer in place `j` shows that the session is to be removed: it is the one that was
/// looked for, or it is stored and was idle for as many days as were given.
pub open spec fn is_doomed(
    effects: Seq<Effect>,
    events: Seq<Event>,
    j: int,
    older_than: Option<u64>,
    session: Model,
) -> bool {
    ||| effects[j] is Resolve && events[j] == Event::Row(Some(session))
    ||| j > 0 && effects[j] is ActiveSessions && effects[j - 1] is Now && (events[j]
        matches Event::Rows(rows) && rows@.contains(session)) && (events[j - 1] matches Event::At(
        at,
    ) && (older_than matches Some(days) && idle_for(session, days, at)))
}

/// An answer before place `k` shows that the session is to be removed.
pub open spec fn has_reason(
    effects: Seq<Effect>,
    events: Seq<Event>,
    k: int,
    older_than: Option<u64>,
    session: Model,
) -> bool {
    exists|j: int| 0 <= j < k && #[trigger] is_doomed(effects, events, j, older_than, session)
}

/// Before place `k` a session with this name was removed, and that succeeded.
pub open spec fn was_removed(
    effects: Seq<Effect>,
    events: Seq<Event>,
    k: int,
    name: Seq<char>,
) -> bool {
    exists|j: int|
        0 <= j < k && (#[trigger] effects[j] matches Effect::RemoveOne { session, .. }
            && session.name@ == name) && events[j] == Event::Done
}

spec fn takes_all(
    effects: Seq<Effect>,
    events: Seq<Event>,
    k: int,
    older_than: Option<u64>,
    targets: Seq<Model>,
) -> bool {
    &&& forall|j: int, session: Model|
        0 <= j < k && #[trigger] is_doomed(effects, events, j, older_than, session) ==> names_of(
            targets,
        ).contains(session.name@)
    &&& forall|i: int|
        0 <= i < targets.len() ==> has_reason(effects, events, k, older_than, #[trigger] targets[i])
    &&& distinct_names(targets)
}

/// What a removal knows while it is being planned.
spec fn plans(
    names: Seq<String>,
    force: bool,
    interactive: bool,
    older_than: Option<u64>,
    effects: Seq<Effect>,
    events: Seq<Event>,
    k: int,
    plan: Plan,
) -> bool {
    &&& are_wanted(names, interactive, events, plan.names)
    &&& k > 1
    &&& interactive ==> k > 3
    &&& plan.force == force && plan.older_than == older_than
    &&& exists|zellij: State|
        plan.sessions == zellij@ && #[trigger] answered(
            effects,
            events,
            k,
            Effect::QueryZellij,
            Event::Zellij(zellij),
        )
    &&& answered(effects, events, k, Effect::CsmDir, Event::Text(plan.csm_dir))
    &&& takes_all(effects, events, k, older_than, plan.targets)
}

spec fn all_gone(
    effects: Seq<Effect>,
    events: Seq<Event>,
    k: int,
    older_than: Option<u64>,
) -> bool {
    forall|j: int, session: Model|
        0 <= j < k && #[trigger] is_doomed(effects, events, j, older_than, session) ==> was_removed(
            effects,
            events,
            k,
            session.name@,
        )
}

proof fn later_reason(
    effects: Seq<Effect>,
    events: Seq<Event>,
    k: int,
    older_than: Option<u64>,
    session: Model,
)
    requires
        has_reason(effects, events, k, older_than, session),
    ensures
        has_reason(effects, events, k + 1, older_than, session),
{
    let j = choose|j: int|
        0 <= j < k && #[trigger] is_doomed(effects, events, j, older_than, session);
    assert(is_doomed(effects, events, j, older_than, session));
}

/// The plan after place `k`: with the session that was found there, the idle ones that were found
/// there, or nothing more.
proof fn later_targets(
    effects: Seq<Effect>,
    events: Seq<Event>,
    k: int,
    older_than: Option<u64>,
    targets: Seq<Model>,
    more: Seq<Model>,
)
    requires
        0 <= k,
        takes_all(effects, events, k, older_than, targets),
        match (effects[k], events[k]) {
            (Effect::Resolve { .. }, Event::Row(Some(session))) => more == with_target(
                targets,
                session,
            ),
            (Effect::ActiveSessions, Event::Rows(rows)) => {
                &&& k > 0 && effects[k - 1] is Now
                &&& events[k - 1] matches Event::At(at)
                &&& older_than matches Some(days)
                &&& more == with_idle(targets, rows@, days, at)
            },
            (Effect::ActiveSessions, _) => false,
            _ => more == targets,
        },
    ensures
        takes_all(effects, events, k + 1, older_than, more),
{
    match (effects[k], events[k]) {
        (Effect::Resolve { .. }, Event::Row(Some(session))) => {
            no_session_is_removed_twice(targets, session);
            assert(is_doomed(effects, events, k, older_than, session));
        },
        (Effect::ActiveSessions, Event::Rows(rows)) => {
            let at = events[k - 1]->At_0;
            let days = older_than->Some_0;
            idle_sessions_are_removed(targets, rows@, days, at);
            idle_keeps_targets(targets, rows@, days, at);
        },
        _ => {},
    }
    assert(more.len() >= targets.len() && more.take(targets.len() as int) =~= targets);
    assert forall|i: int| 0 <= i < more.len() implies has_reason(
        effects,
        events,
        k + 1,
        older_than,
        #[trigger] more[i],
    ) by {
        if i < targets.len() {
            assert(more.take(targets.len() as int)[i] == more[i]);
            assert(targets[i] == more[i]);
            later_reason(effects, events, k, older_than, targets[i]);
        } else {
            assert(is_doomed(effects, events, k, older_than, more[i]));
        }
    }
    assert forall|j: int, session: Model|
        0 <= j < k + 1 && #[trigger] is_doomed(
            effects,
            events,
            j,
            older_than,
            session,
        ) implies names_of(more).contains(session.name@) by {
        if j < k {
            let i = names_of(targets).index_of(session.name@);
            assert(names_of(targets)[i] == session.name@);
            assert(more.take(targets.len() as int)[i] == more[i]);
            assert(names_of(more)[i] == session.name@);
        } else {
            match (effects[k], events[k]) {
                (Effect::ActiveSessions, Event::Rows(rows)) => {
                    let i = rows@.index_of(session);
                    assert(rows@[i] == session);
                },
                _ => {},
            }
        }
    }
}

proof fn idle_keeps_targets(targets: Seq<Model>, rows: Seq<Model>, days: u64, at: Moment)
    requires
        distinct_names(targets),
    ensures
        with_idle(targets, rows, days, at).len() >= targets.len(),
        with_idle(targets, rows, days, at).take(targets.len() as int) == targets,
    decreases rows.len(),
{
    if rows.len() > 0 {
        let rest = rows.drop_last();
        idle_keeps_targets(targets, rest, days, at);
        idle_sessions_are_removed(targets, rest, days, at);
        let before = with_idle(targets, rest, days, at);
        no_session_is_removed_twice(before, rows.last());
        let all = with_idle(targets, rows, days, at);
        assert(all.take(before.len() as int).take(targets.len() as int) =~= all.take(
            targets.len() as int,
        ));
        assert(before.take(before.len() as int) =~= before);
    } else {
        assert(targets.take(targets.len() as int) =~= targets);
    }
}

proof fn later_work(
    effects: Seq<Effect>,
    events: Seq<Event>,
    k: int,
    plan: Plan,
)
    requires
        0 <= k,
        exists|zellij: State|
            plan.sessions == zellij@ && #[trigger] answered(
                effects,
                events,
                k,
                Effect::QueryZellij,
                Event::Zellij(zellij),
            ),
        answered(effects, events, k, Effect::CsmDir, Event::Text(plan.csm_dir)),
    ensures
        exists|zellij: State|
            plan.sessions == zellij@ && #[trigger] answered(
                effects,
                events,
                k + 1,
                Effect::QueryZellij,
                Event::Zellij(zellij),
            ),
        answered(effects, events, k + 1, Effect::CsmDir, Event::Text(plan.csm_dir)),
{
    let zellij = choose|zellij: State|
        plan.sessions == zellij@ && #[trigger] answered(
            effects,
            events,
            k,
            Effect::QueryZellij,
            Event::Zellij(zellij),
        );
    assert(answered(effects, events, k + 1, Effect::QueryZellij, Event::Zellij(zellij)));
}

proof fn later_removal(effects: Seq<Effect>, events: Seq<Event>, k: int, name: Seq<char>)
    requires
        was_removed(effects, events, k, name),
    ensures
        was_removed(effects, events, k + 1, name),
{
    let j = choose|j: int|
        0 <= j < k && (#[trigger] effects[j] matches Effect::RemoveOne { session, .. }
            && session.name@ == name) && events[j] == Event::Done;
    assert(effects[j] is RemoveOne);
}

/// Nothing before place `k` shows that a session is to be removed.
spec fn none_doomed(
    effects: Seq<Effect>,
    events: Seq<Event>,
    k: int,
) -> bool {
    forall|j: int| 0 <= j < k ==> #[trigger] effects[j] !is Resolve && effects[j] !is ActiveSessions
}

/// The removal of the session in the place of the plan.
spec fn removal_of(plan: Plan) -> Effect {
    let session = plan.targets[plan.at];
    Effect::RemoveOne {
        session,
        csm_dir: plan.csm_dir,
        live: zellij_runs(plan.sessions, session.copilot_uuid@) || zellij_listed(
            plan.sessions,
            session.copilot_uuid@,
        ),
        force: plan.force,
    }
}

spec fn gathers(
    names: Seq<String>,
    force: bool,
    interactive: bool,
    older_than: Option<u64>,
    state: RmFlow,
    effects: Seq<Effect>,
    events: Seq<Event>,
    k: int,
) -> bool {
    match state {
        RmFlow::Candidates { force: f, older_than: o } => k == 0 && interactive && f == force && o
            == older_than && effects[k] is Candidates,
        RmFlow::Pick { force: f, older_than: o } => k == 1 && interactive && f == force && o
            == older_than && effects[k] is Pick && effects[0] is Candidates,
        RmFlow::Query { names: n, force: f, older_than: o } => {
            &&& effects[k] is QueryZellij && f == force && o == older_than
            &&& are_wanted(names, interactive, events, n@)
            &&& k == (if interactive {
                2int
            } else {
                0
            })
            &&& none_doomed(effects, events, k)
        },
        RmFlow::CsmDir { names: n, sessions, force: f, older_than: o } => {
            &&& effects[k] is CsmDir && f == force && o == older_than
            &&& are_wanted(names, interactive, events, n@)
            &&& k == (if interactive {
                3int
            } else {
                1
            })
            &&& just_answered(effects, events, k, Effect::QueryZellij, Event::Zellij(sessions))
            &&& none_doomed(effects, events, k)
        },
        RmFlow::Resolve(removal) => {
            &&& plans(names, force, interactive, older_than, effects, events, k, removal@)
            &&& 0 <= removal@.at < removal@.names.len()
            &&& effects[k] == (Effect::Resolve { query: removal@.names[removal@.at] })
            &&& removal@.at == turns(effects, k)
        },
        RmFlow::Clock(removal) => {
            &&& plans(names, force, interactive, older_than, effects, events, k, removal@)
            &&& effects[k] is Now
            &&& older_than is Some
            &&& turns(effects, k) == removal@.names.len()
        },
        RmFlow::Idle { removal, days, at } => {
            &&& plans(names, force, interactive, older_than, effects, events, k, removal@)
            &&& effects[k] is ActiveSessions
            &&& older_than == Some(days)
            &&& just_answered(effects, events, k, Effect::Now, Event::At(at))
            &&& turns(effects, k) == removal@.names.len()
        },
        RmFlow::NoMatch => {
            &&& effects[k] == Effect::Report(Notice::NoMatch)
            &&& forall|session: Model|
                !#[trigger] has_reason(effects, events, k, older_than, session)
            &&& all_gone(effects, events, k, older_than)
            &&& is_complete(names, interactive, older_than, effects, events, k)
        },
        RmFlow::Remove(removal) => {
            &&& plans(names, force, interactive, older_than, effects, events, k, removal@)
            &&& 0 <= removal@.at < removal@.targets.len()
            &&& effects[k] == removal_of(removal@)
            &&& forall|i: int|
                0 <= i < removal@.at ==> was_removed(
                    effects,
                    events,
                    k,
                    (#[trigger] removal@.targets[i]).name@,
                )
            &&& is_complete(names, interactive, older_than, effects, events, k)
        },
        RmFlow::Sweep => {
            &&& effects[k] is AllSessions
            &&& all_gone(effects, events, k, older_than)
            &&& is_complete(names, interactive, older_than, effects, events, k)
        },
        RmFlow::Prune => {
            &&& effects[k] is PruneOrphans
            &&& all_gone(effects, events, k, older_than)
            &&& is_complete(names, interactive, older_than, effects, events, k)
        },
        RmFlow::Report => {
            &&& effects[k] is Report
            &&& effects[k] == Effect::Report(Notice::NothingToRemove) && interactive && k == 1
                && effects[0] is Candidates || effects[k] == Effect::Report(
                Notice::RemovalCancelled,
            ) && interactive && k == 2 && events[1] == Event::Picked(None) || (effects[k]
                matches Effect::Report(Notice::Pruned { .. })) && all_gone(
                effects,
                events,
                k,
                older_than,
            ) && is_complete(names, interactive, older_than, effects, events, k)
        },
        RmFlow::Over => effects[k] is Finish,
    }
}

/// By place `k` every wanted name was looked for, and if a number of days was given, so were the
/// idle sessions.
pub open spec fn is_complete(
    names: Seq<String>,
    interactive: bool,
    older_than: Option<u64>,
    effects: Seq<Effect>,
    events: Seq<Event>,
    k: int,
) -> bool {
    &&& exists|wanted: Seq<String>| #[trigger]
        are_wanted(names, interactive, events, wanted) && turns(effects, k) == wanted.len()
    &&& older_than is Some ==> exists|j: int| 0 < j < k && #[trigger] effects[j] is ActiveSessions
}

proof fn removal_goes_on(
    names: Seq<String>,
    force: bool,
    interactive: bool,
    older_than: Option<u64>,
    next: RmFlow,
    effects: Seq<Effect>,
    events: Seq<Event>,
    k: int,
    plan: Plan,
)
    requires
        0 < k,
        plans(names, force, interactive, older_than, effects, events, k, plan),
        is_removing(next, effects[k], plan),
        0 <= plan.at <= plan.targets.len(),
        forall|i: int|
            0 <= i < plan.at ==> was_removed(
                effects,
                events,
                k,
                (#[trigger] plan.targets[i]).name@,
            ),
        is_complete(names, interactive, older_than, effects, events, k),
    ensures
        gathers(names, force, interactive, older_than, next, effects, events, k),
{
    if plan.at == plan.targets.len() {
        assert forall|j: int, session: Model|
            0 <= j < k && #[trigger] is_doomed(
                effects,
                events,
                j,
                older_than,
                session,
            ) implies was_removed(effects, events, k, session.name@) by {
            let i = names_of(plan.targets).index_of(session.name@);
            assert(names_of(plan.targets)[i] == session.name@);
            assert(plan.targets[i].name@ == session.name@);
        }
    }
}

proof fn gathering_ends(
    names: Seq<String>,
    force: bool,
    interactive: bool,
    older_than: Option<u64>,
    next: RmFlow,
    effects: Seq<Effect>,
    events: Seq<Event>,
    k: int,
    plan: Plan,
)
    requires
        0 < k,
        plans(names, force, interactive, older_than, effects, events, k, plan),
        is_gathered(next, effects[k], plan),
        turns(effects, k) == plan.names.len(),
        older_than is Some ==> exists|j: int| 0 < j < k && #[trigger] effects[j] is ActiveSessions,
    ensures
        gathers(names, force, interactive, older_than, next, effects, events, k),
{
    assert(are_wanted(names, interactive, events, plan.names));
    assert(is_complete(names, interactive, older_than, effects, events, k));
    if plan.targets.len() > 0 {
        let first = Plan { at: 0, ..plan };
        assert(plans(names, force, interactive, older_than, effects, events, k, first));
        removal_goes_on(
            names,
            force,
            interactive,
            older_than,
            next,
            effects,
            events,
            k,
            first,
        );
    } else {
        assert forall|j: int, session: Model|
            0 <= j < k && #[trigger] is_doomed(
                effects,
                events,
                j,
                older_than,
                session,
            ) implies was_removed(effects, events, k, session.name@) by {
            assert(names_of(plan.targets).len() == 0);
        }
        assert forall|session: Model| !#[trigger] has_reason(
            effects,
            events,
            k,
            older_than,
            session,
        ) by {
            assert(names_of(plan.targets).len() == 0);
        }
    }
}

proof fn gathering_goes_on(
    names: Seq<String>,
    force: bool,
    interactive: bool,
    older_than: Option<u64>,
    next: RmFlow,
    effects: Seq<Effect>,
    events: Seq<Event>,
    k: int,
    plan: Plan,
)
    requires
        0 < k,
        plans(names, force, interactive, older_than, effects, events, k, plan),
        is_gathering(next, effects[k], plan),
        0 <= plan.at <= plan.names.len(),
        turns(effects, k) == plan.at,
    ensures
        gathers(names, force, interactive, older_than, next, effects, events, k),
{
    if plan.at == plan.names.len() && older_than is None {
        gathering_ends(
            names,
            force,
            interactive,
            older_than,
            next,
            effects,
            events,
            k,
            plan,
        );
    }
}

#[verifier::rlimit(40)]
#[verifier::spinoff_prover]
proof fn removal_remembers(
    names: Vec<String>,
    force: bool,
    interactive: bool,
    older_than: Option<u64>,
    states: Seq<RmFlow>,
    effects: Seq<Effect>,
    events: Seq<Event>,
    k: int,
)
    requires
        is_run(states, effects, events),
        (states[0], effects[0]) == rm_begin(names, force, interactive, older_than),
        0 <= k < effects.len(),
    ensures
        gathers(names@, force, interactive, older_than, states[k], effects, events, k),
    decreases k,
{
    if k > 0 {
        removal_remembers(names, force, interactive, older_than, states, effects, events, k - 1);
        assert(states[k - 1].leads_to(events[k - 1], states[k], effects[k]));
        assert(effects[k - 1] !is Finish);
        let next = states[k];
        match (states[k - 1], events[k - 1]) {
            (RmFlow::CsmDir { names: n, sessions, force: f, older_than: o }, Event::Text(csm_dir)) => {
                let plan = Plan {
                    names: n@,
                    at: 0,
                    targets: Seq::empty(),
                    sessions: sessions@,
                    csm_dir,
                    force,
                    older_than,
                };
                assert(answered(
                    effects,
                    events,
                    k,
                    Effect::QueryZellij,
                    Event::Zellij(sessions),
                )) by {
                    assert(effects[k - 2] == Effect::QueryZellij);
                }
                assert(answered(effects, events, k, Effect::CsmDir, Event::Text(csm_dir)));
                assert(none_doomed(effects, events, k));
                no_turns(effects, events, k);
                assert(plans(
                    names@,
                    force,
                    interactive,
                    older_than,
                    effects,
                    events,
                    k,
                    plan,
                ));
                gathering_goes_on(
                    names@,
                    force,
                    interactive,
                    older_than,
                    next,
                    effects,
                    events,
                    k,
                    plan,
                );
            },
            (RmFlow::Resolve(removal), Event::Row(Some(session))) => {
                let plan = Plan {
                    at: removal@.at + 1,
                    targets: with_target(removal@.targets, session),
                    ..removal@
                };
                later_targets(
                    effects,
                    events,
                    k - 1,
                    older_than,
                    removal@.targets,
                    plan.targets,
                );
                later_work(effects, events, k - 1, removal@);
                gathering_goes_on(
                    names@,
                    force,
                    interactive,
                    older_than,
                    next,
                    effects,
                    events,
                    k,
                    plan,
                );
            },
            (RmFlow::Resolve(removal), Event::Failed(_)) => {
                let plan = Plan { at: removal@.at + 1, ..removal@ };
                later_targets(
                    effects,
                    events,
                    k - 1,
                    older_than,
                    removal@.targets,
                    plan.targets,
                );
                later_work(effects, events, k - 1, removal@);
                gathering_goes_on(
                    names@,
                    force,
                    interactive,
                    older_than,
                    next,
                    effects,
                    events,
                    k,
                    plan,
                );
            },
            (RmFlow::Clock(removal), _) => {
                later_targets(
                    effects,
                    events,
                    k - 1,
                    older_than,
                    removal@.targets,
                    removal@.targets,
                );
                later_work(effects, events, k - 1, removal@);
            },
            (RmFlow::Idle { removal, days, at }, Event::Rows(rows)) => {
                if at.valid() {
                    let plan = Plan {
                        targets: with_idle(removal@.targets, rows@, days, at),
                        ..removal@
                    };
                    later_targets(
                        effects,
                        events,
                        k - 1,
                        older_than,
                        removal@.targets,
                        plan.targets,
                    );
                    later_work(effects, events, k - 1, removal@);
                    assert(effects[k - 1] is ActiveSessions);
                    gathering_ends(
                        names@,
                        force,
                        interactive,
                        older_than,
                        next,
                        effects,
                        events,
                        k,
                        plan,
                    );
                }
            },
            (RmFlow::Remove(removal), Event::Done) => {
                let plan = Plan { at: removal@.at + 1, ..removal@ };
                later_targets(
                    effects,
                    events,
                    k - 1,
                    older_than,
                    removal@.targets,
                    plan.targets,
                );
                later_work(effects, events, k - 1, removal@);
                still_complete(names@, interactive, older_than, effects, events, k - 1);
                assert forall|i: int| 0 <= i < plan.at implies was_removed(
                    effects,
                    events,
                    k,
                    (#[trigger] plan.targets[i]).name@,
                ) by {
                    if i < removal@.at {
                        later_removal(effects, events, k - 1, plan.targets[i].name@);
                    } else {
                        assert(effects[k - 1] is RemoveOne);
                    }
                }
                removal_goes_on(
                    names@,
                    force,
                    interactive,
                    older_than,
                    next,
                    effects,
                    events,
                    k,
                    plan,
                );
            },
            (RmFlow::NoMatch, _) | (RmFlow::Sweep, _) | (RmFlow::Prune, _) => {
                still_complete(names@, interactive, older_than, effects, events, k - 1);
                assert forall|j: int, session: Model|
                    0 <= j < k && #[trigger] is_doomed(
                        effects,
                        events,
                        j,
                        older_than,
                        session,
                    ) implies was_removed(effects, events, k, session.name@) by {
                    if j < k - 1 {
                        later_removal(effects, events, k - 1, session.name@);
                    }
                }
            },
            _ => {},
        }
    }
}

proof fn no_turns(effects: Seq<Effect>, events: Seq<Event>, k: int)
    requires
        none_doomed(effects, events, k),
    ensures
        turns(effects, k) == 0,
    decreases k,
{
    if k > 0 {
        assert(effects[k - 1] !is Resolve);
        no_turns(effects, events, k - 1);
    }
}

proof fn still_complete(
    names: Seq<String>,
    interactive: bool,
    older_than: Option<u64>,
    effects: Seq<Effect>,
    events: Seq<Event>,
    k: int,
)
    requires
        0 <= k,
        is_complete(names, interactive, older_than, effects, events, k),
        effects[k] !is Resolve,
    ensures
        is_complete(names, interactive, older_than, effects, events, k + 1),
{
    let wanted = choose|wanted: Seq<String>| #[trigger]
        are_wanted(names, interactive, events, wanted) && turns(effects, k) == wanted.len();
    assert(are_wanted(names, interactive, events, wanted));
    assert(turns(effects, k + 1) == turns(effects, k));
}

/// When a removal ends well, every session that was to be removed was removed, under its name:
/// each one that was found for a name, and each one that was seen to be idle.
pub proof fn every_doomed_session_is_removed(
    names: Vec<String>,
    force: bool,
    interactive: bool,
    older_than: Option<u64>,
    states: Seq<RmFlow>,
    effects: Seq<Effect>,
    events: Seq<Event>,
    k: int,
    j: int,
    session: Model,
)
    requires
        is_run(states, effects, events),
        (states[0], effects[0]) == rm_begin(names, force, interactive, older_than),
        0 <= j < k < effects.len(),
        effects[k] == Effect::Finish(Event::Done),
        is_doomed(effects, events, j, older_than, session),
    ensures
        was_removed(effects, events, k, session.name@),
{
    removal_remembers(names, force, interactive, older_than, states, effects, events, k - 1);
    assert(states[k - 1].leads_to(events[k - 1], states[k], effects[k]));
    assert(effects[k - 1] !is Finish);
    if j < k - 1 {
        if effects[k - 1] == Effect::Report(Notice::RemovalCancelled) {
            removal_remembers(names, force, interactive, older_than, states, effects, events, 1);
            removal_remembers(names, force, interactive, older_than, states, effects, events, 0);
            assert(states[0].leads_to(events[0], states[1], effects[1]));
        } else if effects[k - 1] != Effect::Report(Notice::NothingToRemove) {
            later_removal(effects, events, k - 1, session.name@);
        }
    }
}

proof fn removal_is_due(
    names: Seq<String>,
    force: bool,
    interactive: bool,
    older_than: Option<u64>,
    effects: Seq<Effect>,
    events: Seq<Event>,
    k: int,
    plan: Plan,
)
    requires
        plans(names, force, interactive, older_than, effects, events, k, plan),
        0 <= plan.at < plan.targets.len(),
        effects[k] == removal_of(plan),
    ensures
        effects[k] matches Effect::RemoveOne { session, csm_dir, live, force: f } && f == force
            && has_reason(effects, events, k, older_than, session) && answered(
            effects,
            events,
            k,
            Effect::CsmDir,
            Event::Text(csm_dir),
        ) && exists|zellij: State| #[trigger]
            answered(effects, events, k, Effect::QueryZellij, Event::Zellij(zellij)) && live == (
            zellij_runs(zellij@, session.copilot_uuid@) || zellij_listed(
                zellij@,
                session.copilot_uuid@,
            )),
{
    let zellij = choose|zellij: State|
        plan.sessions == zellij@ && #[trigger] answered(
            effects,
            events,
            k,
            Effect::QueryZellij,
            Event::Zellij(zellij),
        );
    assert(answered(effects, events, k, Effect::QueryZellij, Event::Zellij(zellij)));
}

proof fn removal_keeps_order(
    names: Vec<String>,
    force: bool,
    interactive: bool,
    older_than: Option<u64>,
    states: Seq<RmFlow>,
    effects: Seq<Effect>,
    events: Seq<Event>,
    k: int,
)
    requires
        is_run(states, effects, events),
        (states[0], effects[0]) == rm_begin(names, force, interactive, older_than),
        0 <= k < effects.len(),
    ensures
        match states[k] {
            RmFlow::Candidates { force: f, .. } => k == 0 && interactive && f == force && effects[k]
                is Candidates,
            RmFlow::Pick { .. } => k == 1 && interactive && effects[k] is Pick,
            RmFlow::Query { .. } => effects[k] is QueryZellij && (interactive && k == 2
                || !interactive && k == 0),
            RmFlow::CsmDir { .. } => effects[k] is CsmDir,
            RmFlow::Resolve(_) => effects[k] is Resolve,
            RmFlow::Clock(removal) => effects[k] is Now && removal@.older_than is Some,
            RmFlow::Idle { at, .. } => effects[k] is ActiveSessions && at.valid(),
            RmFlow::NoMatch => effects[k] == Effect::Report(Notice::NoMatch),
            RmFlow::Remove(_) => effects[k] is RemoveOne,
            RmFlow::Sweep => effects[k] is AllSessions,
            RmFlow::Prune => effects[k] is PruneOrphans,
            RmFlow::Report => effects[k] is Report && effects[k] != Effect::Report(Notice::NoMatch),
            RmFlow::Over => effects[k] is Finish,
        },
    decreases k,
{
    if k > 0 {
        removal_keeps_order(names, force, interactive, older_than, states, effects, events, k - 1);
        assert(states[k - 1].leads_to(events[k - 1], states[k], effects[k]));
        assert(effects[k - 1] !is Finish);
    }
}

/// In which order `remove` asks for its work. With `-i` the user picks from the candidates; if
/// there are none, or the user cancels, that is reported and nothing else is done. Then come the
/// zellij sessions, the data directory, the names, the time and the idle sessions, the removals,
/// each after the one before it succeeded, and at last all sessions, so that the files that belong
/// to none of them are deleted; how many they were is reported if there were any.
pub proof fn remove_keeps_its_order(
    names: Vec<String>,
    force: bool,
    interactive: bool,
    older_than: Option<u64>,
    states: Seq<RmFlow>,
    effects: Seq<Effect>,
    events: Seq<Event>,
    k: int,
)
    requires
        is_run(states, effects, events),
        (states[0], effects[0]) == rm_begin(names, force, interactive, older_than),
        0 <= k < effects.len(),
    ensures
        match effects[k] {
            Effect::Candidates => k == 0 && interactive,
            Effect::Pick { items, force: f } => k == 1 && interactive && f == force && items@.len()
                > 0 && events[0] == Event::Items(items),
            Effect::QueryZellij => if interactive {
                k == 2 && (events[1] matches Event::Picked(Some(_)))
            } else {
                k == 0 && (names@.len() > 0 || older_than is Some)
            },
            Effect::CsmDir => k > 0 && effects[k - 1] is QueryZellij && events[k - 1] is Zellij,
            Effect::Resolve { .. } => k > 0 && (effects[k - 1] is CsmDir || effects[k - 1]
                is Resolve),
            Effect::Now => k > 0 && (effects[k - 1] is CsmDir || effects[k - 1] is Resolve),
            Effect::ActiveSessions => k > 0 && effects[k - 1] is Now && (events[k - 1]
                matches Event::At(at) && at.valid()),
            Effect::RemoveOne { .. } => k > 0 && (effects[k - 1] is RemoveOne ==> events[k - 1]
                == Event::Done),
            Effect::AllSessions => k > 0 && (effects[k - 1] is RemoveOne && events[k - 1]
                == Event::Done || effects[k - 1] == Effect::Report(Notice::NoMatch)),
            Effect::PruneOrphans { known } => k > 0 && effects[k - 1] is AllSessions && events[k - 1]
                == Event::Rows(known),
            Effect::Report(notice) => match notice {
                Notice::NothingToRemove => k == 1 && interactive && (events[0] matches Event::Items(
                    items,
                ) && items@.len() == 0),
                Notice::RemovalCancelled => k == 2 && interactive && events[1] == Event::Picked(
                    None,
                ),
                Notice::NoMatch => k > 0,
                Notice::Pruned { count } => count > 0 && k > 0 && effects[k - 1] is PruneOrphans
                    && events[k - 1] == Event::Count(count),
                _ => false,
            },
            Effect::Finish(Event::Done) => k > 0 && (effects[k - 1] is PruneOrphans && events[k - 1]
                == Event::Count(0) || effects[k - 1] is Report && effects[k - 1] != Effect::Report(
                Notice::NoMatch,
            )),
            Effect::Finish(Event::Failed(f)) => {
                ||| k == 0 && !interactive && names@.len() == 0 && older_than is None && f
                    == Failure::NothingSpecified
                ||| just_failed(events, k, f) && effects[k - 1] !is Resolve && effects[k - 1]
                    !is Report
                ||| f == Failure::UnexpectedReply && misanswered(effects, events, k)
            },
            _ => false,
        },
{
    removal_keeps_order(names, force, interactive, older_than, states, effects, events, k);
    if k > 0 {
        removal_keeps_order(names, force, interactive, older_than, states, effects, events, k - 1);
        assert(states[k - 1].leads_to(events[k - 1], states[k], effects[k]));
        assert(effects[k - 1] !is Finish);
    }
}

/// What `remove` looks for and removes. Every wanted name is looked for once, in order; then, if a
/// number of days was given, the time is asked for. Only a session that was found for a name or
/// seen to be idle is removed, after all were gathered, with the data directory that was found,
/// with `force` exactly if that was given, and as live exactly if its zellij session ran or was
/// listed at the start. That there is nothing to remove is reported only if nothing was found.
pub proof fn remove_deals_with_each_session(
    names: Vec<String>,
    force: bool,
    interactive: bool,
    older_than: Option<u64>,
    states: Seq<RmFlow>,
    effects: Seq<Effect>,
    events: Seq<Event>,
    k: int,
)
    requires
        is_run(states, effects, events),
        (states[0], effects[0]) == rm_begin(names, force, interactive, older_than),
        0 <= k < effects.len(),
    ensures
        match effects[k] {
            Effect::Resolve { query } => exists|wanted: Seq<String>| #[trigger]
                are_wanted(names@, interactive, events, wanted) && turns(effects, k) < wanted.len()
                    && query == wanted[turns(effects, k) as int],
            Effect::Now => older_than is Some && exists|wanted: Seq<String>| #[trigger]
                are_wanted(names@, interactive, events, wanted) && turns(effects, k)
                    == wanted.len(),
            Effect::RemoveOne { session, csm_dir, live, force: f } => {
                &&& f == force
                &&& has_reason(effects, events, k, older_than, session)
                &&& is_complete(names@, interactive, older_than, effects, events, k)
                &&& answered(effects, events, k, Effect::CsmDir, Event::Text(csm_dir))
                &&& exists|zellij: State| #[trigger]
                    answered(effects, events, k, Effect::QueryZellij, Event::Zellij(zellij)) && live
                        == (zellij_runs(zellij@, session.copilot_uuid@) || zellij_listed(
                        zellij@,
                        session.copilot_uuid@,
                    ))
            },
            Effect::AllSessions => is_complete(
                names@,
                interactive,
                older_than,
                effects,
                events,
                k,
            ),
            Effect::Report(Notice::NoMatch) => is_complete(
                names@,
                interactive,
                older_than,
                effects,
                events,
                k,
            ) && forall|session: Model|
                !#[trigger] has_reason(effects, events, k, older_than, session),
            _ => true,
        },
{
    removal_remembers(names, force, interactive, older_than, states, effects, events, k);
    match states[k] {
        RmFlow::Resolve(removal) => {
            assert(are_wanted(names@, interactive, events, removal@.names));
        },
        RmFlow::Clock(removal) => {
            assert(are_wanted(names@, interactive, events, removal@.names));
        },
        RmFlow::Remove(removal) => {
            removal_is_due(
                names@,
                force,
                interactive,
                older_than,
                effects,
                events,
                k,
                removal@,
            );
        },
        _ => {},
    }
}

} // verus!
