//! Laws of the zellij client, its sessions and their worktrees on this machine.

use vstd::prelude::*;

use crate::commands::local::{
    enter_local_zellij_begin, remove_worktree_begin, start_local_zellij_session_begin,
    stop_and_cleanup_begin, zellij_listed, zellij_runs, EnterLocalFlow, RemoveWorktreeFlow,
    StartLocalFlow, StopZellijFlow,
};
use crate::commands::RowChange;
use crate::failure::Failure;
use crate::flow::{is_run, Effect, Event, Flow};
use crate::git::{dir_text, Dir};
use crate::laws::history::{just_answered, just_failed, misanswered};
use crate::remark::{bare, Narrated, Remark, Topic};
use crate::zellij::LocalCommand;

verus! {

// ── Starting ────────────────────────────────────────────────────────────────

proof fn launching_remembers(
    session_name: String,
    uuid: String,
    dir: Dir,
    resume: bool,
    include_git: bool,
    states: Seq<StartLocalFlow>,
    effects: Seq<Effect>,
    events: Seq<Event>,
    k: int,
)
    requires
        is_run(states, effects, events),
        (states[0], effects[0]) == start_local_zellij_session_begin(
            session_name,
            uuid,
            dir,
            resume,
            include_git,
        ),
        0 <= k < effects.len(),
    ensures
        match states[k] {
            StartLocalFlow::Launcher { session_name: n, uuid: u, dir: d, resume: r, include_git: g } => {
                k == 0 && n == session_name && u == uuid && d == dir && r == resume && g
                    == include_git
            },
            StartLocalFlow::Layout { session_name: n, uuid: u, dir: d, resume: r } => {
                &&& k == 1 && n == session_name && u == uuid && d == dir && r == resume
                &&& effects[k] is WriteLayout
            },
            StartLocalFlow::Config { session_name: n, uuid: u, dir: d, resume: r, layout } => {
                &&& k == 2 && n == session_name && u == uuid && d == dir && r == resume
                &&& events[1] == Event::Text(layout)
                &&& effects[k] is WriteConfig
            },
            StartLocalFlow::Marker { session_name: n, uuid: u, dir: d, layout, config } => {
                &&& k == 3 && resume && n == session_name && u == uuid && d == dir
                &&& events[1] == Event::Text(layout)
                &&& events[2] == Event::Text(config)
                &&& effects[k] is WriteMarker
            },
            StartLocalFlow::Enter => effects[k] is EnterLocal,
            StartLocalFlow::Over => effects[k] is Finish,
        },
    decreases k,
{
    if k > 0 {
        launching_remembers(
            session_name,
            uuid,
            dir,
            resume,
            include_git,
            states,
            effects,
            events,
            k - 1,
        );
        assert(states[k - 1].leads_to(events[k - 1], states[k], effects[k]));
    }
}

/// What starting a local session asks for. A layout is written for the UUID, with a git tab as
/// was asked and with the launcher that was just written; then the configuration; then, to
/// resume, the marker. The zellij client is launched in the given directory with that layout and
/// that configuration. It ends well exactly if the client does.
pub proof fn session_is_launched_as_asked(
    session_name: String,
    uuid: String,
    dir: Dir,
    resume: bool,
    include_git: bool,
    states: Seq<StartLocalFlow>,
    effects: Seq<Effect>,
    events: Seq<Event>,
    k: int,
)
    requires
        is_run(states, effects, events),
        (states[0], effects[0]) == start_local_zellij_session_begin(
            session_name,
            uuid,
            dir,
            resume,
            include_git,
        ),
        0 <= k < effects.len(),
    ensures
        match effects[k] {
            Effect::WriteLauncher => k == 0,
            Effect::WriteLayout { uuid: u, launcher, include_git: g } => {
                &&& k == 1 && u == uuid && g == include_git
                &&& just_answered(effects, events, k, Effect::WriteLauncher, Event::Text(launcher))
            },
            Effect::WriteConfig => k == 2 && effects[1] is WriteLayout && events[1] is Text,
            Effect::WriteMarker { uuid: u } => k == 3 && resume && u == uuid && effects[2]
                is WriteConfig && events[2] is Text,
            Effect::EnterLocal { session_name: n, uuid: u, command } => {
                &&& n == session_name && u == uuid
                &&& command matches LocalCommand::Launch { config, layout, uuid: v, dir: d }
                &&& v == uuid && d == dir
                &&& events[1] == Event::Text(layout) && events[2] == Event::Text(config)
                &&& effects[1] is WriteLayout && effects[2] is WriteConfig
                &&& if resume {
                    k == 4 && just_answered(
                        effects,
                        events,
                        k,
                        Effect::WriteMarker { uuid },
                        Event::Done,
                    )
                } else {
                    k == 3
                }
            },
            Effect::Finish(Event::Done) => k > 0 && effects[k - 1] is EnterLocal && events[k - 1]
                == Event::Done,
            Effect::Finish(Event::Failed(f)) => just_failed(events, k, f) || f
                == Failure::UnexpectedReply && misanswered(effects, events, k),
            _ => false,
        },
{
    launching_remembers(session_name, uuid, dir, resume, include_git, states, effects, events, k);
    if k > 0 {
        launching_remembers(
            session_name,
            uuid,
            dir,
            resume,
            include_git,
            states,
            effects,
            events,
            k - 1,
        );
        assert(states[k - 1].leads_to(events[k - 1], states[k], effects[k]));
    }
    if k > 2 {
        launching_remembers(session_name, uuid, dir, resume, include_git, states, effects, events, 1);
        launching_remembers(session_name, uuid, dir, resume, include_git, states, effects, events, 2);
        assert(states[0].leads_to(events[0], states[1], effects[1]));
        assert(states[1].leads_to(events[1], states[2], effects[2]));
        assert(effects[1] !is Finish && effects[2] !is Finish);
    }
}

// ── Entering ────────────────────────────────────────────────────────────────

proof fn entering_remembers(
    session_name: String,
    uuid: String,
    command: LocalCommand,
    states: Seq<EnterLocalFlow>,
    effects: Seq<Effect>,
    events: Seq<Event>,
    k: int,
)
    requires
        is_run(states, effects, events),
        (states[0], effects[0]) == enter_local_zellij_begin(session_name, uuid, command),
        0 <= k < effects.len(),
    ensures
        match states[k] {
            EnterLocalFlow::Client { session_name: n, uuid: u } => k == 0 && n == session_name && u
                == uuid && effects[k] is Client,
            EnterLocalFlow::Check { session_name: n, uuid: u, status } => k == 1 && n
                == session_name && u == uuid && effects[k] is QueryZellij && events[0]
                == (Event::Exit { success: false, status }),
            EnterLocalFlow::Find { session_name: n, uuid: u } => 0 < k <= 2 && n == session_name
                && u == uuid && effects[k] == (Effect::FindByUuid { uuid }),
            EnterLocalFlow::Touch { uuid: u } => k > 1 && u == uuid && effects[k] is Update,
            EnterLocalFlow::Query { uuid: u } => k > 1 && u == uuid && effects[k] is QueryZellij
                && (effects[k - 1] is FindByUuid || effects[k - 1] is Update),
            EnterLocalFlow::Cleanup => k > 2 && effects[k] is CleanupZellij,
            EnterLocalFlow::Over => effects[k] is Finish,
        },
    decreases k,
{
    if k > 0 {
        entering_remembers(session_name, uuid, command, states, effects, events, k - 1);
        assert(states[k - 1].leads_to(events[k - 1], states[k], effects[k]));
    }
}

/// What running the zellij client asks for: the client as given; if it failed, whether the
/// session exists all the same, without which the start counts as failed; then the stored session,
/// whose use is noted if it is still there; and at last the zellij sessions, of which the own one
/// is deleted exactly if it exists and does not run.
pub proof fn session_is_looked_after(
    session_name: String,
    uuid: String,
    command: LocalCommand,
    states: Seq<EnterLocalFlow>,
    effects: Seq<Effect>,
    events: Seq<Event>,
    k: int,
)
    requires
        is_run(states, effects, events),
        (states[0], effects[0]) == enter_local_zellij_begin(session_name, uuid, command),
        0 <= k < effects.len(),
    ensures
        match effects[k] {
            Effect::Client(c) => k == 0 && c == command,
            Effect::QueryZellij => {
                ||| k == 1 && (events[0] matches Event::Exit { success, .. } && !success)
                ||| k > 1 && effects[k - 1] == (Effect::FindByUuid { uuid }) && events[k - 1]
                    == Event::Row(None)
                ||| k > 1 && effects[k - 1] is Update && events[k - 1] == Event::Done
            },
            Effect::FindByUuid { uuid: u } => {
                &&& u == uuid
                &&& k == 1 && (events[0] matches Event::Exit { success, .. } && success) || k == 2
                    && (events[1] matches Event::Zellij(zellij) && zellij_listed(zellij@, uuid@))
            },
            Effect::Update { row, change } => change == RowChange::Touch && just_answered(
                effects,
                events,
                k,
                Effect::FindByUuid { uuid },
                Event::Row(Some(row)),
            ),
            Effect::CleanupZellij { uuid: u } => u == uuid && k > 2 && (events[k - 1]
                matches Event::Zellij(zellij) && zellij_listed(zellij@, uuid@) && !zellij_runs(
                zellij@,
                uuid@,
            )),
            Effect::Finish(Event::Done) => k > 2 && (effects[k - 1] is CleanupZellij || (events[k
                - 1] matches Event::Zellij(zellij) && (zellij_runs(zellij@, uuid@)
                || !zellij_listed(zellij@, uuid@)))),
            Effect::Finish(Event::Failed(f)) => {
                ||| k > 1 && just_failed(events, k, f) && effects[k - 1] !is CleanupZellij
                ||| f == Failure::UnexpectedReply && misanswered(effects, events, k)
                ||| k == 1 && (events[0] matches Event::Failed(g) && f == (Failure::ZellijNotRun {
                    cause: Box::new(g),
                }))
                ||| k == 2 && (events[1] matches Event::Zellij(zellij) && !zellij_listed(
                    zellij@,
                    uuid@,
                )) && (events[0] matches Event::Exit { success, status } && !success && f
                    == (Failure::NotStarted { status, uuid }))
            },
            _ => false,
        },
{
    entering_remembers(session_name, uuid, command, states, effects, events, k);
    if k > 0 {
        entering_remembers(session_name, uuid, command, states, effects, events, k - 1);
        assert(states[k - 1].leads_to(events[k - 1], states[k], effects[k]));
    }
}

/// The user is told exactly if the session that was left is no longer stored, and of which
/// session that is.
pub proof fn lost_sessions_are_mentioned(
    session_name: String,
    uuid: String,
    command: LocalCommand,
    states: Seq<EnterLocalFlow>,
    effects: Seq<Effect>,
    events: Seq<Event>,
    k: int,
)
    requires
        is_run(states, effects, events),
        (states[0], effects[0]) == enter_local_zellij_begin(session_name, uuid, command),
        0 <= k < events.len(),
    ensures
        states[k].told(&events[k]) == (if effects[k] is FindByUuid && events[k] == Event::Row(None) {
            seq![
                Remark {
                    name: Some(&session_name),
                    uuid: Some(&uuid),
                    ..bare(Topic::MissingAfterDetach)
                },
            ]
        } else {
            Seq::empty()
        }),
{
    entering_remembers(session_name, uuid, command, states, effects, events, k);
}

// ── Stopping ────────────────────────────────────────────────────────────────

proof fn stopping_counts(
    uuid: String,
    states: Seq<StopZellijFlow>,
    effects: Seq<Effect>,
    events: Seq<Event>,
    k: int,
)
    requires
        is_run(states, effects, events),
        (states[0], effects[0]) == stop_and_cleanup_begin(uuid),
        0 <= k < effects.len(),
    ensures
        match states[k] {
            StopZellijFlow::Kill { uuid: u } => k == 0 && u == uuid,
            StopZellijFlow::Cleanup { uuid: u, left } => u == uuid && 1 <= left <= 50 && k == 3 * (
            50 - left) + 1 && effects[k] is CleanupZellij,
            StopZellijFlow::Look { uuid: u, left } => u == uuid && 1 <= left <= 50 && k == 3 * (50
                - left) + 2 && effects[k] == (Effect::ZellijListed { uuid }),
            StopZellijFlow::Wait { uuid: u, left } => u == uuid && 1 <= left <= 50 && k == 3 * (50
                - left) + 3 && effects[k] is Wait,
            StopZellijFlow::Over => effects[k] is Finish,
        },
    decreases k,
{
    if k > 0 {
        stopping_counts(uuid, states, effects, events, k - 1);
        assert(states[k - 1].leads_to(events[k - 1], states[k], effects[k]));
    }
}

/// A zellij session is killed once, and then deleted and looked for in turn, with a tenth of a
/// second between, up to fifty times. It counts as stopped exactly if it was just seen not to be
/// listed, and as not stopped only after the fiftieth look.
#[verifier::rlimit(30)]
#[verifier::spinoff_prover]
pub proof fn zellij_session_is_stopped(
    uuid: String,
    states: Seq<StopZellijFlow>,
    effects: Seq<Effect>,
    events: Seq<Event>,
    k: int,
)
    requires
        is_run(states, effects, events),
        (states[0], effects[0]) == stop_and_cleanup_begin(uuid),
        0 <= k < effects.len(),
    ensures
        match effects[k] {
            Effect::KillZellij { uuid: u } => k == 0 && u == uuid,
            Effect::CleanupZellij { uuid: u } => u == uuid && k % 3 == 1,
            Effect::ZellijListed { uuid: u } => u == uuid && k % 3 == 2 && effects[k - 1]
                is CleanupZellij,
            Effect::Wait { millis } => millis == 100 && k % 3 == 0 && just_answered(
                effects,
                events,
                k,
                Effect::ZellijListed { uuid },
                Event::Flag(true),
            ),
            Effect::Finish(Event::Flag(true)) => just_answered(
                effects,
                events,
                k,
                Effect::ZellijListed { uuid },
                Event::Flag(false),
            ),
            Effect::Finish(Event::Flag(false)) => k == 151 && effects[150] is Wait,
            Effect::Finish(Event::Failed(f)) => k > 0 && effects[k - 1] is ZellijListed && (
            just_failed(events, k, f) || f == Failure::UnexpectedReply && misanswered(
                effects,
                events,
                k,
            )),
            _ => false,
        },
{
    stopping_counts(uuid, states, effects, events, k);
    match states[k] {
        StopZellijFlow::Cleanup { left, .. } => assert((3 * (50 - left) + 1) % 3 == 1),
        StopZellijFlow::Look { left, .. } => assert((3 * (50 - left) + 2) % 3 == 2),
        StopZellijFlow::Wait { left, .. } => assert((3 * (50 - left) + 3) % 3 == 0),
        _ => {},
    }
    if k > 0 {
        stopping_counts(uuid, states, effects, events, k - 1);
        assert(states[k - 1].leads_to(events[k - 1], states[k], effects[k]));
    }
}

// ── Worktrees ───────────────────────────────────────────────────────────────

proof fn clearing_remembers(
    repo: String,
    dir: Dir,
    states: Seq<RemoveWorktreeFlow>,
    effects: Seq<Effect>,
    events: Seq<Event>,
    k: int,
)
    requires
        is_run(states, effects, events),
        (states[0], effects[0]) == remove_worktree_begin(repo, dir),
        0 <= k < effects.len(),
    ensures
        match states[k] {
            RemoveWorktreeFlow::Git { repo: r, dir: d } => k == 0 && r == repo && d == dir,
            RemoveWorktreeFlow::Delete { repo: r, dir: d, complaint } => k == 1 && r == repo && d
                == dir && events[0] == Event::MaybeText(Some(complaint)),
            RemoveWorktreeFlow::Prune { dir: d, complaint } => k == 2 && d == dir && events[0]
                == Event::MaybeText(Some(complaint)),
            RemoveWorktreeFlow::Look { dir: d, complaint } => k == 3 && d == dir && events[0]
                == Event::MaybeText(Some(complaint)) && effects[k] is DirExists,
            RemoveWorktreeFlow::Over => effects[k] is Finish,
        },
    decreases k,
{
    if k > 0 {
        clearing_remembers(repo, dir, states, effects, events, k - 1);
        assert(states[k - 1].leads_to(events[k - 1], states[k], effects[k]));
    }
}

/// A worktree is removed by `git` in its own repository. If `git` complains, its directory is
/// deleted and the worktrees of the repository are pruned; then the removal has failed exactly if
/// the directory is still there, and the failure names the directory and the complaint.
pub proof fn worktree_is_removed(
    repo: String,
    dir: Dir,
    states: Seq<RemoveWorktreeFlow>,
    effects: Seq<Effect>,
    events: Seq<Event>,
    k: int,
)
    requires
        is_run(states, effects, events),
        (states[0], effects[0]) == remove_worktree_begin(repo, dir),
        0 <= k < effects.len(),
    ensures
        match effects[k] {
            Effect::GitRemoveWorktree { repo: r, dir: d } => k == 0 && r == repo && d == dir,
            Effect::DeleteDir { dir: d } => k == 1 && d == dir && (events[0]
                matches Event::MaybeText(Some(_))),
            Effect::PruneWorktrees { repo: r } => k == 2 && r == repo,
            Effect::DirExists { dir: d } => k == 3 && d == dir,
            Effect::Finish(Event::Done) => k == 1 && events[0] == Event::MaybeText(None) || k == 4
                && events[3] == Event::Flag(false),
            Effect::Finish(Event::Failed(f)) => {
                ||| (k == 1 || k == 4) && just_failed(events, k, f)
                ||| f == Failure::UnexpectedReply && misanswered(effects, events, k)
                ||| k == 4 && events[3] == Event::Flag(true) && (events[0] matches Event::MaybeText(
                    Some(complaint),
                ) && match f {
                    Failure::WorktreeStays { path } => complaint@.len() == 0 && path@ == dir_text(
                        dir,
                    ),
                    Failure::WorktreeStaysWith { path, stderr } => complaint@.len() > 0 && path@
                        == dir_text(dir) && stderr == complaint,
                    _ => false,
                })
            },
            _ => false,
        },
{
    clearing_remembers(repo, dir, states, effects, events, k);
    if k > 0 {
        clearing_remembers(repo, dir, states, effects, events, k - 1);
        assert(states[k - 1].leads_to(events[k - 1], states[k], effects[k]));
    }
}

} // verus!
