//! Operations that alternate decisions with work on the outside world.
//!
//! An operation is a [`Flow`]: a state that, given what came of the last piece of outside
//! work, says which piece of work comes next. The work is asked for as an [`Effect`] and
//! answered with an [`Event`]; the last effect of every flow is `Finish`, which carries
//! the outcome. An effect may stand for a whole other flow.

use vstd::prelude::*;

use crate::clock::Moment;
use crate::codespace::{
    RemoteSetup, RemoteSetupOutcome, RemoteState, RemoteZellijState, RepoInfo,
};
use crate::commands::states::CodespaceStates;
use crate::commands::{NameBase, NewSession, Notice, RefreshUpdate, RowChange};
use crate::entity::session::Model;
use crate::failure::Failure;
use crate::gh::{GhCall, LauncherMode};
use crate::git::{BranchRef, Dir};
use crate::interactive::Item;
use crate::names::{NameMap, NameSet};
use crate::zellij::{LocalCommand, State};

verus! {

/// What came of a piece of outside work.
#[derive(Debug)]
pub enum Event {
    /// It was done.
    Done,
    /// It failed.
    Failed(Failure),
    /// The stored session that was looked for, if there is one.
    Row(Option<Model>),
    /// The stored sessions that were asked for.
    Rows(Vec<Model>),
    /// How many things it touched.
    Count(u64),
    /// Whether what was asked is so.
    Flag(bool),
    /// A text.
    Text(String),
    /// A text, if there is one.
    MaybeText(Option<String>),
    /// The local zellij sessions.
    Zellij(State),
    /// The state of the remote session.
    Remote(RemoteZellijState),
    /// What the preparation of a Codespace found.
    Setup(RemoteSetupOutcome),
    /// How an interactive command ended.
    Exit { success: bool, status: String },
    /// A repository.
    Repo(RepoInfo),
    /// The states of all Codespaces.
    Listed(NameMap<RemoteState>),
    /// What is known of the Codespaces of all sessions.
    Codespaces(CodespaceStates),
    /// The columns of the session table.
    Columns(NameSet),
    /// The sessions to pick from.
    Items(Vec<Item>),
    /// The picked sessions, unless the user cancelled.
    Picked(Option<Vec<String>>),
    /// The time.
    At(Moment),
}

/// A piece of outside work.
#[allow(inconsistent_fields)]
#[derive(Debug)]
pub enum Effect {
    // ── The session table ───────────────────────────────────────────────────
    /// Find the session with a name. Answered by `Row`.
    FindByName { name: String },
    /// Find a session with a UUID. Answered by `Row`.
    FindByUuid { uuid: String },
    /// Find all sessions with a UUID. Answered by `Rows`.
    FindAllByUuid { uuid: String },
    /// Get all sessions. Answered by `Rows`.
    AllSessions,
    /// Get all sessions that are not removed. Answered by `Rows`.
    ActiveSessions,
    /// Write a change to a session. Answered by `Done`.
    Update { row: Model, change: RowChange },
    /// Store a new session. Answered by `Row` with what was stored.
    Insert(NewSession),
    /// Store a session under another name, as used now. Answered by `Done`.
    InsertRenamed { row: Model, name: String },
    /// Delete the session with a name. Answered by `Done`.
    DeleteByName { name: String },
    /// Delete the session with a name and a UUID. Answered by `Count`.
    DeleteRow { name: String, uuid: String },
    /// Delete all sessions with a UUID. Answered by `Count`.
    DeleteByUuid { uuid: String },
    /// Write what was observed to a session unless it changed meanwhile. Answered by
    /// `Count`.
    RefreshRow(RefreshUpdate),
    /// Begin, commit or roll back a transaction. Answered by `Done`.
    Begin,
    Commit,
    Rollback,
    /// Get the columns of the session table. Answered by `Columns`.
    SessionColumns,
    /// Add a column to the session table. Answered by `Done`.
    AddColumn { column: usize },
    // ── Zellij ──────────────────────────────────────────────────────────────
    /// Get the local zellij sessions. Answered by `Zellij`.
    QueryZellij,
    /// Delete the exited zellij session of a UUID.
    CleanupZellij { uuid: String },
    /// Kill the zellij session of a UUID.
    KillZellij { uuid: String },
    /// Ask whether the zellij session of a UUID is listed. Answered by `Flag`.
    ZellijListed { uuid: String },
    /// Run the zellij client. Answered by `Exit`.
    Client(LocalCommand),
    /// Write a file. Answered by `Text` with its path.
    WriteLauncher,
    WriteCodespaceLauncher,
    WriteConfig,
    WriteLayout { uuid: String, launcher: String, include_git: bool },
    WriteCodespaceLayout { uuid: String, name: String, workdir: String },
    /// Make sure the launch marker of a session exists. Answered by `Done`.
    WriteMarker { uuid: String },
    /// Delete the files of a session.
    CleanupFiles { uuid: String },
    /// Delete the files that belong to none of the sessions. Answered by `Count`.
    PruneOrphans { known: Vec<Model> },
    // ── Git ─────────────────────────────────────────────────────────────────
    /// Find the root of the current repository. Answered by `Text`.
    RepoRoot,
    /// Get the checked-out branch. Answered by `MaybeText`.
    CurrentBranch { dir: Dir },
    /// Pull the latest changes.
    Pull { dir: Dir },
    /// Ask whether a branch exists. Answered by `Flag`.
    BranchExists { branch: BranchRef, repo: Option<String> },
    /// Create a worktree. Answered by `Done`.
    CreateWorktree { dir: Dir, branch: BranchRef, new_branch: bool, repo: Option<String> },
    /// Run `git worktree remove`. Answered by `MaybeText`: nothing if it succeeded, else
    /// its complaint.
    GitRemoveWorktree { repo: String, dir: Dir },
    /// Delete a directory, and prune the worktrees of a repository.
    DeleteDir { dir: Dir },
    PruneWorktrees { repo: String },
    /// Delete a branch.
    DeleteBranch { repo: String, branch: String },
    /// Ask whether a directory exists. Answered by `Flag`.
    DirExists { dir: Dir },
    /// Ask whether a directory is in a repository. Answered by `Flag`.
    IsGitRepo { dir: Dir },
    // ── GitHub ──────────────────────────────────────────────────────────────
    /// Run `gh`. Answered as the call is read.
    Gh(GhCall),
    // ── The user and the machine ────────────────────────────────────────────
    /// Get the data directory. Answered by `Text`.
    CsmDir,
    /// Get the current directory. Answered by `Text`.
    CurrentDir,
    /// Draw a session identifier. Answered by `Text`.
    NewId,
    /// Ask the user whether to resume the branch of a session. Answered by `Flag`.
    ConfirmResume { name: String },
    /// Collect the sessions to pick from. Answered by `Items`.
    Candidates,
    /// Let the user pick sessions to remove. Answered by `Picked`.
    Pick { items: Vec<Item>, force: bool },
    /// Get the time. Answered by `At`.
    Now,
    /// Wait for some milliseconds.
    Wait { millis: u64 },
    /// Tell the user what was done.
    Report(Notice),
    // ── Other flows ─────────────────────────────────────────────────────────
    /// Find the session that the user means. Answered by `Row` with a session.
    Resolve { query: String },
    /// Find an unused name. Answered by `Text`.
    FreeName { base: NameBase },
    /// Change what is stored of a Codespace. Answered by `Done`.
    SetCache { uuid: String, change: RowChange },
    /// Stop a Codespace and store that. Answered by `Done`.
    StopAndCache { name: String, github_login: String, uuid: String },
    /// Run the zellij client and look after the session. Answered by `Done`.
    EnterLocal { session_name: String, uuid: String, command: LocalCommand },
    /// Start a local session. Answered by `Done`.
    StartLocal {
        session_name: String,
        uuid: String,
        dir: Dir,
        resume: bool,
        include_git: bool,
    },
    /// Connect to the remote session and look after it. Answered by `Done`.
    EnterCodespace { session: Model, attach_only: bool },
    /// Create a Codespace session. Answered by `Done`.
    RunCodespace { session_name: String, uuid: String },
    /// Undo a failed creation.
    CleanupFailed {
        session_name: String,
        uuid: String,
        repo: RepoInfo,
        codespace_name: String,
        github_login: String,
    },
    /// Write the files of a Codespace session and prepare the Codespace. Answered by
    /// `Setup`.
    SetUp { name: String, workdir: String, uuid: String, resume: bool, github_login: String },
    /// Remove one session. Answered by `Done`.
    RemoveOne { session: Model, csm_dir: String, live: bool, force: bool },
    /// Delete the one session with a UUID. Answered by `Done`.
    DeleteSession { uuid: String },
    /// Mark a session as removed. Answered by `Done`.
    MarkRemoved { uuid: String },
    /// Stop a zellij session and wait until it is gone. Answered by `Flag`.
    StopZellij { uuid: String },
    /// Remove a worktree. Answered by `Done`.
    RemoveWorktree { repo: String, dir: Dir },
    /// Operations on one Codespace. `CurrentState` is answered by `Text`, `Connect` by
    /// `Exit`, `Prepare` by `Setup`, `Create` by `Text`, the others by `Done`.
    StopCodespace { name: String, github_login: String },
    DeleteCodespace { name: String, github_login: String },
    DeleteIfExists { name: String, github_login: String },
    CurrentState { name: String, github_login: String },
    AskLauncher { name: String, uuid: String, github_login: String, mode: LauncherMode },
    Connect {
        name: String,
        workdir: String,
        uuid: String,
        github_login: String,
        attach_only: bool,
    },
    Prepare(RemoteSetup),
    Create { repo: RepoInfo, session_name: String, uuid: String },
    // ── The end ─────────────────────────────────────────────────────────────
    /// The flow is over, with this outcome.
    Finish(Event),
}

/// The effect that ends a flow with a failure.
pub open spec fn fail(f: Failure) -> Effect {
    Effect::Finish(Event::Failed(f))
}

/// End a flow with a failure.
pub fn failing(f: Failure) -> (r: Effect)
    ensures
        r == fail(f),
{
    Effect::Finish(Event::Failed(f))
}

/// An operation that alternates decisions with outside work.
pub trait Flow: Sized {
    /// From this state, `event` leads to the state `next`, which asks for `effect`.
    spec fn leads_to(self, event: Event, next: Self, effect: Effect) -> bool;

    /// Decide what comes after `event`.
    fn next(self, event: Event) -> (r: (Self, Effect))
        ensures
            self.leads_to(event, r.0, r.1),
    ;
}

/// A run of a flow: the states it goes through, the effects it asks for in them, and the
/// events that answer the effects but the last one. Nothing answers the end of a flow.
pub open spec fn is_run<F: Flow>(states: Seq<F>, effects: Seq<Effect>, events: Seq<Event>) -> bool {
    &&& states.len() == effects.len()
    &&& states.len() == events.len() + 1
    &&& forall|i: int| 0 <= i < events.len() ==> #[trigger] effects[i] !is Finish
    &&& forall|i: int|
        0 <= i < events.len() ==> (#[trigger] states[i]).leads_to(
            events[i],
            states[i + 1],
            effects[i + 1],
        )
}

} // verus!
