//! The commands: what they store, what they show, and what they do step by step.

use vstd::prelude::*;

pub mod attach;
pub mod list;
pub mod local;
pub mod refresh;
pub mod remote;
pub mod remove;
pub mod rename;
pub mod restore;
pub mod run;
pub mod sessions;
pub mod start;
pub mod states;
pub mod stop;

pub use self::attach::attach;
pub use self::list::list;
pub use self::remove::rm;
pub use self::rename::rename;
pub use self::restore::restore;
pub use self::run::run;
pub use self::start::start;
pub use self::stop::stop;

use crate::codespace::{
    codespace_name, is_codespace_name, is_workspace_path, state_word, workdir_of, workdir_text,
    workspace_path, RemoteState, RemoteZellijState, RepoInfo,
};
use crate::display::{short_text, short_uuid};
use crate::entity::session::{Model, Record};
use crate::failure::Failure;
use crate::git::{branch_for, branch_text, dir_path, dir_text, Dir};
use crate::text::{alphanumeric, cat3, decimal, lower, to_chars, to_decimal, to_lower};

verus! {

/// The status of a session that is not removed.
pub const STATUS_ACTIVE: &'static str = "active";

/// The status of a removed session.
pub const STATUS_REMOVED: &'static str = "removed";

/// The backend of a session on this machine.
pub const BACKEND_LOCAL: &'static str = "local";

/// The backend of a session in a Codespace.
pub const BACKEND_CODESPACE: &'static str = "codespace";

// ── Names ───────────────────────────────────────────────────────────────────

/// The characters of session names.
pub open spec fn name_character(c: char) -> bool {
    alphanumeric(c) || c == '-' || c == '_'
}

/// A session name: alphanumeric characters, hyphens and underscores.
pub open spec fn session_name(s: Seq<char>) -> bool {
    s.len() > 0 && forall|i: int| 0 <= i < s.len() ==> name_character(#[trigger] s[i])
}

/// Why a text is not a session name, if it is not.
pub open spec fn name_failure(s: Seq<char>) -> Option<Failure> {
    if s.len() == 0 {
        Some(Failure::EmptyName)
    } else if session_name(s) {
        None
    } else {
        Some(Failure::NameCharacters)
    }
}

/// Accept session names alone.
pub fn validate_name(name: &str) -> (r: Result<(), Failure>)
    ensures
        r == (match name_failure(name@) {
            Some(f) => Err::<(), Failure>(f),
            None => Ok(()),
        }),
{
    let v = to_chars(name);
    if v.len() == 0 {
        return Err(Failure::EmptyName);
    }
    let mut i: usize = 0;
    while i < v.len()
        invariant
            i <= v@.len(),
            v@ == name@,
            v@.len() > 0,
            forall|j: int| 0 <= j < i ==> name_character(#[trigger] v@[j]),
        decreases v@.len() - i,
    {
        let c = v[i];
        if !(c.is_alphanumeric() || c == '-' || c == '_') {
            assert(!name_character(name@[i as int]));
            return Err(Failure::NameCharacters);
        }
        i = i + 1;
    }
    Ok(())
}

/// What a free name is looked for: a requested name, or the record of a Codespace that
/// could not be deleted.
#[derive(Debug)]
pub enum NameBase {
    Asked(String),
    Cleanup { session_name: String, uuid: String },
}

/// The name that is tried first.
pub open spec fn base_text(base: NameBase) -> Seq<char> {
    match base {
        NameBase::Asked(name) => name@,
        NameBase::Cleanup { session_name, uuid } => session_name@ + "-cleanup-"@ + short_text(uuid@),
    }
}

/// The name that is tried first.
pub fn base_name(base: &NameBase) -> (r: String)
    ensures
        r@ == base_text(*base),
{
    match base {
        NameBase::Asked(name) => name.clone(),
        NameBase::Cleanup { session_name, uuid } => cat3(
            session_name,
            "-cleanup-",
            &short_uuid(uuid),
        ),
    }
}

/// The name that is tried in the `n`th place: the base itself, then the base with a
/// number.
pub open spec fn numbered_text(base: Seq<char>, n: nat) -> Seq<char> {
    if n <= 1 {
        base
    } else {
        base + "-"@ + decimal(n)
    }
}

/// The name that is tried in the `n`th place.
pub fn numbered_name(base: &str, n: u64) -> (r: String)
    ensures
        r@ == numbered_text(base@, n as nat),
{
    if n <= 1 {
        base.to_string()
    } else {
        cat3(base, "-", &to_decimal(n))
    }
}

// ── Records ─────────────────────────────────────────────────────────────────

/// What a Codespace session knows of its Codespace.
#[derive(Debug)]
pub struct CodespaceDetails {
    pub name: String,
    pub workdir: String,
    pub github_login: String,
}

/// What a session knows of its Codespace: all three are stored, and the name and the
/// workspace are safe.
pub open spec fn details_of(session: Model) -> Result<CodespaceDetails, Failure> {
    match session.codespace_name {
        None => Err(Failure::MissingCodespaceName),
        Some(name) => match session.remote_workdir {
            None => Err(Failure::MissingWorkdir),
            Some(workdir) => match session.github_login {
                None => Err(Failure::MissingAccount),
                Some(github_login) => if !codespace_name(name@) {
                    Err(Failure::InvalidCodespaceName { name })
                } else if !workspace_path(workdir@) {
                    Err(Failure::InvalidWorkdir { workdir })
                } else {
                    Ok(CodespaceDetails { name, workdir, github_login })
                },
            },
        },
    }
}

/// What a session knows of its Codespace.
pub fn codespace_details(session: &Model) -> (r: Result<CodespaceDetails, Failure>)
    ensures
        r == details_of(*session),
{
    match &session.codespace_name {
        None => Err(Failure::MissingCodespaceName),
        Some(name) => match &session.remote_workdir {
            None => Err(Failure::MissingWorkdir),
            Some(workdir) => match &session.github_login {
                None => Err(Failure::MissingAccount),
                Some(github_login) => {
                    if !is_codespace_name(name) {
                        return Err(Failure::InvalidCodespaceName { name: name.clone() });
                    }
                    if !is_workspace_path(workdir) {
                        return Err(Failure::InvalidWorkdir { workdir: workdir.clone() });
                    }
                    Ok(
                        CodespaceDetails {
                            name: name.clone(),
                            workdir: workdir.clone(),
                            github_login: github_login.clone(),
                        },
                    )
                },
            },
        },
    }
}

/// The state of a Codespace as it is stored.
#[derive(Debug)]
pub enum CacheWord {
    Available,
    Shutdown,
    Observed(String),
}

/// The stored word for the state of a Codespace: always in small letters.
pub open spec fn cache_text(word: CacheWord) -> Seq<char> {
    match word {
        CacheWord::Available => "available"@,
        CacheWord::Shutdown => "shutdown"@,
        CacheWord::Observed(state) => lower(state@),
    }
}

/// A change to a stored session.
#[derive(Debug)]
pub enum RowChange {
    /// The session was used now.
    Touch,
    /// The session is active again and was used now.
    Activate,
    /// The session is removed.
    Remove,
    /// The session is removed, and its Codespace was stopped now.
    RemoveStopped,
    /// The Codespace and the remote session were seen in these states now.
    Cache { state: CacheWord, zellij: RemoteZellijState },
}

/// The record after a change at the time `now`.
pub open spec fn changed(row: Record, change: RowChange, now: Seq<char>) -> Record {
    match change {
        RowChange::Touch => Record { last_used_at: now, ..row },
        RowChange::Activate => Record { status: STATUS_ACTIVE@, last_used_at: now, ..row },
        RowChange::Remove => Record { status: STATUS_REMOVED@, ..row },
        RowChange::RemoveStopped => Record {
            cached_codespace_state: Some("shutdown"@),
            cached_zellij_state: Some("missing"@),
            codespace_state_updated_at: Some(now),
            status: STATUS_REMOVED@,
            ..row
        },
        RowChange::Cache { state, zellij } => Record {
            cached_codespace_state: Some(cache_text(state)),
            cached_zellij_state: Some(state_word(zellij)),
            codespace_state_updated_at: Some(now),
            ..row
        },
    }
}

/// The session after a change at the time `now`.
pub fn apply_change(row: Model, change: &RowChange, now: &str) -> (r: Model)
    ensures
        r@ == changed(row@, *change, now@),
{
    match change {
        RowChange::Touch => Model { last_used_at: now.to_string(), ..row },
        RowChange::Activate => Model {
            status: STATUS_ACTIVE.to_string(),
            last_used_at: now.to_string(),
            ..row
        },
        RowChange::Remove => Model { status: STATUS_REMOVED.to_string(), ..row },
        RowChange::RemoveStopped => Model {
            cached_codespace_state: Some("shutdown".to_string()),
            cached_zellij_state: Some("missing".to_string()),
            codespace_state_updated_at: Some(now.to_string()),
            status: STATUS_REMOVED.to_string(),
            ..row
        },
        RowChange::Cache { state, zellij } => {
            let word = match state {
                CacheWord::Available => "available".to_string(),
                CacheWord::Shutdown => "shutdown".to_string(),
                CacheWord::Observed(state) => to_lower(state),
            };
            Model {
                cached_codespace_state: Some(word),
                cached_zellij_state: Some(zellij.as_str().to_string()),
                codespace_state_updated_at: Some(now.to_string()),
                ..row
            }
        },
    }
}

/// A session that is about to be stored.
#[derive(Debug)]
pub enum NewSession {
    /// A local session in a directory, with a branch made from a name if it has its own
    /// worktree.
    Local {
        name: String,
        branch: Option<String>,
        uuid: String,
        source_repo: String,
        dir: Dir,
    },
    /// A session in a Codespace that was just created.
    Codespace {
        name: String,
        uuid: String,
        repo: RepoInfo,
        codespace_name: String,
        github_login: String,
    },
    /// The removed session of a Codespace that could not be deleted, so that deleting it
    /// can be tried again.
    Recovery {
        name: String,
        uuid: String,
        repo: RepoInfo,
        codespace_name: String,
        github_login: String,
    },
}

/// The record of a session that is stored at the time `now`.
pub open spec fn new_record(new: NewSession, now: Seq<char>) -> Record {
    match new {
        NewSession::Local { name, branch, uuid, source_repo, dir } => Record {
            name: name@,
            branch: match branch {
                Some(asked) => branch_text(asked@),
                None => ""@,
            },
            copilot_uuid: uuid@,
            source_repo: source_repo@,
            worktree_path: dir_text(dir),
            backend: BACKEND_LOCAL@,
            codespace_name: None,
            remote_workdir: None,
            github_login: None,
            cached_codespace_state: None,
            cached_codespace_branch: None,
            cached_zellij_state: None,
            codespace_state_updated_at: None,
            status: STATUS_ACTIVE@,
            last_used_at: now,
        },
        NewSession::Codespace { name, uuid, repo, codespace_name, github_login } => Record {
            name: name@,
            branch: repo.default_branch@,
            copilot_uuid: uuid@,
            source_repo: repo.name_with_owner@,
            worktree_path: ""@,
            backend: BACKEND_CODESPACE@,
            codespace_name: Some(codespace_name@),
            remote_workdir: Some(workdir_text(repo.name_with_owner@)),
            github_login: Some(github_login@),
            cached_codespace_state: Some("available"@),
            cached_codespace_branch: Some(repo.default_branch@),
            cached_zellij_state: Some("missing"@),
            codespace_state_updated_at: Some(now),
            status: STATUS_ACTIVE@,
            last_used_at: now,
        },
        NewSession::Recovery { name, uuid, repo, codespace_name, github_login } => Record {
            name: name@,
            branch: repo.default_branch@,
            copilot_uuid: uuid@,
            source_repo: repo.name_with_owner@,
            worktree_path: ""@,
            backend: BACKEND_CODESPACE@,
            codespace_name: Some(codespace_name@),
            remote_workdir: Some(workdir_text(repo.name_with_owner@)),
            github_login: Some(github_login@),
            cached_codespace_state: None,
            cached_codespace_branch: Some(repo.default_branch@),
            cached_zellij_state: None,
            codespace_state_updated_at: None,
            status: STATUS_REMOVED@,
            last_used_at: now,
        },
    }
}

/// The session that is stored at the time `now`.
pub fn new_row(new: &NewSession, now: &str) -> (r: Model)
    ensures
        r@ == new_record(*new, now@),
{
    match new {
        NewSession::Local { name, branch, uuid, source_repo, dir } => Model {
            name: name.clone(),
            branch: match branch {
                Some(asked) => branch_for(asked),
                None => "".to_string(),
            },
            copilot_uuid: uuid.clone(),
            source_repo: source_repo.clone(),
            worktree_path: dir_path(dir),
            backend: BACKEND_LOCAL.to_string(),
            codespace_name: None,
            remote_workdir: None,
            github_login: None,
            cached_codespace_state: None,
            cached_codespace_branch: None,
            cached_zellij_state: None,
            codespace_state_updated_at: None,
            status: STATUS_ACTIVE.to_string(),
            last_used_at: now.to_string(),
        },
        NewSession::Codespace { name, uuid, repo, codespace_name, github_login } => Model {
            name: name.clone(),
            branch: repo.default_branch.clone(),
            copilot_uuid: uuid.clone(),
            source_repo: repo.name_with_owner.clone(),
            worktree_path: "".to_string(),
            backend: BACKEND_CODESPACE.to_string(),
            codespace_name: Some(codespace_name.clone()),
            remote_workdir: Some(workdir_of(&repo.name_with_owner)),
            github_login: Some(github_login.clone()),
            cached_codespace_state: Some("available".to_string()),
            cached_codespace_branch: Some(repo.default_branch.clone()),
            cached_zellij_state: Some("missing".to_string()),
            codespace_state_updated_at: Some(now.to_string()),
            status: STATUS_ACTIVE.to_string(),
            last_used_at: now.to_string(),
        },
        NewSession::Recovery { name, uuid, repo, codespace_name, github_login } => Model {
            name: name.clone(),
            branch: repo.default_branch.clone(),
            copilot_uuid: uuid.clone(),
            source_repo: repo.name_with_owner.clone(),
            worktree_path: "".to_string(),
            backend: BACKEND_CODESPACE.to_string(),
            codespace_name: Some(codespace_name.clone()),
            remote_workdir: Some(workdir_of(&repo.name_with_owner)),
            github_login: Some(github_login.clone()),
            cached_codespace_state: None,
            cached_codespace_branch: Some(repo.default_branch.clone()),
            cached_zellij_state: None,
            codespace_state_updated_at: None,
            status: STATUS_REMOVED.to_string(),
            last_used_at: now.to_string(),
        },
    }
}

/// The record of a session under another name, used at the time `now`.
pub open spec fn renamed(row: Record, name: Seq<char>, now: Seq<char>) -> Record {
    Record { name, last_used_at: now, ..row }
}

/// The session under another name, used at the time `now`.
pub fn renamed_row(row: Model, name: &str, now: &str) -> (r: Model)
    ensures
        r@ == renamed(row@, name@, now@),
{
    Model { name: name.to_string(), last_used_at: now.to_string(), ..row }
}

/// What was seen of a Codespace: its listed state, or that it is not listed, with the
/// branch that was known of it.
#[derive(Debug)]
pub enum Observation {
    Listed(RemoteState),
    Gone { branch: Option<String> },
}

/// What was seen of a session's Codespace and its remote session, to be stored unless the
/// session was changed since it was read as `latest`.
#[derive(Debug)]
pub struct RefreshUpdate {
    pub latest: Model,
    pub remote: Observation,
    pub zellij: RemoteZellijState,
}

/// What was done, for the user.
#[derive(Debug)]
pub enum Notice {
    StoppedSession { name: String, uuid: String },
    CleanedUp { name: String, uuid: String },
    NotRunning { name: String, uuid: String },
    StoppedCodespace { name: String, uuid: String, codespace: String },
    Destroyed { name: String, uuid: String },
    Removed { name: String, uuid: String },
    Renamed { old_name: String, name: String, uuid: String, detail: RenameDetail },
    AlreadyRemoved { name: String, uuid: String },
    NothingToRemove,
    RemovalCancelled,
    NoMatch,
    Pruned { count: u64 },
}

/// What is said of a renamed session besides its names.
#[derive(Clone, Copy, Debug, PartialEq, Eq, Structural)]
pub enum RenameDetail {
    Nothing,
    StillRunning,
    CodespaceAvailable,
}

/// The text of a detail.
pub open spec fn detail_text(detail: RenameDetail) -> Seq<char> {
    match detail {
        RenameDetail::Nothing => ""@,
        RenameDetail::StillRunning => " (still running)"@,
        RenameDetail::CodespaceAvailable => " (Codespace available)"@,
    }
}

impl RenameDetail {
    /// The text of the detail.
    pub fn text(&self) -> (r: &'static str)
        ensures
            r@ == detail_text(*self),
    {
        match self {
            RenameDetail::Nothing => "",
            RenameDetail::StillRunning => " (still running)",
            RenameDetail::CodespaceAvailable => " (Codespace available)",
        }
    }
}

/// What the user is told.
pub open spec fn notice_text(notice: Notice) -> Seq<char> {
    match notice {
        Notice::StoppedSession { .. } => "Stopped session"@,
        Notice::CleanedUp { .. } => "Cleaned up exited session"@,
        Notice::NotRunning { .. } => "Session is not running"@,
        Notice::StoppedCodespace { .. } => "Stopped Codespace session"@,
        Notice::Destroyed { .. } => "Destroyed session"@,
        Notice::Removed { .. } => "Removed session"@,
        Notice::Renamed { .. } => "Renamed session"@,
        Notice::AlreadyRemoved { .. } =>
            "Session is already removed; skipping unless force is used"@,
        Notice::NothingToRemove => "No sessions to remove"@,
        Notice::RemovalCancelled => "Removal cancelled"@,
        Notice::NoMatch => "No matching sessions to remove"@,
        Notice::Pruned { .. } => "Pruned orphaned session files"@,
    }
}

impl Notice {
    /// What the user is told.
    pub fn message(&self) -> (r: &'static str)
        ensures
            r@ == notice_text(*self),
    {
        match self {
            Notice::StoppedSession { .. } => "Stopped session",
            Notice::CleanedUp { .. } => "Cleaned up exited session",
            Notice::NotRunning { .. } => "Session is not running",
            Notice::StoppedCodespace { .. } => "Stopped Codespace session",
            Notice::Destroyed { .. } => "Destroyed session",
            Notice::Removed { .. } => "Removed session",
            Notice::Renamed { .. } => "Renamed session",
            Notice::AlreadyRemoved { .. } =>
                "Session is already removed; skipping unless force is used",
            Notice::NothingToRemove => "No sessions to remove",
            Notice::RemovalCancelled => "Removal cancelled",
            Notice::NoMatch => "No matching sessions to remove",
            Notice::Pruned { .. } => "Pruned orphaned session files",
        }
    }
}

} // verus!
