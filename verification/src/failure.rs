//! What can go wrong, and what the user is told.

use vstd::prelude::*;

use crate::codespace::{after_last_slash, after_slash, codespace_display_name, display_name_text};
use crate::db::{column_name, column_text};
use crate::display::{short_text, short_uuid};
use crate::git::{branch_for, branch_text};
use crate::ids::{uuid_complaint, well_formed_uuid, why_not_uuid};
use crate::text::{cat2, cat3, cat5, decimal, join, joined, texts, to_decimal};

verus! {

/// The ways in which an operation fails.
#[derive(Debug, PartialEq, Eq)]
pub enum Failure {
    /// A command could not be started.
    CommandNotRun { action: String, error: String },
    /// A command failed and said nothing.
    CommandFailed { action: String, status: String },
    /// A command failed and said why.
    CommandFailedWith { action: String, stderr: String },
    /// The output of a command is not text.
    InvalidUtf8 { action: String, error: String },
    /// The query for a Codespace's state could not be started.
    StateQueryNotRun { error: String },
    /// A Codespace's state is not text.
    StateInvalidUtf8 { error: String },
    /// A Codespace's state is empty.
    EmptyState { name: String },
    /// The query for a Codespace's state failed and said nothing.
    StateQueryFailed { name: String, status: String },
    /// The query for a Codespace's state failed and said why.
    StateQueryFailedWith { name: String, stderr: String },
    /// A repository has no default branch.
    NoDefaultBranch,
    /// A GitHub login has characters that no login has.
    InvalidLogin,
    /// A Codespace name is not safe to use in a path.
    InvalidCodespaceName { name: String },
    /// A path does not name a Codespace workspace.
    InvalidWorkdir { workdir: String },
    /// A repository has a name that is not safe to use in a path.
    UnsafeRepository { repo: String },
    /// A repository is not in owner/name form.
    RepoForm,
    /// A text is not a UUID.
    InvalidUuid { uuid: String },
    /// `gh` acts for another account than the one that owns the Codespace.
    WrongAccount { current: String, expected: String },
    /// Two Codespaces have the same display name.
    DuplicateDisplayName { display_name: String },
    /// A Codespace was not created.
    CreateFailed { status: String },
    /// A Codespace was created but is not listed.
    CreatedNotFound { session_name: String, uuid: String },
    /// A created Codespace could not be looked up.
    Unresolved { session_name: String, uuid: String, cause: Box<Failure> },
    /// The remote launcher reported a state that does not exist.
    UnexpectedZellijState { value: String },
    /// The remote launcher reported a readiness that does not exist.
    UnexpectedReadiness { value: String },
    /// A Codespace does not exist.
    CodespaceGone { name: String },
    /// A Codespace session has no Codespace name.
    MissingCodespaceName,
    /// A Codespace session has no workspace.
    MissingWorkdir,
    /// A Codespace session has no account.
    MissingAccount,
    /// A session is no longer stored.
    Disappeared { uuid: String },
    /// A session vanished while its state was refreshed.
    DisappearedInRefresh { uuid: String },
    /// A session vanished while it was removed.
    DisappearedInRemoval { uuid: String },
    /// A session name is empty.
    EmptyName,
    /// A session name has a character that is not allowed.
    NameCharacters,
    /// No session has the name or identifier.
    NoSession { query: String },
    /// Zellij ended before its session existed.
    NotStarted { status: String, uuid: String },
    /// Zellij could not be started.
    ZellijNotRun { cause: Box<Failure> },
    /// A state that is only kept locally came from the remote launcher.
    ConnectingState,
    /// Remote Zellij runs without its tabs.
    LayoutMissing,
    /// The connection failed and remote Zellij has exited.
    SshAfterExit { status: String },
    /// The connection failed and remote Zellij is gone.
    SshMissing { status: String },
    /// A Codespace session was asked for outside a repository.
    NotInRepository { cause: Box<Failure> },
    /// The current directory is not in a repository.
    NotARepository,
    /// What a command wrote is not text.
    NotText { error: String },
    /// The user declined to resume an existing branch.
    BranchTaken { name: String },
    /// The session is removed.
    Removed { name: String },
    /// The session runs already.
    AlreadyRunning { name: String },
    /// The session does not run.
    NotRunning { name: String },
    /// The session's Codespace is stopped.
    Stopped { name: String },
    /// The session runs on a backend that does not exist.
    UnknownBackend { name: String, backend: String },
    /// No session was named.
    NoNames,
    /// Nothing says which sessions to remove.
    NothingSpecified,
    /// The session is not removed.
    NotRemoved { name: String, status: String },
    /// The branch of a session does not exist.
    BranchGone { branch: String },
    /// A session was renamed to its own name.
    SameName,
    /// The new name is in use.
    NameTaken { name: String },
    /// A session vanished while it was renamed.
    DisappearedInRename,
    /// Another process renamed the session.
    RenamedConcurrently { name: String },
    /// Another process changed the session.
    ChangedInRename { name: String },
    /// `git worktree add` could not be started.
    WorktreeNotRun { error: String },
    /// A worktree was not created.
    WorktreeNotAdded { stderr: String },
    /// A worktree could not be removed.
    WorktreeStays { path: String },
    /// A worktree could not be removed, and `git` said why.
    WorktreeStaysWith { path: String, stderr: String },
    /// The connection to a Codespace could not be started.
    ConnectNotRun { error: String },
    /// Every numbered name is in use.
    NamesExhausted,
    /// A reply does not belong to the request it follows.
    UnexpectedReply,
    /// Work outside the library failed.
    Outside { message: String },
    /// Several sessions match an identifier.
    Ambiguous { query: String, names: Vec<String> },
    /// Some sessions could not be stopped.
    StopFailures { count: u64 },
    /// A column of the session table could not be added.
    AddColumn { column: usize, cause: Box<Failure> },
    /// Not exactly one session has a UUID.
    ExpectedOne { uuid: String, count: u64 },
    /// Several sessions with one UUID would have been deleted.
    DuplicateUuid { uuid: String, count: u64 },
}

/// What a failure says by itself, without what caused it.
pub open spec fn summary_text(f: Failure) -> Seq<char> {
    match f {
        Failure::CommandNotRun { action, .. } => "Failed to run "@ + action@,
        Failure::CommandFailed { action, status } => action@ + " failed with "@ + status@,
        Failure::CommandFailedWith { action, stderr } => action@ + " failed: "@ + stderr@,
        Failure::InvalidUtf8 { action, .. } => action@ + " returned invalid UTF-8"@,
        Failure::StateQueryNotRun { .. } => "Failed to query Codespace state"@,
        Failure::StateInvalidUtf8 { .. } => "Codespace state returned invalid UTF-8"@,
        Failure::EmptyState { name } => "Codespace '"@ + name@ + "' returned an empty state"@,
        Failure::StateQueryFailed { name, status } =>
            "Failed to query Codespace '"@ + name@ + "' with "@ + status@,
        Failure::StateQueryFailedWith { name, stderr } =>
            "Failed to query Codespace '"@ + name@ + "': "@ + stderr@,
        Failure::NoDefaultBranch => "The repository does not have a default branch"@,
        Failure::InvalidLogin => "gh returned an invalid GitHub login"@,
        Failure::InvalidCodespaceName { name } => "Invalid Codespace name: "@ + name@,
        Failure::InvalidWorkdir { workdir } => "Invalid Codespace workspace path: "@ + workdir@,
        Failure::UnsafeRepository { repo } =>
            "Invalid Codespace workspace path: /workspaces/"@ + after_slash(repo@),
        Failure::RepoForm => "GitHub repository must be in owner/name form"@,
        Failure::InvalidUuid { uuid } => "Invalid UUID: "@ + uuid@,
        Failure::WrongAccount { current, expected } =>
            "Codespace belongs to GitHub account '"@ + expected@ + "', but gh is using '"@
                + current@ + "'. Run `gh auth switch --user "@ + expected@ + "` first."@,
        Failure::DuplicateDisplayName { display_name } =>
            "Multiple Codespaces have display name '"@ + display_name@ + "'"@,
        Failure::CreateFailed { status } => "gh codespace create failed with "@ + status@,
        Failure::CreatedNotFound { session_name, uuid } =>
            "gh codespace create succeeded, but csm could not find display name '"@
                + display_name_text(session_name@, uuid@)
                + "'. Locate it with `gh codespace list`."@,
        Failure::Unresolved { session_name, uuid, .. } =>
            "Could not resolve the Codespace named '"@ + display_name_text(session_name@, uuid@)
                + "'. Locate it with `gh codespace list`."@,
        Failure::UnexpectedZellijState { value } => "Unexpected remote Zellij state: "@ + value@,
        Failure::UnexpectedReadiness { value } => "Unexpected remote Zellij readiness: "@ + value@,
        Failure::CodespaceGone { name } => "Codespace '"@ + name@ + "' no longer exists"@,
        Failure::MissingCodespaceName => "Codespace session is missing its Codespace name"@,
        Failure::MissingWorkdir => "Codespace session is missing its remote workspace"@,
        Failure::MissingAccount => "Codespace session is missing its GitHub account"@,
        Failure::Disappeared { uuid } => "Session with UUID '"@ + uuid@ + "' disappeared"@,
        Failure::DisappearedInRefresh { uuid } =>
            "Session with UUID '"@ + uuid@ + "' disappeared during refresh"@,
        Failure::DisappearedInRemoval { uuid } =>
            "Session with UUID '"@ + uuid@ + "' disappeared during removal"@,
        Failure::EmptyName => "Session name cannot be empty"@,
        Failure::NameCharacters =>
            "Session name must only contain alphanumeric characters, hyphens, or underscores"@,
        Failure::NoSession { query } => "No session found matching '"@ + query@ + "'"@,
        Failure::NotStarted { status, uuid } =>
            "zellij exited with "@ + status@ + " before session '"@ + short_text(uuid@)
                + "' started"@,
        Failure::ZellijNotRun { .. } => "Failed to run zellij"@,
        Failure::ConnectingState =>
            "Remote Zellij state query returned an internal connecting state"@,
        Failure::LayoutMissing =>
            "Remote Zellij is running without the required ai/git/edit layout"@,
        Failure::SshAfterExit { status } =>
            "SSH exited with "@ + status@ + " after remote Zellij exited"@,
        Failure::SshMissing { status } =>
            "SSH exited with "@ + status@ + " and remote Zellij is missing"@,
        Failure::NotARepository => "Not inside a git repository"@,
        Failure::NotText { error } => error@,
        Failure::NotInRepository { .. } => "Codespace sessions must be created from a Git repository"@,
        Failure::BranchTaken { name } =>
            "Aborted: branch '"@ + branch_text(name@) + "' already exists."@,
        Failure::Removed { name } =>
            "Session '"@ + name@ + "' has been removed. Use `csm restore "@ + name@
                + "` to recover."@,
        Failure::AlreadyRunning { name } =>
            "Session '"@ + name@ + "' is already running. Use `csm attach "@ + name@
                + "` to connect."@,
        Failure::NotRunning { name } =>
            "Session '"@ + name@ + "' is not running. Use `csm start "@ + name@ + "` first."@,
        Failure::Stopped { name } =>
            "Session '"@ + name@ + "' is stopped. Use `csm start "@ + name@ + "` first."@,
        Failure::UnknownBackend { name, backend } =>
            "Session '"@ + name@ + "' has unknown backend '"@ + backend@ + "'"@,
        Failure::NoNames => "No session names provided"@,
        Failure::NothingSpecified =>
            "No sessions specified: provide names, --interactive, or --older-than <DAYS>"@,
        Failure::NotRemoved { name, status } =>
            "Session '"@ + name@ + "' is not removed (status: "@ + status@
                + "). Use `csm attach` instead."@,
        Failure::BranchGone { branch } => "Branch '"@ + branch@ + "' no longer exists"@,
        Failure::SameName => "New name is the same as the old name"@,
        Failure::NameTaken { name } => "Session '"@ + name@ + "' already exists"@,
        Failure::DisappearedInRename => "Session disappeared during rename"@,
        Failure::RenamedConcurrently { name } =>
            "Session '"@ + name@ + "' was renamed concurrently"@,
        Failure::ChangedInRename { name } => "Session '"@ + name@ + "' changed during rename"@,
        Failure::WorktreeNotRun { .. } => "Failed to create worktree"@,
        Failure::WorktreeNotAdded { stderr } => "git worktree add failed: "@ + stderr@,
        Failure::WorktreeStays { path } => "Failed to remove worktree at "@ + path@,
        Failure::WorktreeStaysWith { path, stderr } =>
            "Failed to remove worktree at "@ + path@ + ": "@ + stderr@,
        Failure::ConnectNotRun { .. } => "Failed to connect to remote Zellij"@,
        Failure::NamesExhausted => "No unused session name is left"@,
        Failure::UnexpectedReply => "The reply does not answer the request"@,
        Failure::Outside { message } => message@,
        Failure::Ambiguous { query, names } => "Ambiguous identifier '"@ + query@ + "' matches "@
            + decimal(names@.len()) + " sessions: "@ + joined(texts(names@), ", "@)
            + ". Use a longer prefix."@,
        Failure::StopFailures { count } => "Failed to stop "@ + decimal(count as nat)
            + " session(s)"@,
        Failure::AddColumn { column, .. } => "Failed to add sessions."@ + column_text(column as int),
        Failure::ExpectedOne { uuid, count } => "Expected one session with UUID '"@ + uuid@
            + "', found "@ + decimal(count as nat),
        Failure::DuplicateUuid { uuid, count } => "Found "@ + decimal(count as nat)
            + " sessions with duplicate UUID '"@ + uuid@ + "'"@,
    }
}

/// What the user is told of a failure: what it says, and after a colon what caused it.
pub open spec fn failure_text(f: Failure) -> Seq<char>
    decreases f,
{
    match f {
        Failure::CommandNotRun { error, .. } => summary_text(f) + ": "@ + error@,
        Failure::InvalidUtf8 { error, .. } => summary_text(f) + ": "@ + error@,
        Failure::StateQueryNotRun { error } => summary_text(f) + ": "@ + error@,
        Failure::StateInvalidUtf8 { error } => summary_text(f) + ": "@ + error@,
        Failure::WorktreeNotRun { error } => summary_text(f) + ": "@ + error@,
        Failure::ConnectNotRun { error } => summary_text(f) + ": "@ + error@,
        Failure::InvalidUuid { uuid } => if well_formed_uuid(uuid@) {
            summary_text(f)
        } else {
            summary_text(f) + ": "@ + uuid_complaint(uuid@)
        },
        Failure::Unresolved { cause, .. } => summary_text(f) + ": "@ + failure_text(*cause),
        Failure::ZellijNotRun { cause } => summary_text(f) + ": "@ + failure_text(*cause),
        Failure::NotInRepository { cause } => summary_text(f) + ": "@ + failure_text(*cause),
        Failure::AddColumn { cause, .. } => summary_text(f) + ": "@ + failure_text(*cause),
        _ => summary_text(f),
    }
}

impl Failure {
    /// What the user is told: what the failure says, and after a colon what caused it.
    pub fn message(&self) -> (r: String)
        ensures
            r@ == failure_text(*self),
        decreases self,
    {
        let summary = self.summary();
        match self {
            Failure::CommandNotRun { error, .. } => cat3(&summary, ": ", error),
            Failure::InvalidUtf8 { error, .. } => cat3(&summary, ": ", error),
            Failure::StateQueryNotRun { error } => cat3(&summary, ": ", error),
            Failure::StateInvalidUtf8 { error } => cat3(&summary, ": ", error),
            Failure::WorktreeNotRun { error } => cat3(&summary, ": ", error),
            Failure::ConnectNotRun { error } => cat3(&summary, ": ", error),
            Failure::InvalidUuid { uuid } => match why_not_uuid(uuid) {
                Some(error) => cat3(&summary, ": ", &error),
                None => summary,
            },
            Failure::Unresolved { cause, .. } => cat3(&summary, ": ", &cause.message()),
            Failure::ZellijNotRun { cause } => cat3(&summary, ": ", &cause.message()),
            Failure::NotInRepository { cause } => cat3(&summary, ": ", &cause.message()),
            Failure::AddColumn { cause, .. } => cat3(&summary, ": ", &cause.message()),
            _ => summary,
        }
    }

    /// What the failure says by itself, without what caused it.
    pub fn summary(&self) -> (r: String)
        ensures
            r@ == summary_text(*self),
    {
        match self {
            Failure::CommandNotRun { action, .. } => cat2("Failed to run ", action),
            Failure::CommandFailed { action, status } => cat3(action, " failed with ", status),
            Failure::CommandFailedWith { action, stderr } => cat3(action, " failed: ", stderr),
            Failure::InvalidUtf8 { action, .. } => cat2(action, " returned invalid UTF-8"),
            Failure::StateQueryNotRun { .. } => "Failed to query Codespace state".to_string(),
            Failure::StateInvalidUtf8 { .. } => "Codespace state returned invalid UTF-8".to_string(),
            Failure::EmptyState { name } => cat3("Codespace '", name, "' returned an empty state"),
            Failure::StateQueryFailed { name, status } =>
                cat2(&cat3("Failed to query Codespace '", name, "' with "), status),
            Failure::StateQueryFailedWith { name, stderr } =>
                cat2(&cat3("Failed to query Codespace '", name, "': "), stderr),
            Failure::NoDefaultBranch => "The repository does not have a default branch".to_string(),
            Failure::InvalidLogin => "gh returned an invalid GitHub login".to_string(),
            Failure::InvalidCodespaceName { name } => cat2("Invalid Codespace name: ", name),
            Failure::InvalidWorkdir { workdir } =>
                cat2("Invalid Codespace workspace path: ", workdir),
            Failure::UnsafeRepository { repo } =>
                cat2("Invalid Codespace workspace path: /workspaces/", &after_last_slash(repo)),
            Failure::RepoForm => "GitHub repository must be in owner/name form".to_string(),
            Failure::InvalidUuid { uuid } => cat2("Invalid UUID: ", uuid),
            Failure::WrongAccount { current, expected } =>
                cat3(&cat5("Codespace belongs to GitHub account '", expected, "', but gh is using '", current, "'. Run `gh auth switch --user "), expected, "` first."),
            Failure::DuplicateDisplayName { display_name } =>
                cat3("Multiple Codespaces have display name '", display_name, "'"),
            Failure::CreateFailed { status } => cat2("gh codespace create failed with ", status),
            Failure::CreatedNotFound { session_name, uuid } =>
                cat3("gh codespace create succeeded, but csm could not find display name '", &codespace_display_name(session_name, uuid), "'. Locate it with `gh codespace list`."),
            Failure::Unresolved { session_name, uuid, .. } =>
                cat3("Could not resolve the Codespace named '", &codespace_display_name(session_name, uuid), "'. Locate it with `gh codespace list`."),
            Failure::UnexpectedZellijState { value } =>
                cat2("Unexpected remote Zellij state: ", value),
            Failure::UnexpectedReadiness { value } =>
                cat2("Unexpected remote Zellij readiness: ", value),
            Failure::CodespaceGone { name } => cat3("Codespace '", name, "' no longer exists"),
            Failure::MissingCodespaceName =>
                "Codespace session is missing its Codespace name".to_string(),
            Failure::MissingWorkdir =>
                "Codespace session is missing its remote workspace".to_string(),
            Failure::MissingAccount =>
                "Codespace session is missing its GitHub account".to_string(),
            Failure::Disappeared { uuid } => cat3("Session with UUID '", uuid, "' disappeared"),
            Failure::DisappearedInRefresh { uuid } =>
                cat3("Session with UUID '", uuid, "' disappeared during refresh"),
            Failure::DisappearedInRemoval { uuid } =>
                cat3("Session with UUID '", uuid, "' disappeared during removal"),
            Failure::EmptyName => "Session name cannot be empty".to_string(),
            Failure::NameCharacters =>
                "Session name must only contain alphanumeric characters, hyphens, or underscores".to_string(),
            Failure::NoSession { query } => cat3("No session found matching '", query, "'"),
            Failure::NotStarted { status, uuid } =>
                cat5("zellij exited with ", status, " before session '", &short_uuid(uuid), "' started"),
            Failure::ZellijNotRun { .. } => "Failed to run zellij".to_string(),
            Failure::ConnectingState =>
                "Remote Zellij state query returned an internal connecting state".to_string(),
            Failure::LayoutMissing =>
                "Remote Zellij is running without the required ai/git/edit layout".to_string(),
            Failure::SshAfterExit { status } =>
                cat3("SSH exited with ", status, " after remote Zellij exited"),
            Failure::SshMissing { status } =>
                cat3("SSH exited with ", status, " and remote Zellij is missing"),
            Failure::NotARepository => "Not inside a git repository".to_string(),
            Failure::NotText { error } => error.clone(),
            Failure::NotInRepository { .. } =>
                "Codespace sessions must be created from a Git repository".to_string(),
            Failure::BranchTaken { name } =>
                cat3("Aborted: branch '", &branch_for(name), "' already exists."),
            Failure::Removed { name } =>
                cat5("Session '", name, "' has been removed. Use `csm restore ", name, "` to recover."),
            Failure::AlreadyRunning { name } =>
                cat5("Session '", name, "' is already running. Use `csm attach ", name, "` to connect."),
            Failure::NotRunning { name } =>
                cat5("Session '", name, "' is not running. Use `csm start ", name, "` first."),
            Failure::Stopped { name } =>
                cat5("Session '", name, "' is stopped. Use `csm start ", name, "` first."),
            Failure::UnknownBackend { name, backend } =>
                cat5("Session '", name, "' has unknown backend '", backend, "'"),
            Failure::NoNames => "No session names provided".to_string(),
            Failure::NothingSpecified =>
                "No sessions specified: provide names, --interactive, or --older-than <DAYS>".to_string(),
            Failure::NotRemoved { name, status } =>
                cat5("Session '", name, "' is not removed (status: ", status, "). Use `csm attach` instead."),
            Failure::BranchGone { branch } => cat3("Branch '", branch, "' no longer exists"),
            Failure::SameName => "New name is the same as the old name".to_string(),
            Failure::NameTaken { name } => cat3("Session '", name, "' already exists"),
            Failure::DisappearedInRename => "Session disappeared during rename".to_string(),
            Failure::RenamedConcurrently { name } =>
                cat3("Session '", name, "' was renamed concurrently"),
            Failure::ChangedInRename { name } => cat3("Session '", name, "' changed during rename"),
            Failure::WorktreeNotRun { .. } => "Failed to create worktree".to_string(),
            Failure::WorktreeNotAdded { stderr } => cat2("git worktree add failed: ", stderr),
            Failure::WorktreeStays { path } => cat2("Failed to remove worktree at ", path),
            Failure::WorktreeStaysWith { path, stderr } =>
                cat2(&cat3("Failed to remove worktree at ", path, ": "), stderr),
            Failure::ConnectNotRun { .. } => "Failed to connect to remote Zellij".to_string(),
            Failure::NamesExhausted => "No unused session name is left".to_string(),
            Failure::UnexpectedReply => "The reply does not answer the request".to_string(),
            Failure::Outside { message } => message.clone(),
            Failure::Ambiguous { query, names } => {
                let count = to_decimal(names.len() as u64);
                let list = join(names, ", ");
                let head = cat5("Ambiguous identifier '", query, "' matches ", &count, " sessions: ");
                cat3(&head, &list, ". Use a longer prefix.")
            },
            Failure::StopFailures { count } => {
                cat3("Failed to stop ", &to_decimal(*count), " session(s)")
            },
            Failure::AddColumn { column, .. } => cat2("Failed to add sessions.", column_name(*column)),
            Failure::ExpectedOne { uuid, count } => {
                let found = to_decimal(*count);
                cat2(&cat3("Expected one session with UUID '", uuid, "', found "), &found)
            },
            Failure::DuplicateUuid { uuid, count } => {
                let found = to_decimal(*count);
                cat5("Found ", &found, " sessions with duplicate UUID '", uuid, "'")
            },
        }
    }
}

} // verus!
