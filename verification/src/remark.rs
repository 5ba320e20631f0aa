//! What the user is told along the way: warnings, and what is about to happen.

use vstd::prelude::*;

use crate::failure::Failure;
use crate::flow::{Event, Flow};

verus! {

/// What a remark is about.
#[derive(Clone, Copy, Debug, PartialEq, Eq, Structural)]
pub enum Topic {
    /// A session is no longer stored when the user leaves it.
    MissingAfterDetach,
    /// A Codespace session is no longer stored when the user leaves it.
    MissingAfterExit,
    /// The connection broke while the remote session runs.
    SshExited,
    /// A Codespace was deleted, but its session is still stored.
    RecordNotRemoved,
    /// A Codespace stays, and whether it is on record is unknown.
    RecordNotInspected,
    /// A Codespace stays, and so does its session.
    SessionKept,
    /// A Codespace stays, and no name was found to record it under.
    RecordNotReserved,
    /// A Codespace stays, and is recorded as a removed session.
    RecordKept,
    /// A Codespace stays, and could not be recorded.
    RecordNotKept,
    /// A new Codespace could be neither connected to nor stopped.
    StopAfterConnection,
    /// A Codespace could be neither prepared for a start nor stopped.
    StopAfterSetup,
    /// The remote session could not be looked at before a start, nor its Codespace stopped.
    StopAfterStateCheck,
    /// The use of a session could not be noted at a start, nor its Codespace stopped.
    StopAfterUpdate,
    /// A started Codespace could be neither connected to nor stopped.
    StopAfterStart,
    /// A Codespace could be neither prepared for restoring nor stopped.
    StopAfterRestoreSetup,
    /// A session could not be stored as active, nor its Codespace stopped.
    StopAfterRestoreUpdate,
    /// A restored Codespace could be neither connected to nor stopped.
    StopAfterRestoreConnection,
    /// A session that could not be restored is still stored as active.
    NotMarkedRemoved,
    /// The latest changes were not pulled.
    PullFailed,
    /// The worktree of a failed run stays.
    RunNotCleanedUp,
    /// A named session was not found.
    NotResolved,
    /// A session to stop is removed.
    Removed,
    /// A zellij session did not end when it was stopped.
    StillPresent,
    /// A session to stop has no valid Codespace.
    InvalidDetails,
    /// A Codespace was not stopped.
    NotStopped,
    /// A session to stop has a backend that does not exist.
    UnknownBackend,
    /// A zellij session did not end when its session was removed.
    StillThere,
    /// The worktree of a removed session stays.
    WorktreeStays,
    /// The branch of a destroyed session stays.
    BranchStays,
    /// The remote session exited, so its Codespace is stopped.
    StoppingExited,
    /// The remote session is gone, so its Codespace is stopped.
    StoppingClosed,
    /// A Codespace is about to be created.
    CreatingCodespace,
    /// A Codespace was created.
    CreatedCodespace,
    /// A Codespace session is ready.
    CreatedCodespaceSession,
    /// A new Codespace session is about to be connected to.
    ConnectingDirectly,
    /// Another session has the asked name.
    NameInUse,
    /// A removed Codespace session has the asked name.
    NameRetained,
    /// A session runs in the current directory, as asked.
    RunningDirectly,
    /// A session runs in the current directory, for want of a repository.
    NoRepository,
    /// The latest changes are about to be pulled.
    Pulling,
    /// A session was created.
    Created,
    /// A session is about to be started.
    Starting,
    /// A Codespace session is about to be started.
    StartingRemote,
    /// A local session is about to be attached to.
    Attaching,
    /// A Codespace session is about to be attached to.
    AttachingRemote,
    /// A session was restored.
    Restored,
    /// A Codespace session was restored.
    RestoredRemote,
}

/// The text of a topic.
pub open spec fn topic_text(topic: Topic) -> Seq<char> {
    match topic {
        Topic::MissingAfterDetach =>
            "Session missing from database after detach; Zellij session may be orphaned"@,
        Topic::MissingAfterExit => "Session missing from database after remote Zellij exited"@,
        Topic::SshExited => "SSH exited but remote Zellij session is still running"@,
        Topic::RecordNotRemoved => "Deleted Codespace but failed to remove its session record"@,
        Topic::RecordNotInspected =>
            "Failed to delete Codespace and inspect its cleanup record; manual deletion may be required"@,
        Topic::SessionKept =>
            "Failed to delete Codespace; retained session so cleanup can be retried with csm remove -f"@,
        Topic::RecordNotReserved =>
            "Failed to delete untracked Codespace or reserve a cleanup record; manual deletion may be required"@,
        Topic::RecordKept =>
            "Failed to delete Codespace; retained cleanup record for csm remove -f"@,
        Topic::RecordNotKept =>
            "Failed to delete untracked Codespace or persist a cleanup record; manual deletion may be required"@,
        Topic::StopAfterConnection => "Failed to stop Codespace after connection failed"@,
        Topic::StopAfterSetup => "Failed to stop Codespace after setup failed"@,
        Topic::StopAfterStateCheck => "Failed to stop Codespace after state check failed"@,
        Topic::StopAfterUpdate => "Failed to stop Codespace after database update failed"@,
        Topic::StopAfterStart => "Failed to stop Codespace after start failed"@,
        Topic::StopAfterRestoreSetup => "Failed to stop Codespace after restore setup failed"@,
        Topic::StopAfterRestoreUpdate =>
            "Failed to stop Codespace after restore database update failed"@,
        Topic::StopAfterRestoreConnection =>
            "Failed to stop Codespace after restore connection failed"@,
        Topic::NotMarkedRemoved =>
            "Failed to return session to removed state after connection failed"@,
        Topic::PullFailed => "Failed to pull latest changes; continuing"@,
        Topic::RunNotCleanedUp => "Cleanup after failed run did not complete"@,
        Topic::NotResolved => "Could not resolve session; skipping"@,
        Topic::Removed => "Session has been removed; skipping"@,
        Topic::StillPresent =>
            "Zellij session did not exit within timeout and may still be present"@,
        Topic::InvalidDetails => "Codespace session details are invalid"@,
        Topic::NotStopped => "Failed to stop Codespace session"@,
        Topic::UnknownBackend => "Session has unknown backend"@,
        Topic::StillThere => "Zellij session did not exit within timeout; continuing with removal"@,
        Topic::WorktreeStays => "Failed to remove worktree; continuing with session removal"@,
        Topic::BranchStays => "Failed to delete branch; continuing with session removal"@,
        Topic::StoppingExited => "Stopping Codespace after remote Zellij exited"@,
        Topic::StoppingClosed => "Stopping Codespace after remote Zellij closed"@,
        Topic::CreatingCodespace => "Creating Codespace from default branch"@,
        Topic::CreatedCodespace => "Created Codespace; preparing remote environment"@,
        Topic::CreatedCodespaceSession => "Created Codespace session"@,
        Topic::ConnectingDirectly => "Connecting directly to remote Zellij"@,
        Topic::NameInUse => "Session name is already in use; selected a unique name"@,
        Topic::NameRetained =>
            "Removed Codespace session is still retained; selected a unique name"@,
        Topic::RunningDirectly => "Running directly without a worktree"@,
        Topic::NoRepository => "Not in a Git repository; running without a worktree"@,
        Topic::Pulling => "Pulling latest changes from default branch"@,
        Topic::Created => "Created session"@,
        Topic::Starting => "Starting session"@,
        Topic::StartingRemote => "Starting remote Zellij session"@,
        Topic::Attaching => "Attaching to local Zellij session"@,
        Topic::AttachingRemote => "Attaching to remote Zellij session"@,
        Topic::Restored => "Restored session"@,
        Topic::RestoredRemote => "Restored remote Zellij session"@,
    }
}

/// The topic is something that went wrong, not something that is about to happen or was done.
pub open spec fn is_trouble(topic: Topic) -> bool {
    match topic {
        Topic::StoppingExited | Topic::StoppingClosed | Topic::CreatingCodespace
        | Topic::CreatedCodespace | Topic::CreatedCodespaceSession | Topic::ConnectingDirectly
        | Topic::NameInUse | Topic::NameRetained | Topic::RunningDirectly | Topic::NoRepository
        | Topic::Pulling | Topic::Created | Topic::Starting | Topic::StartingRemote
        | Topic::Attaching | Topic::AttachingRemote | Topic::Restored | Topic::RestoredRemote => false,
        _ => true,
    }
}

impl Topic {
    /// The text of the topic.
    pub fn message(&self) -> (r: &'static str)
        ensures
            r@ == topic_text(*self),
    {
        match self {
            Topic::MissingAfterDetach =>
                "Session missing from database after detach; Zellij session may be orphaned",
            Topic::MissingAfterExit => "Session missing from database after remote Zellij exited",
            Topic::SshExited => "SSH exited but remote Zellij session is still running",
            Topic::RecordNotRemoved => "Deleted Codespace but failed to remove its session record",
            Topic::RecordNotInspected =>
                "Failed to delete Codespace and inspect its cleanup record; manual deletion may be required",
            Topic::SessionKept =>
                "Failed to delete Codespace; retained session so cleanup can be retried with csm remove -f",
            Topic::RecordNotReserved =>
                "Failed to delete untracked Codespace or reserve a cleanup record; manual deletion may be required",
            Topic::RecordKept =>
                "Failed to delete Codespace; retained cleanup record for csm remove -f",
            Topic::RecordNotKept =>
                "Failed to delete untracked Codespace or persist a cleanup record; manual deletion may be required",
            Topic::StopAfterConnection => "Failed to stop Codespace after connection failed",
            Topic::StopAfterSetup => "Failed to stop Codespace after setup failed",
            Topic::StopAfterStateCheck => "Failed to stop Codespace after state check failed",
            Topic::StopAfterUpdate => "Failed to stop Codespace after database update failed",
            Topic::StopAfterStart => "Failed to stop Codespace after start failed",
            Topic::StopAfterRestoreSetup => "Failed to stop Codespace after restore setup failed",
            Topic::StopAfterRestoreUpdate =>
                "Failed to stop Codespace after restore database update failed",
            Topic::StopAfterRestoreConnection =>
                "Failed to stop Codespace after restore connection failed",
            Topic::NotMarkedRemoved =>
                "Failed to return session to removed state after connection failed",
            Topic::PullFailed => "Failed to pull latest changes; continuing",
            Topic::RunNotCleanedUp => "Cleanup after failed run did not complete",
            Topic::NotResolved => "Could not resolve session; skipping",
            Topic::Removed => "Session has been removed; skipping",
            Topic::StillPresent =>
                "Zellij session did not exit within timeout and may still be present",
            Topic::InvalidDetails => "Codespace session details are invalid",
            Topic::NotStopped => "Failed to stop Codespace session",
            Topic::UnknownBackend => "Session has unknown backend",
            Topic::StillThere => "Zellij session did not exit within timeout; continuing with removal",
            Topic::WorktreeStays => "Failed to remove worktree; continuing with session removal",
            Topic::BranchStays => "Failed to delete branch; continuing with session removal",
            Topic::StoppingExited => "Stopping Codespace after remote Zellij exited",
            Topic::StoppingClosed => "Stopping Codespace after remote Zellij closed",
            Topic::CreatingCodespace => "Creating Codespace from default branch",
            Topic::CreatedCodespace => "Created Codespace; preparing remote environment",
            Topic::CreatedCodespaceSession => "Created Codespace session",
            Topic::ConnectingDirectly => "Connecting directly to remote Zellij",
            Topic::NameInUse => "Session name is already in use; selected a unique name",
            Topic::NameRetained =>
                "Removed Codespace session is still retained; selected a unique name",
            Topic::RunningDirectly => "Running directly without a worktree",
            Topic::NoRepository => "Not in a Git repository; running without a worktree",
            Topic::Pulling => "Pulling latest changes from default branch",
            Topic::Created => "Created session",
            Topic::Starting => "Starting session",
            Topic::StartingRemote => "Starting remote Zellij session",
            Topic::Attaching => "Attaching to local Zellij session",
            Topic::AttachingRemote => "Attaching to remote Zellij session",
            Topic::Restored => "Restored session",
            Topic::RestoredRemote => "Restored remote Zellij session",
        }
    }

    /// Whether the topic is something that went wrong.
    pub fn is_warning(&self) -> (r: bool)
        ensures
            r == is_trouble(*self),
    {
        match self {
            Topic::StoppingExited | Topic::StoppingClosed | Topic::CreatingCodespace
            | Topic::CreatedCodespace | Topic::CreatedCodespaceSession | Topic::ConnectingDirectly
            | Topic::NameInUse | Topic::NameRetained | Topic::RunningDirectly | Topic::NoRepository
            | Topic::Pulling | Topic::Created | Topic::Starting | Topic::StartingRemote
            | Topic::Attaching | Topic::AttachingRemote | Topic::Restored | Topic::RestoredRemote => false,
            _ => true,
        }
    }
}

/// A remark: its topic, and what it speaks of. The detail is a path, a branch, a status, a
/// backend or the text that the user gave, as the topic has it. The errors are failures that
/// were met before; the fault is one that was found in the session itself.
#[derive(Debug)]
pub struct Remark<'a> {
    pub topic: Topic,
    pub name: Option<&'a String>,
    pub uuid: Option<&'a String>,
    pub codespace: Option<&'a String>,
    pub repository: Option<&'a String>,
    pub detail: Option<&'a String>,
    pub error: Option<&'a Failure>,
    pub delete_error: Option<&'a Failure>,
    pub fault: Option<Failure>,
}

/// A remark that speaks of nothing in particular.
pub open spec fn bare<'a>(topic: Topic) -> Remark<'a> {
    Remark {
        topic,
        name: None,
        uuid: None,
        codespace: None,
        repository: None,
        detail: None,
        error: None,
        delete_error: None,
        fault: None,
    }
}

/// Make a remark that speaks of nothing in particular.
#[verifier::when_used_as_spec(bare)]
pub fn remark<'a>(topic: Topic) -> (r: Remark<'a>)
    ensures
        r == bare(topic),
{
    Remark {
        topic,
        name: None,
        uuid: None,
        codespace: None,
        repository: None,
        detail: None,
        error: None,
        delete_error: None,
        fault: None,
    }
}

/// Make a list of one remark.
pub fn one<'a>(remark: Remark<'a>) -> (r: Vec<Remark<'a>>)
    ensures
        r@ == seq![remark],
{
    let mut list: Vec<Remark<'a>> = Vec::new();
    list.push(remark);
    assert(list@ =~= seq![remark]);
    list
}

/// Make a list of two remarks.
pub fn both<'a>(first: Remark<'a>, second: Remark<'a>) -> (r: Vec<Remark<'a>>)
    ensures
        r@ == seq![first, second],
{
    let mut list: Vec<Remark<'a>> = Vec::new();
    list.push(first);
    list.push(second);
    assert(list@ =~= seq![first, second]);
    list
}

/// A flow that makes remarks.
pub trait Narrated: Flow {
    /// What is remarked when `event` comes in this state, before what comes next.
    spec fn told<'a>(&'a self, event: &'a Event) -> Seq<Remark<'a>>;

    /// The remarks for `event`.
    fn remarks<'a>(&'a self, event: &'a Event) -> (r: Vec<Remark<'a>>)
        ensures
            r@ == self.told(event),
    ;
}

} // verus!
