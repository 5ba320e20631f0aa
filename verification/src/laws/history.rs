//! What is said of a run: which work was asked for before, and how it was answered.

use vstd::prelude::*;

use crate::failure::Failure;
use crate::flow::{Effect, Event};
use crate::gh::{GhCall, LauncherMode};

verus! {

/// Before place `k` the work `effect` was asked for and answered by `event`.
pub open spec fn answered(
    effects: Seq<Effect>,
    events: Seq<Event>,
    k: int,
    effect: Effect,
    event: Event,
) -> bool {
    exists|j: int| 0 <= j < k && #[trigger] effects[j] == effect && events[j] == event
}

/// Right before place `k` the work `effect` was asked for and answered by `event`.
pub open spec fn just_answered(
    effects: Seq<Effect>,
    events: Seq<Event>,
    k: int,
    effect: Effect,
    event: Event,
) -> bool {
    k > 0 && effects[k - 1] == effect && events[k - 1] == event
}

/// The work right before place `k` failed with `f`.
pub open spec fn just_failed(events: Seq<Event>, k: int, f: Failure) -> bool {
    k > 0 && events[k - 1] == Event::Failed(f)
}

/// The answer right before place `k` is of a kind that the work is not answered with.
pub open spec fn misanswered(effects: Seq<Effect>, events: Seq<Event>, k: int) -> bool {
    k > 0 && !fits(effects[k - 1], events[k - 1])
}

/// The call of `gh` is answered by an event of this kind where it succeeds.
pub open spec fn call_fits(call: GhCall, event: Event) -> bool {
    match call {
        GhCall::AuthStatus => event is Done,
        GhCall::Login => event is Text,
        GhCall::RepoView { .. } => event is Repo,
        GhCall::FindCreated { .. } => event is MaybeText,
        GhCall::ListStates => event is Listed,
        GhCall::Create { .. } => event is Exit,
        GhCall::Copy { .. } => event is Done,
        GhCall::Check { .. } => event is Done,
        GhCall::Launcher { mode: LauncherMode::State, .. } => event is Remote,
        GhCall::Launcher { mode: LauncherMode::Ready, .. } => event is Flag,
        GhCall::Launcher { .. } => event is Done,
        GhCall::Connect { .. } => event is Exit,
        GhCall::State { .. } => event is MaybeText,
        GhCall::Stop { .. } => event is Done,
        GhCall::Delete { .. } => event is Done,
    }
}

/// The work can be answered by an event of this kind: a failure, or what the work yields.
pub open spec fn fits(effect: Effect, event: Event) -> bool {
    event is Failed || match effect {
        Effect::FindByName { .. } | Effect::FindByUuid { .. } => event is Row,
        Effect::FindAllByUuid { .. } | Effect::AllSessions | Effect::ActiveSessions => event
            is Rows,
        Effect::Insert(_) | Effect::Resolve { .. } => event matches Event::Row(Some(_)),
        Effect::DeleteRow { .. } | Effect::DeleteByUuid { .. } | Effect::RefreshRow(_)
        | Effect::PruneOrphans { .. } => event is Count,
        Effect::SessionColumns => event is Columns,
        Effect::QueryZellij => event is Zellij,
        Effect::ZellijListed { .. } | Effect::BranchExists { .. } | Effect::DirExists { .. }
        | Effect::IsGitRepo { .. } | Effect::ConfirmResume { .. } | Effect::StopZellij { .. } =>
            event is Flag,
        Effect::Client(_) | Effect::Connect { .. } => event is Exit,
        Effect::WriteLauncher | Effect::WriteCodespaceLauncher | Effect::WriteConfig
        | Effect::WriteLayout { .. } | Effect::WriteCodespaceLayout { .. } | Effect::RepoRoot
        | Effect::CsmDir | Effect::CurrentDir | Effect::NewId | Effect::FreeName { .. }
        | Effect::CurrentState { .. } | Effect::Create { .. } => event is Text,
        Effect::CurrentBranch { .. } | Effect::GitRemoveWorktree { .. } => event is MaybeText,
        Effect::Gh(call) => call_fits(call, event),
        Effect::Candidates => event is Items,
        Effect::Pick { .. } => event is Picked,
        Effect::Now => event matches Event::At(at) && at.valid(),
        Effect::AskLauncher { mode: LauncherMode::State, .. } => event is Remote,
        Effect::AskLauncher { mode: LauncherMode::Ready, .. } => event is Flag,
        Effect::SetUp { .. } | Effect::Prepare(_) => event is Setup,
        _ => event is Done,
    }
}

} // verus!
