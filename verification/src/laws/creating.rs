//! Laws of creating sessions.

use vstd::prelude::*;

use crate::commands::run::{run_begin, RunFlow};
use crate::commands::{
    session_name as is_session_name, NameBase, NewSession, BACKEND_CODESPACE, STATUS_ACTIVE,
};
use crate::entity::session::Model;
use crate::failure::Failure;
use crate::flow::{is_run, Effect, Event, Flow};
use crate::git::{BranchRef, Dir};
use crate::laws::history::{answered, just_answered, just_failed, misanswered};
use crate::remark::{bare, Narrated, Remark, Topic};

verus! {

// ── Local sessions ──────────────────────────────────────────────────────────

/// A new session cannot take the name of this one: it is active, or it has a Codespace.
pub open spec fn keeps_its_name(session: Model) -> bool {
    session.status@ == STATUS_ACTIVE@ || session.backend@ == BACKEND_CODESPACE@
}

/// The session gets the name `chosen` where `name` was asked for: `name` itself if no session
/// had it or the one that had it was deleted, and else the free name that was found for it.
pub open spec fn is_chosen(
    effects: Seq<Effect>,
    events: Seq<Event>,
    name: String,
    chosen: String,
) -> bool {
    match events[0] {
        Event::Row(None) => chosen == name,
        Event::Row(Some(existing)) => if keeps_its_name(existing) {
            effects[1] == (Effect::FreeName { base: NameBase::Asked(name) }) && events[1]
                == Event::Text(chosen)
        } else {
            effects[1] == (Effect::DeleteByName { name }) && events[1] == Event::Done && chosen
                == name
        },
        _ => false,
    }
}

/// The directory was found as the current one before place `k`.
pub open spec fn is_current(effects: Seq<Effect>, events: Seq<Event>, k: int, dir: Dir) -> bool {
    dir matches Dir::At(cwd) && answered(effects, events, k, Effect::CurrentDir, Event::Text(cwd))
}

/// The directory is that of a worktree for the UUID, the repository and the data directory that
/// were found before place `k`.
pub open spec fn is_own_worktree(
    effects: Seq<Effect>,
    events: Seq<Event>,
    k: int,
    dir: Dir,
    root: String,
) -> bool {
    dir matches Dir::Worktree { csm_dir, repo_root, uuid } && repo_root == root && answered(
        effects,
        events,
        k,
        Effect::CsmDir,
        Event::Text(csm_dir),
    ) && answered(effects, events, k, Effect::RepoRoot, Event::Text(repo_root)) && answered(
        effects,
        events,
        k,
        Effect::NewId,
        Event::Text(uuid),
    )
}

/// What a run knows once it has chosen a name and drawn a UUID.
spec fn knows(
    effects: Seq<Effect>,
    events: Seq<Event>,
    k: int,
    name: String,
    chosen: String,
    uuid: String,
) -> bool {
    is_chosen(effects, events, name, chosen) && answered(
        effects,
        events,
        k,
        Effect::NewId,
        Event::Text(uuid),
    ) && k >= 2 && (events[0] == Event::Row(None) || k >= 3)
}

/// What a run knows once it has found the data directory and the repository.
spec fn knows_root(
    effects: Seq<Effect>,
    events: Seq<Event>,
    k: int,
    csm_dir: String,
    root: String,
) -> bool {
    answered(effects, events, k, Effect::CsmDir, Event::Text(csm_dir)) && answered(
        effects,
        events,
        k,
        Effect::RepoRoot,
        Event::Text(root),
    )
}

/// The place `j` stores a local session with these fields, and the place before it asked whether
/// its directory is in a repository.
spec fn stores(
    effects: Seq<Effect>,
    events: Seq<Event>,
    j: int,
    chosen: String,
    uuid: String,
    source_repo: String,
    dir: Dir,
    owned: bool,
) -> bool {
    &&& j > 2
    &&& effects[j] matches Effect::Insert(
        NewSession::Local { name: n, branch, uuid: u, source_repo: r, dir: d },
    )
    &&& n == chosen && u == uuid && r == source_repo && d == dir && (branch is Some <==> owned)
    &&& effects[j - 1] == (Effect::IsGitRepo { dir })
    &&& events[j - 1] is Flag
}

/// The directory and the repository of a session were found in this way before place `k`, where
/// place `k` asks whether the directory is in a repository.
spec fn is_placed(
    effects: Seq<Effect>,
    events: Seq<Event>,
    k: int,
    here: bool,
    source_repo: String,
    dir: Dir,
    owned: bool,
) -> bool {
    if owned {
        &&& !here
        &&& is_own_worktree(effects, events, k, dir, source_repo)
        &&& effects[k - 1] matches Effect::CreateWorktree { dir: d, .. } && d == dir
        &&& events[k - 1] == Event::Done
    } else {
        &&& is_current(effects, events, k, dir)
        &&& if here {
            effects[k - 1] is RepoRoot && match events[k - 1] {
                Event::Text(root) => source_repo == root,
                Event::Failed(_) => dir == Dir::At(source_repo),
                _ => false,
            }
        } else {
            k > 1 && dir == Dir::At(source_repo) && effects[k - 1] is CurrentDir && effects[k - 2]
                is RepoRoot && events[k - 2] is Failed
        }
    }
}

#[verifier::rlimit(40)]
#[verifier::spinoff_prover]
proof fn running_remembers(
    name: String,
    here: bool,
    use_codespace: bool,
    states: Seq<RunFlow>,
    effects: Seq<Effect>,
    events: Seq<Event>,
    k: int,
)
    requires
        is_run(states, effects, events),
        (states[0], effects[0]) == run_begin(name, here, use_codespace),
        0 <= k < effects.len(),
    ensures
        match states[k] {
            RunFlow::Find { name: n, here: h, use_codespace: c } => k == 0 && n == name && h == here
                && c == use_codespace && effects[k] is FindByName,
            RunFlow::Free { name: n, here: h, use_codespace: c, active } => k == 1 && n == name && h
                == here && c == use_codespace && effects[k] == (Effect::FreeName {
                base: NameBase::Asked(name),
            }) && (events[0] matches Event::Row(Some(x)) && keeps_its_name(x) && (active
                <==> x.status@ == STATUS_ACTIVE@)),
            RunFlow::Reclaim { name: n, here: h, use_codespace: c } => k == 1 && n == name && h
                == here && c == use_codespace && effects[k] == (Effect::DeleteByName { name })
                && (events[0] matches Event::Row(Some(x)) && !keeps_its_name(x)),
            RunFlow::Id { session_name, name: n, here: h, use_codespace: c } => n == name && h
                == here && c == use_codespace && effects[k] is NewId && is_chosen(
                effects,
                events,
                name,
                session_name,
            ) && k >= 1 && (events[0] == Event::Row(None) && k == 1 || k == 2),
            RunFlow::Remote => effects[k] is RunCodespace,
            RunFlow::CsmDir { session_name, name: n, uuid, here: h } => n == name && h == here
                && !use_codespace && effects[k] is CsmDir && knows(
                effects,
                events,
                k,
                name,
                session_name,
                uuid,
            ),
            RunFlow::Here { session_name, uuid } => here && effects[k] is CurrentDir && knows(
                effects,
                events,
                k,
                name,
                session_name,
                uuid,
            ) && !use_codespace,
            RunFlow::HereRoot { session_name, uuid, cwd } => here && effects[k] is RepoRoot
                && knows(effects, events, k, name, session_name, uuid) && is_current(
                effects,
                events,
                k,
                Dir::At(cwd),
            ) && !use_codespace,
            RunFlow::Root { session_name, name: n, uuid, csm_dir } => !here && n == name
                && effects[k] is RepoRoot && knows(effects, events, k, name, session_name, uuid)
                && answered(effects, events, k, Effect::CsmDir, Event::Text(csm_dir))
                && !use_codespace,
            RunFlow::Bare { session_name, uuid } => !here && effects[k] is CurrentDir && knows(
                effects,
                events,
                k,
                name,
                session_name,
                uuid,
            ) && effects[k - 1] is RepoRoot && events[k - 1] is Failed && !use_codespace,
            RunFlow::Branch { session_name, name: n, uuid, csm_dir, root } => !here && n == name
                && effects[k] == (Effect::CurrentBranch { dir: Dir::At(root) }) && knows(
                effects,
                events,
                k,
                name,
                session_name,
                uuid,
            ) && knows_root(effects, events, k, csm_dir, root) && !use_codespace,
            RunFlow::Pull { session_name, name: n, uuid, csm_dir, root } => !here && n == name
                && effects[k] is Pull && knows(effects, events, k, name, session_name, uuid)
                && knows_root(effects, events, k, csm_dir, root) && !use_codespace,
            RunFlow::Exists { session_name, name: n, uuid, csm_dir, root } => !here && n == name
                && effects[k] is BranchExists && knows(
                effects,
                events,
                k,
                name,
                session_name,
                uuid,
            ) && knows_root(effects, events, k, csm_dir, root) && !use_codespace,
            RunFlow::Confirm { session_name, name: n, uuid, csm_dir, root } => !here && n == name
                && effects[k] == (Effect::ConfirmResume { name }) && knows(
                effects,
                events,
                k,
                name,
                session_name,
                uuid,
            ) && knows_root(effects, events, k, csm_dir, root) && !use_codespace,
            RunFlow::Create { session_name, name: n, uuid, csm_dir, root } => !here && n == name
                && (effects[k] matches Effect::CreateWorktree { dir, .. } && dir
                == (Dir::Worktree { csm_dir, repo_root: root, uuid })) && knows(
                effects,
                events,
                k,
                name,
                session_name,
                uuid,
            ) && knows_root(effects, events, k, csm_dir, root) && !use_codespace,
            RunFlow::IsGit { session_name, branch, uuid, source_repo, dir, owned } => {
                &&& effects[k] == (Effect::IsGitRepo { dir })
                &&& knows(effects, events, k, name, session_name, uuid)
                &&& !use_codespace && k > 2
                &&& is_placed(effects, events, k, here, source_repo, dir, owned)
                &&& owned ==> branch == Some(name) && (dir matches Dir::Worktree { uuid: u, .. }
                    && u == uuid)
                &&& !owned ==> branch is None
            },
            RunFlow::Insert { session_name, uuid, source_repo, dir, owned, include_git } => {
                &&& stores(effects, events, k, session_name, uuid, source_repo, dir, owned)
                &&& events[k - 1] == Event::Flag(include_git)
                &&& !use_codespace
                &&& is_placed(effects, events, k - 1, here, source_repo, dir, owned)
            },
            RunFlow::Start { session_name, uuid, source_repo, dir, owned } => {
                &&& stores(effects, events, k - 1, session_name, uuid, source_repo, dir, owned)
                &&& !use_codespace && k > 3
                &&& is_placed(effects, events, k - 2, here, source_repo, dir, owned)
                &&& effects[k] matches Effect::StartLocal { session_name: n, uuid: u, dir: d, .. }
                &&& n == session_name && u == uuid && d == dir
            },
            RunFlow::Forget { failure, session_name, uuid, source_repo, dir, owned } => {
                &&& stores(effects, events, k - 2, session_name, uuid, source_repo, dir, owned)
                &&& k > 4
                &&& effects[k] == (Effect::DeleteByName { name: session_name })
                &&& effects[k - 1] matches Effect::StartLocal { session_name: n, uuid: u, dir: d, .. }
                &&& n == session_name && u == uuid && d == dir
                &&& events[k - 1] == Event::Failed(failure)
            },
            RunFlow::Files { failure, session_name, uuid, source_repo, dir, owned } => {
                &&& stores(effects, events, k - 3, session_name, uuid, source_repo, dir, owned)
                &&& k > 5
                &&& effects[k] == (Effect::CleanupFiles { uuid })
                &&& effects[k - 1] == (Effect::DeleteByName { name: session_name })
                &&& effects[k - 2] matches Effect::StartLocal { session_name: n, uuid: u, dir: d, .. }
                &&& n == session_name && u == uuid && d == dir
                &&& events[k - 2] == Event::Failed(failure)
            },
            RunFlow::Worktree { failure, session_name, uuid } => {
                &&& k > 6
                &&& effects[k] is RemoveWorktree
                &&& effects[k - 1] == (Effect::CleanupFiles { uuid })
                &&& effects[k - 2] == (Effect::DeleteByName { name: session_name })
                &&& effects[k - 3] is StartLocal
                &&& events[k - 3] == Event::Failed(failure)
            },
            RunFlow::Over => effects[k] is Finish,
        },
    decreases k,
{
    if k > 0 {
        running_remembers(name, here, use_codespace, states, effects, events, k - 1);
        assert(states[k - 1].leads_to(events[k - 1], states[k], effects[k]));
        assert(effects[k - 1] !is Finish);
    }
}

/// What `run` asks for.
///
/// Only a session name is accepted. The session takes it, or a free one where a session keeps it.
/// With `--codespace` all else is left to the creation of a Codespace. Otherwise the session is
/// stored in the current directory if that was asked for or if there is no repository; and else
/// in a worktree of its own, named after its UUID, on the branch of the requested name, which is
/// a new branch exactly if it was just seen not to exist. On `main` and on `master` the latest
/// changes are pulled first. The session that was just stored is started, under its own name and
/// UUID and in its own directory, as a new one, with a git tab exactly if that directory was just
/// seen to be in a repository. If that fails, its record, its files and its worktree are removed,
/// and the failure is passed on.
#[verifier::rlimit(40)]
#[verifier::spinoff_prover]
pub proof fn run_creates_the_session(
    name: String,
    here: bool,
    use_codespace: bool,
    states: Seq<RunFlow>,
    effects: Seq<Effect>,
    events: Seq<Event>,
    k: int,
)
    requires
        is_run(states, effects, events),
        (states[0], effects[0]) == run_begin(name, here, use_codespace),
        0 <= k < effects.len(),
    ensures
        match effects[k] {
            Effect::FindByName { name: n } => k == 0 && n == name && is_session_name(name@),
            Effect::FreeName { base } => k == 1 && base == NameBase::Asked(name) && (events[0]
                matches Event::Row(Some(existing)) && keeps_its_name(existing)),
            Effect::DeleteByName { name: n } => {
                ||| k == 1 && n == name && (events[0] matches Event::Row(Some(existing))
                    && !keeps_its_name(existing))
                ||| k > 1 && (effects[k - 1] matches Effect::StartLocal { session_name, .. }
                    && session_name == n) && events[k - 1] is Failed
            },
            Effect::NewId => k == 1 && events[0] == Event::Row(None) || k == 2 && (effects[1]
                is FreeName && events[1] is Text || effects[1] is DeleteByName && events[1]
                == Event::Done),
            Effect::RunCodespace { session_name, uuid } => use_codespace && is_chosen(
                effects,
                events,
                name,
                session_name,
            ) && just_answered(effects, events, k, Effect::NewId, Event::Text(uuid)),
            Effect::CsmDir => !use_codespace && k > 0 && effects[k - 1] is NewId && events[k - 1]
                is Text,
            Effect::CurrentDir => {
                &&& k > 0
                &&& if here {
                    effects[k - 1] is CsmDir && events[k - 1] is Text
                } else {
                    effects[k - 1] is RepoRoot && events[k - 1] is Failed
                }
            },
            Effect::RepoRoot => {
                &&& k > 0 && events[k - 1] is Text
                &&& if here {
                    effects[k - 1] is CurrentDir
                } else {
                    effects[k - 1] is CsmDir
                }
            },
            Effect::CurrentBranch { dir } => !here && (dir matches Dir::At(root) && just_answered(
                effects,
                events,
                k,
                Effect::RepoRoot,
                Event::Text(root),
            )),
            Effect::Pull { dir } => k > 0 && effects[k - 1] == (Effect::CurrentBranch { dir }) && (
            events[k - 1] matches Event::MaybeText(Some(current)) && (current@ == "main"@
                || current@ == "master"@)),
            Effect::BranchExists { branch, repo } => {
                &&& k > 0 && branch == (BranchRef::For { name }) && repo is None
                &&& effects[k - 1] is Pull || effects[k - 1] is CurrentBranch && match events[k - 1] {
                    Event::MaybeText(None) => true,
                    Event::MaybeText(Some(current)) => current@ != "main"@ && current@
                        != "master"@,
                    _ => false,
                }
            },
            Effect::ConfirmResume { name: n } => n == name && k > 0 && effects[k - 1]
                is BranchExists && events[k - 1] == Event::Flag(true),
            Effect::CreateWorktree { dir, branch, new_branch, repo } => {
                &&& k > 0 && !here && branch == (BranchRef::For { name }) && repo is None
                &&& dir matches Dir::Worktree { repo_root, .. } && is_own_worktree(
                    effects,
                    events,
                    k,
                    dir,
                    repo_root,
                )
                &&& if new_branch {
                    effects[k - 1] is BranchExists && events[k - 1] == Event::Flag(false)
                } else {
                    effects[k - 1] is ConfirmResume && events[k - 1] == Event::Flag(true)
                }
            },
            Effect::IsGitRepo { dir } => {
                &&& k > 1
                &&& match effects[k - 1] {
                    Effect::CreateWorktree { dir: d, .. } => d == dir && events[k - 1]
                        == Event::Done,
                    Effect::CurrentDir => !here && (dir matches Dir::At(cwd) && events[k - 1]
                        == Event::Text(cwd)),
                    Effect::RepoRoot => here && (events[k - 1] is Text || events[k - 1] is Failed)
                        && is_current(effects, events, k, dir),
                    _ => false,
                }
            },
            Effect::Insert(
                NewSession::Local { name: n, branch, uuid, source_repo, dir },
            ) => {
                &&& k > 2 && !use_codespace
                &&& is_chosen(effects, events, name, n)
                &&& answered(effects, events, k, Effect::NewId, Event::Text(uuid))
                &&& effects[k - 1] == (Effect::IsGitRepo { dir })
                &&& events[k - 1] is Flag
                &&& match branch {
                    Some(asked) => {
                        &&& asked == name && !here
                        &&& dir matches Dir::Worktree { uuid: u, .. } && u == uuid
                        &&& is_own_worktree(effects, events, k, dir, source_repo)
                        &&& effects[k - 2] matches Effect::CreateWorktree { dir: d, .. } && d == dir
                        &&& events[k - 2] == Event::Done
                    },
                    None => {
                        &&& is_current(effects, events, k, dir)
                        &&& if here && events[k - 2] is Text {
                            events[k - 2] == Event::Text(source_repo) && effects[k - 2] is RepoRoot
                        } else {
                            dir == Dir::At(source_repo)
                        }
                    },
                }
            },
            Effect::StartLocal { session_name, uuid, dir, resume, include_git } => {
                &&& k > 3 && !resume
                &&& effects[k - 1] matches Effect::Insert(
                    NewSession::Local { name: n, uuid: u, dir: d, .. },
                )
                &&& n == session_name && u == uuid && d == dir
                &&& events[k - 1] matches Event::Row(Some(_))
                &&& effects[k - 2] == (Effect::IsGitRepo { dir })
                &&& events[k - 2] == Event::Flag(include_git)
                &&& effects[k - 3] matches Effect::CreateWorktree { dir: made, .. } ==> made == dir
            },
            Effect::CleanupFiles { uuid } => {
                &&& k > 1
                &&& effects[k - 1] is DeleteByName
                &&& effects[k - 2] matches Effect::StartLocal { uuid: u, .. } && u == uuid
                &&& events[k - 2] is Failed
            },
            Effect::RemoveWorktree { repo, dir } => {
                &&& k > 5
                &&& effects[k - 1] is CleanupFiles
                &&& effects[k - 3] matches Effect::StartLocal { dir: d, .. } && d == dir
                &&& events[k - 3] is Failed
                &&& effects[k - 4] matches Effect::Insert(
                    NewSession::Local { branch, source_repo, .. },
                ) && branch is Some && source_repo == repo
            },
            Effect::Finish(Event::Done) => k > 0 && events[k - 1] == Event::Done && (effects[k - 1]
                is StartLocal || effects[k - 1] is RunCodespace),
            Effect::Finish(Event::Failed(f)) => {
                ||| k == 0 && !is_session_name(name@) && f == (if name@.len() == 0 {
                    Failure::EmptyName
                } else {
                    Failure::NameCharacters
                })
                ||| just_failed(events, k, f) && match effects[k - 1] {
                    Effect::StartLocal { .. } | Effect::Pull { .. } | Effect::RepoRoot
                    | Effect::CleanupFiles { .. } | Effect::RemoveWorktree { .. } => false,
                    Effect::DeleteByName { .. } => k == 2,
                    _ => true,
                }
                ||| k > 0 && f == Failure::UnexpectedReply && misanswered(effects, events, k)
                ||| k > 0 && f == (Failure::BranchTaken { name }) && effects[k - 1]
                    is ConfirmResume && events[k - 1] == Event::Flag(false)
                ||| k > 3 && effects[k - 1] is RemoveWorktree && effects[k - 4] is StartLocal
                    && events[k - 4] == Event::Failed(f)
                ||| k > 3 && effects[k - 1] is CleanupFiles && effects[k - 3] is StartLocal
                    && events[k - 3] == Event::Failed(f) && (effects[k - 4] matches Effect::Insert(
                    NewSession::Local { branch, .. },
                ) && branch is None)
            },
            _ => false,
        },
{
    running_remembers(name, here, use_codespace, states, effects, events, k);
    if k > 0 {
        running_remembers(name, here, use_codespace, states, effects, events, k - 1);
        assert(states[k - 1].leads_to(events[k - 1], states[k], effects[k]));
        assert(effects[k - 1] !is Finish);
    }
}

/// The remark speaks of the session under the name and the UUID that were chosen for it.
pub open spec fn speaks_of_run(
    remark: Remark,
    effects: Seq<Effect>,
    events: Seq<Event>,
    k: int,
    name: String,
) -> bool {
    &&& remark.name matches Some(chosen) && is_chosen(effects, events, name, *chosen)
    &&& remark.uuid matches Some(uuid) && answered(
        effects,
        events,
        k,
        Effect::NewId,
        Event::Text(*uuid),
    )
}

/// What `run` says on its way, each of it once it holds: which other name the session has, and
/// whether that is because the asked one is in use or kept; that it runs in the current directory,
/// as asked or for want of a repository; that changes are pulled, or could not be; that it was
/// created; and that its worktree could not be removed after a failed start. It says nothing else.
#[verifier::rlimit(40)]
#[verifier::spinoff_prover]
pub proof fn run_tells_its_steps(
    name: String,
    here: bool,
    use_codespace: bool,
    states: Seq<RunFlow>,
    effects: Seq<Effect>,
    events: Seq<Event>,
    k: int,
)
    requires
        is_run(states, effects, events),
        (states[0], effects[0]) == run_begin(name, here, use_codespace),
        0 <= k < events.len(),
    ensures
        ({
            let told = states[k].told(&events[k]);
            let one = |topic: Topic| told.len() == 1 && told[0] == (Remark {
                name: told[0].name,
                uuid: told[0].uuid,
                detail: told[0].detail,
                error: told[0].error,
                ..bare(topic)
            });
            let of_run = |topic: Topic| one(topic) && speaks_of_run(
                told[0],
                effects,
                events,
                k,
                name,
            );
            match (effects[k], events[k]) {
                (Effect::FreeName { .. }, Event::Text(unique)) => told == seq![
                    Remark {
                        name: Some(&unique),
                        detail: Some(&name),
                        ..bare(
                            if events[0] matches Event::Row(Some(other)) && other.status@
                                == STATUS_ACTIVE@ {
                                Topic::NameInUse
                            } else {
                                Topic::NameRetained
                            },
                        )
                    },
                ],
                (Effect::RepoRoot, Event::Text(_)) | (Effect::RepoRoot, Event::Failed(_)) => if here {
                    &&& of_run(Topic::RunningDirectly) && told[0].error is None
                    &&& told[0].detail matches Some(cwd) && is_current(
                        effects,
                        events,
                        k,
                        Dir::At(*cwd),
                    )
                } else {
                    told.len() == 0
                },
                (Effect::CurrentDir, Event::Text(cwd)) => if here {
                    told.len() == 0
                } else {
                    of_run(Topic::NoRepository) && told[0].error is None && told[0].detail == Some(
                        &cwd,
                    )
                },
                (Effect::CurrentBranch { .. }, Event::MaybeText(Some(branch))) => if branch@
                    == "main"@ || branch@ == "master"@ {
                    of_run(Topic::Pulling) && told[0].error is None && told[0].detail == Some(
                        &branch,
                    )
                } else {
                    told.len() == 0
                },
                (Effect::Pull { .. }, Event::Failed(f)) => of_run(Topic::PullFailed)
                    && told[0].error == Some(&f) && told[0].detail is None,
                (
                    Effect::Insert(NewSession::Local { name: chosen, uuid, .. }),
                    Event::Row(Some(row)),
                ) => told == seq![
                    Remark {
                        name: Some(&chosen),
                        uuid: Some(&uuid),
                        detail: if row.branch@.len() > 0 {
                            Some(&row.branch)
                        } else {
                            None
                        },
                        ..bare(Topic::Created)
                    },
                ],
                (Effect::RemoveWorktree { .. }, Event::Failed(f)) => told == seq![
                    Remark {
                        name: Some(&effects[k - 2]->DeleteByName_name),
                        uuid: Some(&effects[k - 1]->CleanupFiles_uuid),
                        error: Some(&f),
                        ..bare(Topic::RunNotCleanedUp)
                    },
                ],
                _ => told.len() == 0,
            }
        }),
{
    running_remembers(name, here, use_codespace, states, effects, events, k);
}

} // verus!
