//! Laws of the operations on one Codespace.

use vstd::prelude::*;

use crate::codespace::operations::{
    ask_launcher_begin, connect_zellij_begin, create_begin, current_state_begin, delete_begin,
    delete_if_exists_begin, is_shutdown, prepare_remote_begin, stop_begin, ConnectFlow, CreateFlow,
    CurrentStateFlow, DeleteFlow, DeleteIfExistsFlow, LauncherFlow, PrepareFlow, StopFlow,
};
use crate::codespace::{
    codespace_name, workspace_path, RemoteSetup, RemoteSetupOutcome, RemoteZellijState, RepoInfo,
};
use crate::failure::Failure;
use crate::flow::{is_run, Effect, Event, Flow};
use crate::gh::{GhCall, LauncherMode, RemoteFile};
use crate::ids::well_formed_uuid;
use crate::laws::history::{just_failed, misanswered};
use crate::text::lower;

verus! {

/// A Codespace counts as shut down in whatever case GitHub writes that.
pub proof fn shutdown_is_read_in_any_case(state: Seq<char>)
    ensures
        is_shutdown(state) <==> lower(state) == "shutdown"@,
{
    reveal_strlit("shutdown");
    assert(lower("shutdown"@) =~= "shutdown"@);
}

/// The work before place 1 was to ask for the account, and the answer was another one than the
/// owner, which is the failure.
pub open spec fn is_other_account(events: Seq<Event>, k: int, owner: String, f: Failure) -> bool {
    k == 1 && (events[0] matches Event::Text(current) && current@ != owner@ && f == (
    Failure::WrongAccount { current, expected: owner }))
}

/// The work before place 1 was to ask for the account, and the answer was the owner.
pub open spec fn is_owner(events: Seq<Event>, owner: String) -> bool {
    events[0] matches Event::Text(current) && current@ == owner@
}

/// To stop a Codespace, with a name that is one, asks for the account and then to stop it. If
/// that fails, it still counts as stopped exactly if it is then seen to be shut down or not to
/// exist; and else the failure to stop it is passed on.
pub proof fn codespace_is_stopped(
    name: String,
    github_login: String,
    states: Seq<StopFlow>,
    effects: Seq<Effect>,
    events: Seq<Event>,
    k: int,
)
    requires
        is_run(states, effects, events),
        (states[0], effects[0]) == stop_begin(name, github_login),
        0 <= k < effects.len(),
    ensures
        match effects[k] {
            Effect::Gh(GhCall::Login) => k == 0 && codespace_name(name@),
            Effect::Gh(GhCall::Stop { name: n }) => k == 1 && n == name && is_owner(
                events,
                github_login,
            ),
            Effect::Gh(GhCall::State { name: n }) => k == 2 && n == name && events[1] is Failed,
            Effect::Finish(Event::Done) => {
                ||| k == 2 && events[1] == Event::Done
                ||| k == 3 && events[2] == Event::MaybeText(None)
                ||| k == 3 && (events[2] matches Event::MaybeText(Some(state)) && is_shutdown(
                    state@,
                ))
            },
            Effect::Finish(Event::Failed(f)) => {
                ||| k == 0 && !codespace_name(name@) && f == (Failure::InvalidCodespaceName { name })
                ||| is_other_account(events, k, github_login, f)
                ||| (k == 1 || k == 3) && just_failed(events, k, f)
                ||| f == Failure::UnexpectedReply && misanswered(effects, events, k)
                ||| k == 3 && events[1] == Event::Failed(f) && (events[2] matches Event::MaybeText(
                    Some(state),
                ) && !is_shutdown(state@))
            },
            _ => false,
        },
{
    if k > 0 {
        assert(effects[0] !is Finish);
        assert(states[0].leads_to(events[0], states[1], effects[1]));
        if k > 1 {
            assert(effects[1] !is Finish);
            assert(states[1].leads_to(events[1], states[2], effects[2]));
            if k > 2 {
                assert(effects[2] !is Finish);
                assert(states[2].leads_to(events[2], states[3], effects[3]));
                if k > 3 {
                    assert(effects[3] !is Finish);
                }
            }
        }
    }
}

/// To delete a Codespace, with a name that is one, asks for the account and then to delete it,
/// and succeeds exactly if that does.
pub proof fn codespace_is_deleted(
    name: String,
    github_login: String,
    states: Seq<DeleteFlow>,
    effects: Seq<Effect>,
    events: Seq<Event>,
    k: int,
)
    requires
        is_run(states, effects, events),
        (states[0], effects[0]) == delete_begin(name, github_login),
        0 <= k < effects.len(),
    ensures
        match effects[k] {
            Effect::Gh(GhCall::Login) => k == 0 && codespace_name(name@),
            Effect::Gh(GhCall::Delete { name: n }) => k == 1 && n == name && is_owner(
                events,
                github_login,
            ),
            Effect::Finish(Event::Done) => k == 2 && events[1] == Event::Done,
            Effect::Finish(Event::Failed(f)) => {
                ||| k == 0 && !codespace_name(name@) && f == (Failure::InvalidCodespaceName { name })
                ||| is_other_account(events, k, github_login, f)
                ||| just_failed(events, k, f)
                ||| f == Failure::UnexpectedReply && misanswered(effects, events, k)
            },
            _ => false,
        },
{
    if k > 0 {
        assert(effects[0] !is Finish);
        assert(states[0].leads_to(events[0], states[1], effects[1]));
        if k > 1 {
            assert(effects[1] !is Finish);
            assert(states[1].leads_to(events[1], states[2], effects[2]));
            if k > 2 {
                assert(effects[2] !is Finish);
            }
        }
    }
}

/// To delete a Codespace that may be gone asks for the account and to delete it; if that fails, it
/// still counts as deleted exactly if it is then seen not to exist, and else the failure to delete
/// it is passed on.
pub proof fn codespace_is_deleted_if_there(
    name: String,
    github_login: String,
    states: Seq<DeleteIfExistsFlow>,
    effects: Seq<Effect>,
    events: Seq<Event>,
    k: int,
)
    requires
        is_run(states, effects, events),
        (states[0], effects[0]) == delete_if_exists_begin(name, github_login),
        0 <= k < effects.len(),
    ensures
        match effects[k] {
            Effect::Gh(GhCall::Login) => k == 0 && codespace_name(name@),
            Effect::DeleteCodespace { name: n, github_login: l } => k == 1 && n == name && l
                == github_login && is_owner(events, github_login),
            Effect::Gh(GhCall::State { name: n }) => k == 2 && n == name && events[1] is Failed,
            Effect::Finish(Event::Done) => k == 2 && events[1] == Event::Done || k == 3 && events[2]
                == Event::MaybeText(None),
            Effect::Finish(Event::Failed(f)) => {
                ||| k == 0 && !codespace_name(name@) && f == (Failure::InvalidCodespaceName { name })
                ||| is_other_account(events, k, github_login, f)
                ||| (k == 1 || k == 3) && just_failed(events, k, f)
                ||| f == Failure::UnexpectedReply && misanswered(effects, events, k)
                ||| k == 3 && events[1] == Event::Failed(f) && (events[2] matches Event::MaybeText(
                    Some(_),
                ))
            },
            _ => false,
        },
{
    if k > 0 {
        assert(effects[0] !is Finish);
        assert(states[0].leads_to(events[0], states[1], effects[1]));
        if k > 1 {
            assert(effects[1] !is Finish);
            assert(states[1].leads_to(events[1], states[2], effects[2]));
            if k > 2 {
                assert(effects[2] !is Finish);
                assert(states[2].leads_to(events[2], states[3], effects[3]));
                if k > 3 {
                    assert(effects[3] !is Finish);
                }
            }
        }
    }
}

/// The state of a Codespace is what GitHub gives for it; a Codespace that it does not know is gone.
pub proof fn codespace_state_is_asked_for(
    name: String,
    github_login: String,
    states: Seq<CurrentStateFlow>,
    effects: Seq<Effect>,
    events: Seq<Event>,
    k: int,
)
    requires
        is_run(states, effects, events),
        (states[0], effects[0]) == current_state_begin(name, github_login),
        0 <= k < effects.len(),
    ensures
        match effects[k] {
            Effect::Gh(GhCall::Login) => k == 0 && codespace_name(name@),
            Effect::Gh(GhCall::State { name: n }) => k == 1 && n == name && is_owner(
                events,
                github_login,
            ),
            Effect::Finish(Event::Text(state)) => k == 2 && events[1] == Event::MaybeText(
                Some(state),
            ),
            Effect::Finish(Event::Failed(f)) => {
                ||| k == 0 && !codespace_name(name@) && f == (Failure::InvalidCodespaceName { name })
                ||| is_other_account(events, k, github_login, f)
                ||| just_failed(events, k, f)
                ||| f == Failure::UnexpectedReply && misanswered(effects, events, k)
                ||| k == 2 && events[1] == Event::MaybeText(None) && f == (Failure::CodespaceGone {
                    name,
                })
            },
            _ => false,
        },
{
    if k > 0 {
        assert(effects[0] !is Finish);
        assert(states[0].leads_to(events[0], states[1], effects[1]));
        if k > 1 {
            assert(effects[1] !is Finish);
            assert(states[1].leads_to(events[1], states[2], effects[2]));
            if k > 2 {
                assert(effects[2] !is Finish);
            }
        }
    }
}

/// The launcher of a Codespace is asked just what was to be asked, for just this UUID, and its
/// answer is passed on.
pub proof fn launcher_is_asked(
    name: String,
    uuid: String,
    github_login: String,
    mode: LauncherMode,
    states: Seq<LauncherFlow>,
    effects: Seq<Effect>,
    events: Seq<Event>,
    k: int,
)
    requires
        is_run(states, effects, events),
        (states[0], effects[0]) == ask_launcher_begin(name, uuid, github_login, mode),
        0 <= k < effects.len(),
    ensures
        match effects[k] {
            Effect::Gh(GhCall::Login) => k == 0 && codespace_name(name@),
            Effect::Gh(GhCall::Launcher { name: n, uuid: u, mode: m }) => k == 1 && n == name && u
                == uuid && m == mode && is_owner(events, github_login),
            Effect::Finish(Event::Remote(state)) => k == 2 && mode is State && events[1]
                == Event::Remote(state),
            Effect::Finish(Event::Flag(ready)) => k == 2 && mode is Ready && events[1]
                == Event::Flag(ready),
            Effect::Finish(Event::Done) => k == 2 && (mode is ClearReady || mode is Cleanup)
                && events[1] == Event::Done,
            Effect::Finish(Event::Failed(f)) => {
                ||| k == 0 && !codespace_name(name@) && f == (Failure::InvalidCodespaceName { name })
                ||| is_other_account(events, k, github_login, f)
                ||| just_failed(events, k, f)
                ||| f == Failure::UnexpectedReply && misanswered(effects, events, k)
            },
            _ => false,
        },
{
    if k > 0 {
        assert(effects[0] !is Finish);
        assert(states[0].leads_to(events[0], states[1], effects[1]));
        if k > 1 {
            assert(effects[1] !is Finish);
            assert(states[1].leads_to(events[1], states[2], effects[2]));
            if k > 2 {
                assert(effects[2] !is Finish);
            }
        }
    }
}

/// To connect, with a Codespace name, a workspace and a UUID that are such, asks for the account,
/// has the readiness of the remote session forgotten, and then connects to just this session,
/// merely to attach exactly if that was asked. How the connection ended is the outcome.
pub proof fn connection_is_made(
    name: String,
    workdir: String,
    uuid: String,
    github_login: String,
    attach_only: bool,
    states: Seq<ConnectFlow>,
    effects: Seq<Effect>,
    events: Seq<Event>,
    k: int,
)
    requires
        is_run(states, effects, events),
        (states[0], effects[0]) == connect_zellij_begin(
            name,
            workdir,
            uuid,
            github_login,
            attach_only,
        ),
        0 <= k < effects.len(),
    ensures
        match effects[k] {
            Effect::Gh(GhCall::Login) => k == 0 && codespace_name(name@) && workspace_path(workdir@)
                && well_formed_uuid(uuid@),
            Effect::AskLauncher { name: n, uuid: u, github_login: l, mode } => k == 1 && n == name
                && u == uuid && l == github_login && mode is ClearReady && is_owner(
                events,
                github_login,
            ),
            Effect::Gh(GhCall::Connect { name: n, workdir: w, uuid: u, attach_only: a }) => k == 2
                && n == name && w == workdir && u == uuid && a == attach_only && events[1]
                == Event::Done,
            Effect::Finish(Event::Exit { success, status }) => k == 3 && events[2] == (
            Event::Exit { success, status }),
            Effect::Finish(Event::Failed(f)) => {
                ||| k == 0 && (if !codespace_name(name@) {
                    f == (Failure::InvalidCodespaceName { name })
                } else if !workspace_path(workdir@) {
                    f == (Failure::InvalidWorkdir { workdir })
                } else {
                    !well_formed_uuid(uuid@) && f == (Failure::InvalidUuid { uuid })
                })
                ||| is_other_account(events, k, github_login, f)
                ||| just_failed(events, k, f)
                ||| f == Failure::UnexpectedReply && misanswered(effects, events, k)
            },
            _ => false,
        },
{
    if k > 0 {
        assert(effects[0] !is Finish);
        assert(states[0].leads_to(events[0], states[1], effects[1]));
        if k > 1 {
            assert(effects[1] !is Finish);
            assert(states[1].leads_to(events[1], states[2], effects[2]));
            if k > 2 {
                assert(effects[2] !is Finish);
                assert(states[2].leads_to(events[2], states[3], effects[3]));
                if k > 3 {
                    assert(effects[3] !is Finish);
                }
            }
        }
    }
}

proof fn preparing_remembers(
    setup: RemoteSetup,
    states: Seq<PrepareFlow>,
    effects: Seq<Effect>,
    events: Seq<Event>,
    k: int,
)
    requires
        is_run(states, effects, events),
        (states[0], effects[0]) == prepare_remote_begin(setup),
        0 <= k < effects.len(),
    ensures
        match states[k] {
            PrepareFlow::Login(s) => k == 0 && s == setup,
            PrepareFlow::CopyLauncher(s) => k == 1 && s == setup && effects[k] is Gh,
            PrepareFlow::CopyLayout(s) => k == 2 && s == setup && effects[k] is Gh,
            PrepareFlow::CopyConfig(s) => k == 3 && s == setup && effects[k] is Gh,
            PrepareFlow::State(s) => k == 4 && s == setup && (effects[k]
                matches Effect::AskLauncher { mode, .. } && mode is State),
            PrepareFlow::Check => k == 5 && effects[k] is Gh,
            PrepareFlow::Over => effects[k] is Finish,
        },
    decreases k,
{
    if k > 0 {
        preparing_remembers(setup, states, effects, events, k - 1);
        assert(states[k - 1].leads_to(events[k - 1], states[k], effects[k]));
        assert(effects[k - 1] !is Finish);
    }
}

/// To prepare a Codespace, with a name, a workspace and a UUID that are such, asks for the account
/// and copies the launcher, the layout of the UUID and the configuration, each from the local file
/// that was given for it. A session that runs there under tmux ends the preparation with that;
/// otherwise the workspace and the tools are checked, to resume exactly if that was asked, and the
/// Codespace is ready if that succeeds.
pub proof fn codespace_is_prepared(
    setup: RemoteSetup,
    states: Seq<PrepareFlow>,
    effects: Seq<Effect>,
    events: Seq<Event>,
    k: int,
)
    requires
        is_run(states, effects, events),
        (states[0], effects[0]) == prepare_remote_begin(setup),
        0 <= k < effects.len(),
    ensures
        match effects[k] {
            Effect::Gh(GhCall::Login) => k == 0 && codespace_name(setup.name@) && workspace_path(
                setup.workdir@,
            ) && well_formed_uuid(setup.uuid@),
            Effect::Gh(GhCall::Copy { name, source, file }) => {
                &&& name == setup.name
                &&& match file {
                    RemoteFile::Launcher => k == 1 && source == setup.launcher && is_owner(
                        events,
                        setup.github_login,
                    ),
                    RemoteFile::Layout { uuid } => k == 2 && source == setup.layout && uuid
                        == setup.uuid && events[1] == Event::Done,
                    RemoteFile::Config => k == 3 && source == setup.config && events[2]
                        == Event::Done,
                }
            },
            Effect::AskLauncher { name, uuid, github_login, mode } => k == 4 && name == setup.name
                && uuid == setup.uuid && github_login == setup.github_login && mode is State
                && events[3] == Event::Done,
            Effect::Gh(GhCall::Check { name, workdir, uuid, resume }) => {
                &&& k == 5 && name == setup.name && workdir == setup.workdir && uuid == setup.uuid
                &&& resume == setup.resume
                &&& events[4] matches Event::Remote(state) && state !is LegacyTmux
            },
            Effect::Finish(Event::Setup(outcome)) => match outcome {
                RemoteSetupOutcome::LegacyTmux => k == 5 && events[4] == Event::Remote(
                    RemoteZellijState::LegacyTmux,
                ),
                RemoteSetupOutcome::Ready => k == 6 && events[5] == Event::Done,
            },
            Effect::Finish(Event::Failed(f)) => {
                ||| k == 0 && (if !codespace_name(setup.name@) {
                    f == (Failure::InvalidCodespaceName { name: setup.name })
                } else if !workspace_path(setup.workdir@) {
                    f == (Failure::InvalidWorkdir { workdir: setup.workdir })
                } else {
                    !well_formed_uuid(setup.uuid@) && f == (Failure::InvalidUuid {
                        uuid: setup.uuid,
                    })
                })
                ||| is_other_account(events, k, setup.github_login, f)
                ||| just_failed(events, k, f)
                ||| f == Failure::UnexpectedReply && misanswered(effects, events, k)
            },
            _ => false,
        },
{
    preparing_remembers(setup, states, effects, events, k);
    if k > 0 {
        preparing_remembers(setup, states, effects, events, k - 1);
        assert(states[k - 1].leads_to(events[k - 1], states[k], effects[k]));
        assert(effects[k - 1] !is Finish);
        if k > 1 {
            preparing_remembers(setup, states, effects, events, k - 2);
            assert(states[k - 2].leads_to(events[k - 2], states[k - 1], effects[k - 1]));
            assert(effects[k - 2] !is Finish);
        }
    }
}

proof fn creation_counts(
    repo: RepoInfo,
    session_name: String,
    uuid: String,
    states: Seq<CreateFlow>,
    effects: Seq<Effect>,
    events: Seq<Event>,
    k: int,
)
    requires
        is_run(states, effects, events),
        (states[0], effects[0]) == create_begin(repo, session_name, uuid),
        0 <= k < effects.len(),
    ensures
        match states[k] {
            CreateFlow::Create { repo: r, session_name: n, uuid: u } => k == 0 && r == repo && n
                == session_name && u == uuid,
            CreateFlow::Look { session_name: n, uuid: u, success, status, left } => n
                == session_name && u == uuid && 1 <= left <= 20 && k == 2 * (20 - left) + 1
                && events[0] == (Event::Exit { success, status }) && (effects[k]
                matches Effect::Gh(call) && call is FindCreated),
            CreateFlow::Wait { session_name: n, uuid: u, success, status, left, failed } => n
                == session_name && u == uuid && 1 <= left <= 20 && k == 2 * (20 - left) + 2
                && events[0] == (Event::Exit { success, status }) && effects[k] is Wait && (failed
                matches Some(f) ==> events[k - 1] == Event::Failed(f)) && (failed is None
                ==> events[k - 1] == Event::MaybeText(None)),
            CreateFlow::Over => effects[k] is Finish,
        },
    decreases k,
{
    if k > 0 {
        creation_counts(repo, session_name, uuid, states, effects, events, k - 1);
        assert(states[k - 1].leads_to(events[k - 1], states[k], effects[k]));
        assert(effects[k - 1] !is Finish);
    }
}

/// To create a Codespace has `gh` create it for the repository and the session; then it is looked
/// for up to twenty times, a quarter of a second apart. The first one that is found, if its name is
/// a Codespace name, is the outcome. After the last look the failure is that of the look, or if
/// nothing was found, that of `gh` if it failed, or that nothing was found.
pub proof fn created_codespace_is_looked_for(
    repo: RepoInfo,
    session_name: String,
    uuid: String,
    states: Seq<CreateFlow>,
    effects: Seq<Effect>,
    events: Seq<Event>,
    k: int,
)
    requires
        is_run(states, effects, events),
        (states[0], effects[0]) == create_begin(repo, session_name, uuid),
        0 <= k < effects.len(),
    ensures
        match effects[k] {
            Effect::Gh(GhCall::Create { repo: r, session_name: n, uuid: u }) => k == 0 && r == repo
                && n == session_name && u == uuid,
            Effect::Gh(GhCall::FindCreated { session_name: n, uuid: u }) => n == session_name && u
                == uuid && k % 2 == 1 && events[0] is Exit,
            Effect::Wait { millis } => millis == 250 && k > 0 && k % 2 == 0 && (events[k - 1]
                == Event::MaybeText(None) || events[k - 1] is Failed),
            Effect::Finish(Event::Text(name)) => k > 1 && codespace_name(name@) && events[k - 1]
                == Event::MaybeText(Some(name)),
            Effect::Finish(Event::Failed(f)) => {
                ||| k == 1 && just_failed(events, k, f)
                ||| f == Failure::UnexpectedReply && misanswered(effects, events, k)
                ||| k > 1 && (events[k - 1] matches Event::MaybeText(Some(name)) && !codespace_name(
                    name@,
                ) && f == (Failure::InvalidCodespaceName { name }))
                ||| k == 41 && effects[40] is Wait && match events[39] {
                    Event::Failed(g) => f == (Failure::Unresolved {
                        session_name,
                        uuid,
                        cause: Box::new(g),
                    }),
                    _ => events[0] matches Event::Exit { success, status } && f == (if success {
                        Failure::CreatedNotFound { session_name, uuid }
                    } else {
                        Failure::CreateFailed { status }
                    }),
                }
            },
            _ => false,
        },
{
    creation_counts(repo, session_name, uuid, states, effects, events, k);
    if k > 0 {
        creation_counts(repo, session_name, uuid, states, effects, events, k - 1);
        assert(states[k - 1].leads_to(events[k - 1], states[k], effects[k]));
        assert(effects[k - 1] !is Finish);
    }
}

} // verus!
