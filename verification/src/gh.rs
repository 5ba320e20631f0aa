//! The command lines of `gh`, and how its answers are read.

use vstd::prelude::*;

use crate::codespace::{
    check_auth, codespace_display_name, config_path, config_text, current_login, display_name_text,
    is_login, is_named_state,
    is_reported_readiness, is_reported_state, launcher_path, launcher_text, layout_path, layout_text,
    named_codespace_state, parse_readiness, parse_remote_zellij_state, RepoInfo,
};
use crate::failure::Failure;
use crate::flow::Event;
use crate::process::{checked_output, is_checked_output, output_text, Reply};
use crate::text::{cat2, texts};

verus! {

/// What the remote launcher is asked.
#[derive(Clone, Copy, Debug, PartialEq, Eq, Structural)]
pub enum LauncherMode {
    /// The state of the remote session.
    State,
    /// Whether the remote session has its layout.
    Ready,
    /// To forget that the remote session was ready.
    ClearReady,
    /// To delete the exited remote session.
    Cleanup,
}

/// A file that is copied into a Codespace.
#[derive(Debug)]
pub enum RemoteFile {
    Launcher,
    Layout { uuid: String },
    Config,
}

/// A call of `gh`.
#[derive(Debug)]
pub enum GhCall {
    /// Check that `gh` is logged in.
    AuthStatus,
    /// Get the account that `gh` acts for.
    Login,
    /// Get the repository of a directory.
    RepoView { root: String },
    /// List the names of all Codespaces, for the one of a session.
    FindCreated { session_name: String, uuid: String },
    /// List the states of all Codespaces.
    ListStates,
    /// Create a Codespace for a session.
    Create { repo: RepoInfo, session_name: String, uuid: String },
    /// Copy a local file into a Codespace.
    Copy { name: String, source: String, file: RemoteFile },
    /// Check the workspace and the tools of a Codespace.
    Check { name: String, workdir: String, uuid: String, resume: bool },
    /// Ask the remote launcher.
    Launcher { name: String, uuid: String, mode: LauncherMode },
    /// Connect to the remote session.
    Connect { name: String, workdir: String, uuid: String, attach_only: bool },
    /// Get the state of a Codespace.
    State { name: String },
    /// Stop a Codespace.
    Stop { name: String },
    /// Delete a Codespace.
    Delete { name: String },
}

/// The argument that selects a mode of the remote launcher.
pub open spec fn mode_flag(mode: LauncherMode) -> Seq<char> {
    match mode {
        LauncherMode::State => "--state"@,
        LauncherMode::Ready => "--ready"@,
        LauncherMode::ClearReady => "--clear-ready"@,
        LauncherMode::Cleanup => "--cleanup"@,
    }
}

/// What a mode of the remote launcher is called in messages.
pub open spec fn mode_label(mode: LauncherMode) -> Seq<char> {
    match mode {
        LauncherMode::State => "Remote Zellij state query"@,
        LauncherMode::Ready => "Remote Zellij readiness query"@,
        LauncherMode::ClearReady => "Remote Zellij readiness reset"@,
        LauncherMode::Cleanup => "Remote Zellij cleanup"@,
    }
}

/// Where a file lies in a Codespace.
pub open spec fn remote_file_text(name: Seq<char>, file: RemoteFile) -> Seq<char> {
    match file {
        RemoteFile::Launcher => launcher_text(name),
        RemoteFile::Layout { uuid } => layout_text(name, uuid@),
        RemoteFile::Config => config_text(name),
    }
}

/// The arguments with which `gh` is called.
pub open spec fn call_args(call: GhCall) -> Seq<Seq<char>> {
    match call {
        GhCall::AuthStatus => seq!["auth"@, "status"@, "--active"@, "--hostname"@, "github.com"@],
        GhCall::Login => seq![
            "api"@,
            "--hostname"@,
            "github.com"@,
            "user"@,
            "--jq"@,
            ".login"@,
        ],
        GhCall::RepoView { root } => seq![
            "repo"@,
            "view"@,
            "--json"@,
            "nameWithOwner,defaultBranchRef"@,
        ],
        GhCall::FindCreated { session_name, uuid } => seq![
            "codespace"@,
            "list"@,
            "--limit"@,
            "1000"@,
            "--json"@,
            "name,displayName"@,
        ],
        GhCall::ListStates => seq![
            "codespace"@,
            "list"@,
            "--limit"@,
            "1000"@,
            "--json"@,
            "name,state,gitStatus"@,
        ],
        GhCall::Create { repo, session_name, uuid } => seq![
            "codespace"@,
            "create"@,
            "--repo"@,
            repo.name_with_owner@,
            "--branch"@,
            repo.default_branch@,
            "--display-name"@,
            display_name_text(session_name@, uuid@),
            "-s"@,
        ],
        GhCall::Copy { name, source, file } => seq![
            "codespace"@,
            "cp"@,
            "--expand"@,
            "--codespace"@,
            name@,
            source@,
            "remote:"@ + remote_file_text(name@, file),
        ],
        GhCall::Check { name, workdir, uuid, resume } => seq![
            "codespace"@,
            "ssh"@,
            "--codespace"@,
            name@,
            "--"@,
            "sh"@,
            launcher_text(name@),
            "--check"@,
            workdir@,
            layout_text(name@, uuid@),
            config_text(name@),
            uuid@,
            if resume {
                "true"@
            } else {
                "false"@
            },
        ],
        GhCall::Launcher { name, uuid, mode } => seq![
            "codespace"@,
            "ssh"@,
            "--codespace"@,
            name@,
            "--"@,
            "sh"@,
            launcher_text(name@),
            mode_flag(mode),
            uuid@,
        ],
        GhCall::Connect { name, workdir, uuid, attach_only } => seq![
            "codespace"@,
            "ssh"@,
            "--codespace"@,
            name@,
            "--"@,
            "-tt"@,
            "sh"@,
            launcher_text(name@),
        ] + (if attach_only {
            seq!["--attach"@, uuid@, workdir@, config_text(name@)]
        } else {
            seq!["--connect"@, uuid@, workdir@, layout_text(name@, uuid@), config_text(name@)]
        }),
        GhCall::State { name } => seq![
            "api"@,
            "--hostname"@,
            "github.com"@,
            "user/codespaces/"@ + name@,
            "--jq"@,
            ".state"@,
        ],
        GhCall::Stop { name } => seq!["codespace"@, "stop"@, "--codespace"@, name@],
        GhCall::Delete { name } => seq![
            "codespace"@,
            "delete"@,
            "--codespace"@,
            name@,
            "--force"@,
        ],
    }
}

/// What a call is called in messages.
pub open spec fn call_label(call: GhCall) -> Seq<char> {
    match call {
        GhCall::AuthStatus => "gh auth status"@,
        GhCall::Login => "gh api user"@,
        GhCall::RepoView { .. } => "gh repo view"@,
        GhCall::FindCreated { .. } => "gh codespace list"@,
        GhCall::ListStates => "gh codespace list"@,
        GhCall::Create { .. } => "gh codespace create"@,
        GhCall::Copy { file, .. } => match file {
            RemoteFile::Launcher => "Codespace launcher copy"@,
            RemoteFile::Layout { .. } => "Codespace layout copy"@,
            RemoteFile::Config => "Codespace config copy"@,
        },
        GhCall::Check { .. } => "Codespace preflight"@,
        GhCall::Launcher { mode, .. } => mode_label(mode),
        GhCall::Connect { .. } => "gh codespace ssh"@,
        GhCall::State { .. } => "gh api user/codespaces"@,
        GhCall::Stop { .. } => "gh codespace stop"@,
        GhCall::Delete { .. } => "gh codespace delete"@,
    }
}

fn words(list: &[&str]) -> (r: Vec<String>)
    ensures
        r@.len() == list@.len(),
        forall|i: int| 0 <= i < list@.len() ==> (#[trigger] r@[i])@ == list@[i]@,
{
    let mut out: Vec<String> = Vec::new();
    let mut i: usize = 0;
    while i < list.len()
        invariant
            i <= list@.len(),
            out@.len() == i,
            forall|j: int| 0 <= j < i ==> (#[trigger] out@[j])@ == list@[j]@,
        decreases list@.len() - i,
    {
        out.push(list[i].to_string());
        i = i + 1;
    }
    out
}

/// The arguments with which `gh` is called.
pub fn gh_args(call: &GhCall) -> (r: Vec<String>)
    ensures
        texts(r@) == call_args(*call),
{
    let args = match call {
        GhCall::AuthStatus => words(&["auth", "status", "--active", "--hostname", "github.com"]),
        GhCall::Login => words(&["api", "--hostname", "github.com", "user", "--jq", ".login"]),
        GhCall::RepoView { root } => words(
            &["repo", "view", "--json", "nameWithOwner,defaultBranchRef"],
        ),
        GhCall::FindCreated { session_name, uuid } => words(
            &["codespace", "list", "--limit", "1000", "--json", "name,displayName"],
        ),
        GhCall::ListStates => words(
            &["codespace", "list", "--limit", "1000", "--json", "name,state,gitStatus"],
        ),
        GhCall::Create { repo, session_name, uuid } => {
            let display_name = codespace_display_name(session_name, uuid);
            words(
                &[
                    "codespace",
                    "create",
                    "--repo",
                    &repo.name_with_owner,
                    "--branch",
                    &repo.default_branch,
                    "--display-name",
                    &display_name,
                    "-s",
                ],
            )
        },
        GhCall::Copy { name, source, file } => {
            let path = match file {
                RemoteFile::Launcher => launcher_path(name),
                RemoteFile::Layout { uuid } => layout_path(name, uuid),
                RemoteFile::Config => config_path(name),
            };
            let destination = cat2("remote:", &path);
            words(&["codespace", "cp", "--expand", "--codespace", name, source, &destination])
        },
        GhCall::Check { name, workdir, uuid, resume } => {
            let launcher = launcher_path(name);
            let layout = layout_path(name, uuid);
            let config = config_path(name);
            words(
                &[
                    "codespace",
                    "ssh",
                    "--codespace",
                    name,
                    "--",
                    "sh",
                    &launcher,
                    "--check",
                    workdir,
                    &layout,
                    &config,
                    uuid,
                    if *resume {
                        "true"
                    } else {
                        "false"
                    },
                ],
            )
        },
        GhCall::Launcher { name, uuid, mode } => {
            let launcher = launcher_path(name);
            let flag = match mode {
                LauncherMode::State => "--state",
                LauncherMode::Ready => "--ready",
                LauncherMode::ClearReady => "--clear-ready",
                LauncherMode::Cleanup => "--cleanup",
            };
            words(&["codespace", "ssh", "--codespace", name, "--", "sh", &launcher, flag, uuid])
        },
        GhCall::Connect { name, workdir, uuid, attach_only } => {
            let launcher = launcher_path(name);
            let config = config_path(name);
            if *attach_only {
                words(
                    &[
                        "codespace",
                        "ssh",
                        "--codespace",
                        name,
                        "--",
                        "-tt",
                        "sh",
                        &launcher,
                        "--attach",
                        uuid,
                        workdir,
                        &config,
                    ],
                )
            } else {
                let layout = layout_path(name, uuid);
                words(
                    &[
                        "codespace",
                        "ssh",
                        "--codespace",
                        name,
                        "--",
                        "-tt",
                        "sh",
                        &launcher,
                        "--connect",
                        uuid,
                        workdir,
                        &layout,
                        &config,
                    ],
                )
            }
        },
        GhCall::State { name } => {
            let endpoint = cat2("user/codespaces/", name);
            words(&["api", "--hostname", "github.com", &endpoint, "--jq", ".state"])
        },
        GhCall::Stop { name } => words(&["codespace", "stop", "--codespace", name]),
        GhCall::Delete { name } => words(&["codespace", "delete", "--codespace", name, "--force"]),
    };
    assert(texts(args@) =~= call_args(*call));
    args
}

/// `event` is what the answer of `gh` to a call means. Where the call has no output that
/// is text, it is why not.
pub open spec fn is_answer(call: GhCall, reply: Reply, event: Event) -> bool {
    match call {
        GhCall::Create { .. } => match reply {
            Reply::NotRun { error } => event matches Event::Failed(
                Failure::CommandNotRun { action, error: e },
            ) && action@ == call_label(call) && e == error,
            Reply::Finished(o) => event == (Event::Exit { success: o.success, status: o.status }),
        },
        GhCall::Connect { .. } => match reply {
            Reply::NotRun { error } => event == Event::Failed(Failure::ConnectNotRun { error }),
            Reply::Finished(o) => event == (Event::Exit { success: o.success, status: o.status }),
        },
        GhCall::Check { .. } => match reply {
            Reply::NotRun { error } => event matches Event::Failed(
                Failure::CommandNotRun { action, error: e },
            ) && action@ == call_label(call) && e == error,
            Reply::Finished(o) => if o.success {
                event == Event::Done
            } else {
                event matches Event::Failed(Failure::CommandFailed { action, status }) && action@
                    == call_label(call) && status == o.status
            },
        },
        GhCall::State { name } => match event {
            Event::MaybeText(state) => is_named_state(name@, reply, Ok(state)),
            Event::Failed(f) => is_named_state(name@, reply, Err(f)),
            _ => false,
        },
        _ => match output_text(reply) {
            None => event matches Event::Failed(f) && is_checked_output(
                reply,
                call_label(call),
                Err(f),
            ),
            Some(stdout) => match call {
                GhCall::Login => match event {
                    Event::Text(login) => is_login(stdout, Ok(login)),
                    Event::Failed(f) => is_login(stdout, Err(f)),
                    _ => false,
                },
                GhCall::RepoView { .. } | GhCall::FindCreated { .. } | GhCall::ListStates =>
                    event matches Event::Text(text) && text@ == stdout,
                GhCall::Launcher { mode, .. } => match mode {
                    LauncherMode::State => match event {
                        Event::Remote(state) => is_reported_state(stdout, Ok(state)),
                        Event::Failed(f) => is_reported_state(stdout, Err(f)),
                        _ => false,
                    },
                    LauncherMode::Ready => match event {
                        Event::Flag(ready) => is_reported_readiness(stdout, Ok(ready)),
                        Event::Failed(f) => is_reported_readiness(stdout, Err(f)),
                        _ => false,
                    },
                    LauncherMode::ClearReady | LauncherMode::Cleanup => event == Event::Done,
                },
                _ => event == Event::Done,
            },
        },
    }
}

/// What a call is called in messages.
pub fn gh_label(call: &GhCall) -> (r: &'static str)
    ensures
        r@ == call_label(*call),
{
    match call {
        GhCall::AuthStatus => "gh auth status",
        GhCall::Login => "gh api user",
        GhCall::RepoView { .. } => "gh repo view",
        GhCall::FindCreated { .. } => "gh codespace list",
        GhCall::ListStates => "gh codespace list",
        GhCall::Create { .. } => "gh codespace create",
        GhCall::Copy { file, .. } => match file {
            RemoteFile::Launcher => "Codespace launcher copy",
            RemoteFile::Layout { .. } => "Codespace layout copy",
            RemoteFile::Config => "Codespace config copy",
        },
        GhCall::Check { .. } => "Codespace preflight",
        GhCall::Launcher { mode, .. } => match mode {
            LauncherMode::State => "Remote Zellij state query",
            LauncherMode::Ready => "Remote Zellij readiness query",
            LauncherMode::ClearReady => "Remote Zellij readiness reset",
            LauncherMode::Cleanup => "Remote Zellij cleanup",
        },
        GhCall::Connect { .. } => "gh codespace ssh",
        GhCall::State { .. } => "gh api user/codespaces",
        GhCall::Stop { .. } => "gh codespace stop",
        GhCall::Delete { .. } => "gh codespace delete",
    }
}

/// Read the answer of `gh` to a call.
pub fn gh_reply(call: &GhCall, reply: Reply) -> (r: Event)
    ensures
        is_answer(*call, reply, r),
{
    let label = gh_label(call);
    match call {
        GhCall::Create { .. } => match reply {
            Reply::NotRun { error } => Event::Failed(
                Failure::CommandNotRun { action: label.to_string(), error },
            ),
            Reply::Finished(o) => Event::Exit { success: o.success, status: o.status },
        },
        GhCall::Connect { .. } => match reply {
            Reply::NotRun { error } => Event::Failed(Failure::ConnectNotRun { error }),
            Reply::Finished(o) => Event::Exit { success: o.success, status: o.status },
        },
        GhCall::Check { .. } => match reply {
            Reply::NotRun { error } => Event::Failed(
                Failure::CommandNotRun { action: label.to_string(), error },
            ),
            Reply::Finished(o) => {
                if o.success {
                    Event::Done
                } else {
                    Event::Failed(
                        Failure::CommandFailed { action: label.to_string(), status: o.status },
                    )
                }
            },
        },
        GhCall::State { name } => match named_codespace_state(name, reply) {
            Ok(state) => Event::MaybeText(state),
            Err(f) => Event::Failed(f),
        },
        GhCall::AuthStatus => match check_auth(reply) {
            Ok(()) => Event::Done,
            Err(f) => Event::Failed(f),
        },
        GhCall::Login => match current_login(reply) {
            Ok(login) => Event::Text(login),
            Err(f) => Event::Failed(f),
        },
        _ => match checked_output(reply, label) {
            Err(f) => Event::Failed(f),
            Ok(stdout) => match call {
                GhCall::RepoView { .. } | GhCall::FindCreated { .. } | GhCall::ListStates =>
                    Event::Text(stdout),
                GhCall::Launcher { mode, .. } => match mode {
                    LauncherMode::State => match parse_remote_zellij_state(&stdout) {
                        Ok(state) => Event::Remote(state),
                        Err(f) => Event::Failed(f),
                    },
                    LauncherMode::Ready => match parse_readiness(&stdout) {
                        Ok(ready) => Event::Flag(ready),
                        Err(f) => Event::Failed(f),
                    },
                    LauncherMode::ClearReady | LauncherMode::Cleanup => Event::Done,
                },
                _ => Event::Done,
            },
        },
    }
}

} // verus!
