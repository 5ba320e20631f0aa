//! Laws of the commands that are run, and of how their answers are read.

use vstd::prelude::*;
use vstd::utf8::{decode_utf8, valid_utf8};

use crate::codespace::RepoInfo;
use crate::failure::Failure;
use crate::flow::Event;
use crate::gh::{call_args, is_answer, GhCall, LauncherMode, RemoteFile};
use crate::git::Dir;
use crate::process::{complaint, is_checked_output, CommandOutput, Reply};
use crate::text::{first_word_of, holds_text};
use crate::zellij::{client_args, listed, listed_sessions, runs, LocalCommand};

verus! {

// ── Arguments of gh ─────────────────────────────────────────────────────────

/// The Codespace that a call is about, if it is about one.
pub open spec fn space_of(call: GhCall) -> Option<Seq<char>> {
    match call {
        GhCall::Copy { name, .. } => Some(name@),
        GhCall::Check { name, .. } => Some(name@),
        GhCall::Launcher { name, .. } => Some(name@),
        GhCall::Connect { name, .. } => Some(name@),
        GhCall::Stop { name } => Some(name@),
        GhCall::Delete { name } => Some(name@),
        _ => None,
    }
}

/// Every `gh codespace` command about one Codespace names that Codespace, right behind the flag for
/// it; the others list the Codespaces or create one.
pub proof fn codespace_commands_name_the_codespace(call: GhCall)
    ensures
        call_args(call)[0] == "codespace"@ <==> space_of(call) is Some || call is FindCreated || call
            is ListStates || call is Create,
        space_of(call) matches Some(name) ==> {
            ||| call_args(call)[2] == "--codespace"@ && call_args(call)[3] == name
            ||| call is Copy && call_args(call)[3] == "--codespace"@ && call_args(call)[4] == name
        },
{
    reveal_strlit("codespace");
    reveal_strlit("auth");
    reveal_strlit("api");
    reveal_strlit("repo");
    assert("codespace"@.len() != "auth"@.len());
    assert("codespace"@.len() != "api"@.len());
    assert("codespace"@.len() != "repo"@.len());
}

/// Stopping a Codespace is one command and deleting it is another, which asks nothing back.
pub proof fn stopping_is_not_deleting(name: String)
    ensures
        call_args(GhCall::Stop { name })[1] == "stop"@,
        call_args(GhCall::Delete { name })[1] == "delete"@,
        call_args(GhCall::Stop { name }).len() == 4,
        call_args(GhCall::Delete { name }).len() == 5,
        call_args(GhCall::Delete { name })[4] == "--force"@,
{
}

/// A Codespace is created for the repository, from its default branch, under the name by which it
/// is looked for.
pub proof fn codespace_is_created_from_the_default_branch(
    repo: RepoInfo,
    session_name: String,
    uuid: String,
)
    ensures
        ({
            let args = call_args(GhCall::Create { repo, session_name, uuid });
            &&& args[1] == "create"@
            &&& args[2] == "--repo"@ && args[3] == repo.name_with_owner@
            &&& args[4] == "--branch"@ && args[5] == repo.default_branch@
            &&& args[6] == "--display-name"@ && args[7] == crate::codespace::display_name_text(
                session_name@,
                uuid@,
            )
        }),
{
}

/// The launcher, the layout and the configuration are copied to where the other commands look for
/// them.
pub proof fn copied_files_are_used(
    name: String,
    source: String,
    uuid: String,
    workdir: String,
    resume: bool,
    mode: LauncherMode,
)
    ensures
        ({
            let target = |file: RemoteFile| call_args(GhCall::Copy { name, source, file })[6];
            let launcher = target(RemoteFile::Launcher);
            let layout = target(RemoteFile::Layout { uuid });
            let config = target(RemoteFile::Config);
            let check = call_args(GhCall::Check { name, workdir, uuid, resume });
            let ask = call_args(GhCall::Launcher { name, uuid, mode });
            let connect = call_args(GhCall::Connect { name, workdir, uuid, attach_only: false });
            let attach = call_args(GhCall::Connect { name, workdir, uuid, attach_only: true });
            &&& forall|file: RemoteFile|
                (#[trigger] call_args(GhCall::Copy { name, source, file }))[5] == source@
            &&& launcher == "remote:"@ + check[6] && launcher == "remote:"@ + ask[6]
            &&& launcher == "remote:"@ + connect[7] && launcher == "remote:"@ + attach[7]
            &&& layout == "remote:"@ + check[9] && layout == "remote:"@ + connect[11]
            &&& config == "remote:"@ + check[10] && config == "remote:"@ + connect[12] && config
                == "remote:"@ + attach[11]
        }),
{
}

/// To attach and to connect are asked of the launcher by different words, both for the session and
/// its workspace; the check is told whether the session is resumed.
pub proof fn launcher_is_told_what_to_do(
    name: String,
    workdir: String,
    uuid: String,
    resume: bool,
)
    ensures
        ({
            let check = call_args(GhCall::Check { name, workdir, uuid, resume });
            let connect = call_args(GhCall::Connect { name, workdir, uuid, attach_only: false });
            let attach = call_args(GhCall::Connect { name, workdir, uuid, attach_only: true });
            &&& connect[8] == "--connect"@ && attach[8] == "--attach"@ && check[7] == "--check"@
            &&& connect[9] == uuid@ && connect[10] == workdir@
            &&& attach[9] == uuid@ && attach[10] == workdir@
            &&& check[8] == workdir@ && check[11] == uuid@
            &&& check[12] == (if resume {
                "true"@
            } else {
                "false"@
            })
            &&& connect[5] == "-tt"@ && attach[5] == "-tt"@
        }),
{
}

/// What is asked of the launcher is about the session, and each mode has a flag of its own.
pub proof fn launcher_modes_differ(name: String, uuid: String, a: LauncherMode, b: LauncherMode)
    ensures
        ({
            let asked = |mode: LauncherMode| call_args(GhCall::Launcher { name, uuid, mode });
            &&& asked(a)[8] == uuid@
            &&& asked(a)[7] == asked(b)[7] ==> a == b
            &&& asked(LauncherMode::State)[7] == "--state"@
            &&& asked(LauncherMode::Ready)[7] == "--ready"@
            &&& asked(LauncherMode::ClearReady)[7] == "--clear-ready"@
            &&& asked(LauncherMode::Cleanup)[7] == "--cleanup"@
        }),
{
    reveal_strlit("--state");
    reveal_strlit("--ready");
    reveal_strlit("--clear-ready");
    reveal_strlit("--cleanup");
    assert("--state"@[2] == 's' && "--ready"@[2] == 'r' && "--clear-ready"@[2] == 'c'
        && "--cleanup"@[2] == 'c');
    assert("--clear-ready"@.len() == 13 && "--cleanup"@.len() == 9);
}

// ── Answers of gh ───────────────────────────────────────────────────────────

/// A command that could not be started is a failure, whatever it was to do.
pub proof fn commands_that_do_not_start_fail(call: GhCall, error: String, event: Event)
    requires
        is_answer(call, Reply::NotRun { error }, event),
    ensures
        event is Failed,
        event matches Event::Failed(Failure::CommandNotRun { error: e, .. }) ==> e == error,
        call is Connect ==> event == Event::Failed(Failure::ConnectNotRun { error }),
        call is State ==> event == Event::Failed(Failure::StateQueryNotRun { error }),
        call !is Connect && call !is State ==> event matches Event::Failed(
            Failure::CommandNotRun { .. },
        ),
{
}

/// A command that ran and failed is a failure, except that of creating and connecting only the
/// exit is told, and that a Codespace that GitHub does not know has no state.
pub proof fn failed_commands_fail(call: GhCall, output: CommandOutput, event: Event)
    requires
        !output.success,
        is_answer(call, Reply::Finished(output), event),
    ensures
        match call {
            GhCall::Create { .. } | GhCall::Connect { .. } => event == (Event::Exit {
                success: false,
                status: output.status,
            }),
            GhCall::State { .. } => event == (Event::MaybeText(None)) <==> holds_text(
                complaint(output),
                "HTTP 404"@,
            ),
            _ => event is Failed,
        },
        call is State ==> event is Failed || event == Event::MaybeText(None),
{
}

/// A command that succeeded with text is not reported as one that failed, unless the text itself
/// is not what the command is to print.
pub proof fn successful_commands_are_done(call: GhCall, output: CommandOutput, event: Event)
    requires
        output.success,
        valid_utf8(output.stdout@),
        is_answer(call, Reply::Finished(output), event),
    ensures
        match call {
            GhCall::AuthStatus | GhCall::Copy { .. } | GhCall::Check { .. } | GhCall::Stop { .. }
            | GhCall::Delete { .. } => event == Event::Done,
            GhCall::Launcher { mode: LauncherMode::ClearReady, .. }
            | GhCall::Launcher { mode: LauncherMode::Cleanup, .. } => event == Event::Done,
            GhCall::Create { .. } | GhCall::Connect { .. } => event == (Event::Exit {
                success: true,
                status: output.status,
            }),
            GhCall::RepoView { .. } | GhCall::FindCreated { .. } | GhCall::ListStates => event
                matches Event::Text(text) && text@ == decode_utf8(output.stdout@),
            _ => true,
        },
{
}

/// What a command complained about is what its failure says, and its exit status only where it
/// said nothing.
pub proof fn failures_say_the_complaint(
    output: CommandOutput,
    action: Seq<char>,
    r: Result<String, Failure>,
)
    requires
        !output.success,
        is_checked_output(Reply::Finished(output), action, r),
    ensures
        complaint(output).len() > 0 ==> (r matches Err(
            Failure::CommandFailedWith { action: a, stderr },
        ) && a@ == action && stderr@ == complaint(output)),
        complaint(output).len() == 0 ==> (r matches Err(Failure::CommandFailed { action: a, status })
            && a@ == action && status == output.status),
{
}

// ── zellij ──────────────────────────────────────────────────────────────────

/// A zellij session is launched under the name under which it is attached to later, from the
/// layout and with the configuration that were given.
pub proof fn launched_session_is_attached_to(
    config: String,
    layout: String,
    uuid: String,
    dir: Dir,
)
    ensures
        ({
            let launch = client_args(LocalCommand::Launch { config, layout, uuid, dir });
            let attach = client_args(LocalCommand::Attach { uuid });
            &&& launch.len() == 6 && attach.len() == 2
            &&& launch[0] == "--config"@ && launch[1] == config@
            &&& launch[2] == "-s"@ && launch[3] == attach[1]
            &&& launch[4] == "-n"@ && launch[5] == layout@
            &&& attach[0] == "attach"@ && attach[1] == crate::display::short_text(uuid@)
        }),
{
}

proof fn earlier_sessions_stay(lines: Seq<Seq<char>>, name: Seq<char>)
    requires
        lines.len() > 0,
    ensures
        listed(listed_sessions(lines.drop_last()), name) ==> listed(listed_sessions(lines), name),
        runs(listed_sessions(lines.drop_last()), name) ==> runs(listed_sessions(lines), name),
{
    let before = listed_sessions(lines.drop_last());
    let all = listed_sessions(lines);
    if listed(before, name) {
        let i = choose|i: int| 0 <= i < before.len() && (#[trigger] before[i]).0 == name;
        assert(all[i] == before[i]);
    }
    if runs(before, name) {
        let i = choose|i: int| 0 <= i < before.len() && #[trigger] before[i] == (name, true);
        assert(all[i] == before[i]);
    }
}

/// A session is listed exactly if a line begins with its name, and runs exactly if such a line does
/// not say that it has exited.
pub proof fn printed_sessions_are_listed(lines: Seq<Seq<char>>, name: Seq<char>)
    requires
        name.len() > 0,
    ensures
        listed(listed_sessions(lines), name) <==> exists|i: int|
            0 <= i < lines.len() && first_word_of(#[trigger] lines[i]) == name,
        runs(listed_sessions(lines), name) <==> exists|i: int|
            0 <= i < lines.len() && first_word_of(#[trigger] lines[i]) == name && !holds_text(
                lines[i],
                "EXITED"@,
            ),
    decreases lines.len(),
{
    let all = listed_sessions(lines);
    if lines.len() > 0 {
        let rest = lines.drop_last();
        let before = listed_sessions(rest);
        let last = lines.len() - 1;
        printed_sessions_are_listed(rest, name);
        earlier_sessions_stay(lines, name);
        assert forall|i: int| 0 <= i < rest.len() implies rest[i] == #[trigger] lines[i] by {}
        if first_word_of(lines[last]) == name {
            assert(all[all.len() - 1].0 == name);
            if !holds_text(lines[last], "EXITED"@) {
                assert(all[all.len() - 1] == (name, true));
            }
        }
        if listed(all, name) {
            let i = choose|i: int| 0 <= i < all.len() && (#[trigger] all[i]).0 == name;
            if i < before.len() {
                assert(before[i] == all[i]);
                let j = choose|j: int|
                    0 <= j < rest.len() && first_word_of(#[trigger] rest[j]) == name;
                assert(first_word_of(lines[j]) == name);
            } else {
                assert(first_word_of(lines[last]) == name);
            }
        }
        if runs(all, name) {
            let i = choose|i: int| 0 <= i < all.len() && #[trigger] all[i] == (name, true);
            if i < before.len() {
                assert(before[i] == all[i]);
                let j = choose|j: int|
                    0 <= j < rest.len() && first_word_of(#[trigger] rest[j]) == name
                        && !holds_text(rest[j], "EXITED"@);
                assert(first_word_of(lines[j]) == name && !holds_text(lines[j], "EXITED"@));
            } else {
                assert(first_word_of(lines[last]) == name);
            }
        }
        if exists|i: int| 0 <= i < lines.len() && first_word_of(#[trigger] lines[i]) == name {
            let i = choose|i: int| 0 <= i < lines.len() && first_word_of(#[trigger] lines[i]) == name;
            if i < last {
                assert(first_word_of(rest[i]) == name);
            }
        }
        if exists|i: int|
            0 <= i < lines.len() && first_word_of(#[trigger] lines[i]) == name && !holds_text(
                lines[i],
                "EXITED"@,
            ) {
            let i = choose|i: int|
                0 <= i < lines.len() && first_word_of(#[trigger] lines[i]) == name && !holds_text(
                    lines[i],
                    "EXITED"@,
                );
            if i < last {
                assert(first_word_of(rest[i]) == name && !holds_text(rest[i], "EXITED"@));
            }
        }
    }
}

} // verus!
