//! Zellij sessions: their layouts, the scripts and files that belong to them, and how
//! the lists of sessions that `zellij` prints are read.

use vstd::prelude::*;

use crate::codespace::{
    codespace_name, is_codespace_name, is_workspace_path, launcher_text, remote_launcher_path,
    workspace_path,
};
use crate::display::{short_text, short_uuid};
use crate::failure::Failure;
use crate::git::Dir;
use crate::ids::{is_uuid, well_formed_uuid};
use crate::names::NameSet;
use crate::process::{lossy, lossy_text, Reply};
use crate::text::{
    cat2, cat3, cat4, cat5, collect, contains, first_word, first_word_of, holds_text, lines, same,
    text_lines, texts, to_chars, trim, trimmed,
};

verus! {

// ── Layouts ─────────────────────────────────────────────────────────────────

/// The start of every layout: the bars around each tab.
pub const LAYOUT_BARS: &'static str = r#"layout {
    default_tab_template {
        pane size=1 borderless=true {
            plugin location="tab-bar"
        }
        children
        pane size=1 borderless=true {
            plugin location="status-bar"
        }
    }
"#;

/// The tab with `gitui`.
pub const GIT_TAB: &'static str = "    tab name=\"git\" {\n        pane command=\"gitui\"\n    }\n";

/// The tab with `nvim`, and the end of the layout.
pub const EDIT_TAB: &'static str = r#"    tab name="edit" {
        pane command="nvim"
    }
}
"#;

/// The layout of a local session.
pub open spec fn layout(launcher: Seq<char>, uuid: Seq<char>, include_git: bool) -> Seq<char> {
    LAYOUT_BARS@ + "    tab name=\"ai\" focus=true {\n        pane command=\""@ + launcher
        + "\" {\n            args \""@ + uuid + "\"\n        }\n    }\n"@ + (if include_git {
        GIT_TAB@
    } else {
        ""@
    }) + EDIT_TAB@
}

/// Build the zellij layout KDL for a session. The `ai` tab runs the copilot launcher
/// (`launcher`) as a command pane with the session `uuid` as its argument, so zellij owns
/// the copilot process just like it owns `gitui`/`nvim` in the other tabs: when copilot
/// exits, the pane shows the standard "press Enter to re-run" prompt, and re-running
/// resumes the session (the launcher picks `--resume` after the first launch).
///
/// The `include_git` flag controls whether the "git" tab (which runs `gitui`) is present:
/// `gitui` fails outside a git repository, so callers omit that tab for sessions started
/// in a non-git directory.
pub fn layout_kdl(launcher: &str, uuid: &str, include_git: bool) -> (r: String)
    ensures
        r@ == layout(launcher@, uuid@, include_git),
{
    let git_tab = if include_git {
        GIT_TAB
    } else {
        ""
    };
    let head = cat5(
        LAYOUT_BARS,
        "    tab name=\"ai\" focus=true {\n        pane command=\"",
        launcher,
        "\" {\n            args \"",
        uuid,
    );
    cat4(&head, "\"\n        }\n    }\n", git_tab, EDIT_TAB)
}

/// The layout of the local side of a Codespace session.
pub open spec fn codespace_layout(
    uuid: Seq<char>,
    codespace_name: Seq<char>,
    remote_workdir: Seq<char>,
) -> Seq<char> {
    LAYOUT_BARS@
        + "    tab name=\"cs\" focus=true {\n        pane command=\"gh\" {\n            args \"codespace\" \"ssh\" \"--codespace\" \""@
        + codespace_name + "\" \"--\" \"-tt\" \"sh\" \""@ + launcher_text(codespace_name)
        + "\" \"--connect\" \""@ + uuid + "\" \""@ + remote_workdir
        + "\"\n        }\n    }\n}\n"@
}

/// Build the zellij layout KDL for a Codespace session: one tab that connects to it.
pub fn codespace_layout_kdl(uuid: &str, codespace_name: &str, remote_workdir: &str) -> (r: Result<
    String,
    Failure,
>)
    ensures
        match r {
            Ok(text) => crate::codespace::codespace_name(codespace_name@) && text@
                == codespace_layout(uuid@, codespace_name@, remote_workdir@),
            Err(f) => !crate::codespace::codespace_name(codespace_name@) && (
            f matches Failure::InvalidCodespaceName { name } && name@ == codespace_name@),
        },
{
    match remote_launcher_path(codespace_name) {
        Err(f) => Err(f),
        Ok(launcher) => {
            let head = cat3(
                LAYOUT_BARS,
                "    tab name=\"cs\" focus=true {\n        pane command=\"gh\" {\n            args \"codespace\" \"ssh\" \"--codespace\" \"",
                codespace_name,
            );
            let middle = cat5(
                &head,
                "\" \"--\" \"-tt\" \"sh\" \"",
                &launcher,
                "\" \"--connect\" \"",
                uuid,
            );
            Ok(cat4(&middle, "\" \"", remote_workdir, "\"\n        }\n    }\n}\n"))
        },
    }
}

// ── Scripts ─────────────────────────────────────────────────────────────────

/// Shell launcher for the copilot pane, written to `~/.csm/launch-copilot.sh` and invoked
/// as `launch-copilot.sh <uuid>`.
///
/// It records a per-session marker under `~/.csm/markers/<uuid>` the first time it runs
/// and uses that marker to choose between creating (`--session-id`) and resuming
/// (`--resume`) the copilot session. The marker is written *before* the first
/// `--session-id` launch, so a session killed before copilot exits cleanly still resumes
/// on its next launch.
pub const LAUNCHER_SCRIPT: &'static str = r#"#!/bin/sh
set -u
uuid="$1"
marker="${HOME}/.csm/markers/${uuid}"
if [ -f "$marker" ]; then
    exec copilot --yolo --autopilot --resume="$uuid"
fi
mkdir -p "${HOME}/.csm/markers"
: > "$marker"
exec copilot --yolo --autopilot --session-id="$uuid"
"#;

/// Shell launcher that is copied into a Codespace and runs copilot there under tmux.
pub const CODESPACE_LAUNCHER_SCRIPT: &'static str = r#"#!/bin/sh
set -eu
export PATH="$HOME/.local/bin:$PATH"

case "$1" in
    --check)
        workdir="$2"
        if [ ! -d "$workdir" ]; then
            printf 'Codespace workspace does not exist: %s\n' "$workdir" >&2
            exit 1
        fi
        if ! command -v tmux >/dev/null 2>&1; then
            if ! command -v apt-get >/dev/null 2>&1; then
                printf 'tmux is not installed and apt-get is unavailable; add tmux to the dev container\n' >&2
                exit 1
            fi
            printf 'tmux is not installed; installing it with apt-get...\n' >&2
            if [ "$(id -u)" -eq 0 ]; then
                apt-get update
                DEBIAN_FRONTEND=noninteractive apt-get install -y tmux
            elif command -v sudo >/dev/null 2>&1 && sudo -n true; then
                sudo -n apt-get update
                sudo -n env DEBIAN_FRONTEND=noninteractive apt-get install -y tmux
            else
                printf 'tmux installation requires root or passwordless sudo\n' >&2
                exit 1
            fi
        fi
        if ! command -v copilot >/dev/null 2>&1; then
            if ! command -v curl >/dev/null 2>&1; then
                printf 'Copilot CLI is not installed and curl is unavailable\n' >&2
                exit 1
            fi
            if ! command -v bash >/dev/null 2>&1; then
                printf 'Copilot CLI installation requires bash\n' >&2
                exit 1
            fi
            printf 'Copilot CLI is not installed; installing it...\n' >&2
            curl -fsSL https://gh.io/copilot-install | bash
            if ! command -v copilot >/dev/null 2>&1; then
                printf 'Copilot CLI installation completed but copilot is not on PATH\n' >&2
                exit 1
            fi
        fi
        mkdir -p "$HOME/.csm/markers"
        ;;
    --copilot)
        uuid="$2"
        marker="$HOME/.csm/markers/$uuid"
        if [ -f "$marker" ]; then
            exec copilot --yolo --autopilot --resume="$uuid"
        fi
        mkdir -p "$HOME/.csm/markers"
        : > "$marker"
        exec copilot --yolo --autopilot --session-id="$uuid"
        ;;
    --connect)
        uuid="$2"
        workdir="$3"
        launcher="$0"
        tmux_name="csm-${uuid%%-*}"
        if ! tmux has-session -t "$tmux_name" 2>/dev/null; then
            tmux new-session -d -s "$tmux_name" -n ai -c "$workdir" -- \
                sh "$launcher" --copilot "$uuid"
        elif ! tmux list-windows -t "$tmux_name" -F '#{window_name}' | grep -Fqx ai; then
            tmux new-window -d -t "$tmux_name:" -n ai -c "$workdir" -- \
                sh "$launcher" --copilot "$uuid"
        fi
        tmux select-window -t "$tmux_name:ai"
        exec tmux attach-session -t "$tmux_name"
        ;;
    *)
        printf 'Invalid Codespace launcher mode\n' >&2
        exit 2
        ;;
esac
"#;

/// Zellij configuration written to `~/.csm/config.kdl` and passed to every
/// freshly-launched session via `--config`.
pub const CONFIG_KDL: &'static str = r#"simplified_ui true
pane_frames false
"#;

/// A script under the data directory: its file name and its text.
#[derive(Debug)]
pub struct Script {
    pub file_name: &'static str,
    pub contents: &'static str,
}

/// The copilot launcher.
pub fn ensure_launcher() -> (r: Script)
    ensures
        r.file_name@ == "launch-copilot.sh"@,
        r.contents@ == LAUNCHER_SCRIPT@,
{
    Script { file_name: "launch-copilot.sh", contents: LAUNCHER_SCRIPT }
}

/// The launcher that is copied into Codespaces.
pub fn ensure_codespace_launcher() -> (r: Script)
    ensures
        r.file_name@ == "launch-codespace.sh"@,
        r.contents@ == CODESPACE_LAUNCHER_SCRIPT@,
{
    Script { file_name: "launch-codespace.sh", contents: CODESPACE_LAUNCHER_SCRIPT }
}

/// The zellij configuration.
pub fn ensure_config() -> (r: Script)
    ensures
        r.file_name@ == "config.kdl"@,
        r.contents@ == CONFIG_KDL@,
{
    Script { file_name: "config.kdl", contents: CONFIG_KDL }
}

// ── Session files ───────────────────────────────────────────────────────────

/// Accept UUIDs alone. These strings come from the database and are written into files
/// consumed by zellij and a shell script, so nothing that isn't a well-formed UUID is
/// ever allowed through.
pub fn validate_uuid(uuid: &str) -> (r: Result<(), Failure>)
    ensures
        match r {
            Ok(()) => well_formed_uuid(uuid@),
            Err(f) => !well_formed_uuid(uuid@) && (f matches Failure::InvalidUuid { uuid: u } && u@
                == uuid@),
        },
{
    if is_uuid(uuid) {
        Ok(())
    } else {
        Err(Failure::InvalidUuid { uuid: uuid.to_string() })
    }
}

/// A file that belongs to one session: its name and its text.
#[derive(Debug)]
pub struct SessionFile {
    pub file_name: String,
    pub contents: String,
}

/// The per-session zellij layout of a local session, named after its UUID.
pub fn ensure_layout(uuid: &str, launcher: &str, include_git: bool) -> (r: Result<
    SessionFile,
    Failure,
>)
    ensures
        match r {
            Ok(file) => {
                &&& well_formed_uuid(uuid@)
                &&& file.file_name@ == uuid@ + ".kdl"@
                &&& file.contents@ == layout(launcher@, uuid@, include_git)
            },
            Err(f) => !well_formed_uuid(uuid@) && (f matches Failure::InvalidUuid { uuid: u } && u@
                == uuid@),
        },
{
    match validate_uuid(uuid) {
        Ok(()) => Ok(
            SessionFile {
                file_name: cat2(uuid, ".kdl"),
                contents: layout_kdl(launcher, uuid, include_git),
            },
        ),
        Err(f) => Err(f),
    }
}

/// The per-session zellij layout of a Codespace session, named after its UUID.
pub fn ensure_codespace_layout(uuid: &str, codespace_name: &str, remote_workdir: &str) -> (r:
    Result<SessionFile, Failure>)
    ensures
        match r {
            Ok(file) => {
                &&& well_formed_uuid(uuid@)
                &&& crate::codespace::codespace_name(codespace_name@)
                &&& workspace_path(remote_workdir@)
                &&& file.file_name@ == uuid@ + ".kdl"@
                &&& file.contents@ == codespace_layout(uuid@, codespace_name@, remote_workdir@)
            },
            Err(Failure::InvalidUuid { uuid: u }) => !well_formed_uuid(uuid@) && u@ == uuid@,
            Err(Failure::InvalidCodespaceName { name }) => {
                &&& well_formed_uuid(uuid@)
                &&& !crate::codespace::codespace_name(codespace_name@)
                &&& name@ == codespace_name@
            },
            Err(Failure::InvalidWorkdir { workdir }) => {
                &&& well_formed_uuid(uuid@)
                &&& crate::codespace::codespace_name(codespace_name@)
                &&& !workspace_path(remote_workdir@)
                &&& workdir@ == remote_workdir@
            },
            Err(_) => false,
        },
{
    match validate_uuid(uuid) {
        Ok(()) => {},
        Err(f) => {
            return Err(f);
        },
    }
    if !is_codespace_name(codespace_name) {
        return Err(Failure::InvalidCodespaceName { name: codespace_name.to_string() });
    }
    if !is_workspace_path(remote_workdir) {
        return Err(Failure::InvalidWorkdir { workdir: remote_workdir.to_string() });
    }
    match codespace_layout_kdl(uuid, codespace_name, remote_workdir) {
        Ok(contents) => Ok(SessionFile { file_name: cat2(uuid, ".kdl"), contents }),
        Err(f) => Err(f),
    }
}

/// The name of the marker with which the next launch of a session resumes it.
pub fn ensure_marker(uuid: &str) -> (r: Result<String, Failure>)
    ensures
        match r {
            Ok(name) => well_formed_uuid(uuid@) && name@ == uuid@,
            Err(f) => !well_formed_uuid(uuid@) && (f matches Failure::InvalidUuid { uuid: u } && u@
                == uuid@),
        },
{
    match validate_uuid(uuid) {
        Ok(()) => Ok(uuid.to_string()),
        Err(f) => Err(f),
    }
}

/// The names of the marker and of the layout of a session that is destroyed. None if the
/// UUID is not well formed, so that nothing else is ever deleted.
pub fn cleanup_session_files(uuid: &str) -> (r: Option<(String, String)>)
    ensures
        match r {
            Some((marker, layout)) => {
                &&& well_formed_uuid(uuid@)
                &&& marker@ == uuid@
                &&& layout@ == uuid@ + ".kdl"@
            },
            None => !well_formed_uuid(uuid@),
        },
{
    if is_uuid(uuid) {
        Some((uuid.to_string(), cat2(uuid, ".kdl")))
    } else {
        None
    }
}

/// The file stems that belong to known sessions: each session's UUID and its shortcode.
pub open spec fn file_keys(known: Seq<Seq<char>>) -> Set<Seq<char>> {
    Set::new(
        |t: Seq<char>|
            exists|i: int| 0 <= i < known.len() && (t == #[trigger] known[i] || t == short_text(
                known[i],
            )),
    )
}

/// Build the set of filename stems that belong to known sessions: each session's full
/// UUID plus its 8-char shortcode. Older versions named layout files by shortcode
/// (`<shortcode>.kdl`) rather than the full UUID, so both forms must be preserved.
pub fn session_file_keys(known: &Vec<String>) -> (r: NameSet)
    ensures
        r@ == file_keys(texts(known@)),
{
    let mut keep = NameSet::new();
    let mut i: usize = 0;
    assert(keep@ =~= file_keys(texts(known@).take(0)));
    while i < known.len()
        invariant
            i <= known@.len(),
            keep@ == file_keys(texts(known@).take(i as int)),
        decreases known@.len() - i,
    {
        let ghost before = texts(known@).take(i as int);
        let ghost upto = texts(known@).take(i + 1);
        let ghost old_keep = keep@;
        keep.insert(known[i].clone());
        keep.insert(short_uuid(&known[i]));
        proof {
            let u = known@[i as int]@;
            assert(upto[i as int] == u);
            assert forall|t: Seq<char>| keep@.contains(t) == file_keys(upto).contains(t) by {
                if old_keep.contains(t) {
                    let k = choose|k: int| 0 <= k < before.len() && (t == #[trigger] before[k] || t
                        == short_text(before[k]));
                    assert(upto[k] == before[k]);
                }
                if file_keys(upto).contains(t) {
                    let k = choose|k: int| 0 <= k < upto.len() && (t == #[trigger] upto[k] || t
                        == short_text(upto[k]));
                    if k < i {
                        assert(before[k] == upto[k]);
                    }
                }
            }
            assert(keep@ =~= file_keys(upto));
        }
        i = i + 1;
    }
    assert(texts(known@).take(i as int) =~= texts(known@));
    keep
}

/// The position of the last dot of `s`, or -1.
pub open spec fn last_dot(s: Seq<char>) -> int
    decreases s.len(),
{
    if s.len() == 0 {
        -1
    } else if s.last() == '.' {
        s.len() - 1
    } else {
        last_dot(s.drop_last())
    }
}

/// A file name without its extension.
pub open spec fn file_stem(s: Seq<char>) -> Seq<char> {
    if last_dot(s) > 0 {
        s.take(last_dot(s))
    } else {
        s
    }
}

/// The extension of a file name: what follows its last dot, unless it only begins with
/// one.
pub open spec fn extension(s: Seq<char>) -> Option<Seq<char>> {
    if last_dot(s) > 0 {
        Some(s.skip(last_dot(s) + 1))
    } else {
        None
    }
}

/// A file belongs to no known session: it has the extension that is looked at, if one is
/// given, and its stem is not among the kept ones.
pub open spec fn orphan(file: Seq<char>, ext: Option<Seq<char>>, keep: Set<Seq<char>>) -> bool {
    (ext is Some ==> extension(file) == ext) && !keep.contains(file_stem(file))
}

proof fn last_dot_is(s: Seq<char>, i: int)
    requires
        -1 <= i < s.len(),
        i >= 0 ==> s[i] == '.',
        forall|j: int| i < j < s.len() ==> #[trigger] s[j] != '.',
    ensures
        last_dot(s) == i,
    decreases s.len(),
{
    if s.len() > 0 && i < s.len() - 1 {
        assert(s[s.len() - 1] != '.');
        last_dot_is(s.drop_last(), i);
    }
}

/// Whether a file in a directory of session files is an orphan, to be removed. When `ext`
/// is given, only files with that extension are considered.
pub fn is_orphan(file: &str, ext: Option<&str>, keep: &NameSet) -> (r: bool)
    ensures
        r == orphan(
            file@,
            match ext {
                Some(e) => Some(e@),
                None => None,
            },
            keep@,
        ),
{
    let v = to_chars(file);
    let n = v.len();
    let mut i: usize = n;
    while i > 0 && v[i - 1] != '.'
        invariant
            i <= n,
            n == v@.len(),
            v@ == file@,
            forall|j: int| i <= j < n ==> #[trigger] v@[j] != '.',
        decreases i,
    {
        i = i - 1;
    }
    proof {
        last_dot_is(file@, i - 1);
    }
    let dotted = i > 1;
    match ext {
        Some(want) => {
            if !dotted {
                return false;
            }
            let found = collect(&v, i, n);
            assert(found@ =~= file@.skip(i as int));
            if !same(&found, want) {
                return false;
            }
        },
        None => {},
    }
    let stem = if dotted {
        collect(&v, 0, i - 1)
    } else {
        file.to_string()
    };
    assert(stem@ =~= file_stem(file@));
    !keep.contains(&stem)
}

/// The orphans among the files of a directory, in their order.
pub open spec fn orphans(
    files: Seq<Seq<char>>,
    ext: Option<Seq<char>>,
    keep: Set<Seq<char>>,
) -> Seq<Seq<char>> {
    files.filter(|f: Seq<char>| orphan(f, ext, keep))
}

/// The files of a directory of session files that are orphans, to be removed. When `ext` is
/// given, only files with that extension are considered.
pub fn prune_dir(files: &Vec<String>, ext: Option<&str>, keep: &NameSet) -> (r: Vec<String>)
    ensures
        texts(r@) == orphans(
            texts(files@),
            match ext {
                Some(e) => Some(e@),
                None => None,
            },
            keep@,
        ),
{
    let ghost want = match ext {
        Some(e) => Some(e@),
        None => None,
    };
    let mut found: Vec<String> = Vec::new();
    let mut i: usize = 0;
    proof {
        reveal(Seq::filter);
        assert(texts(found@) =~= orphans(texts(files@).take(0), want, keep@));
    }
    while i < files.len()
        invariant
            i <= files@.len(),
            want == (match ext {
                Some(e) => Some(e@),
                None => None,
            }),
            texts(found@) == orphans(texts(files@).take(i as int), want, keep@),
        decreases files@.len() - i,
    {
        let ghost before = found@;
        proof {
            reveal(Seq::filter);
            let upto = texts(files@).take(i + 1);
            assert(upto.drop_last() =~= texts(files@).take(i as int));
            assert(upto.last() == files@[i as int]@);
        }
        if is_orphan(&files[i], ext, keep) {
            found.push(files[i].clone());
            assert(texts(found@) =~= texts(before).push(files@[i as int]@));
        }
        i = i + 1;
    }
    assert(texts(files@).take(i as int) =~= texts(files@));
    found
}

/// The layouts and the markers that belong to no known session, to be removed. A layout is
/// a file with the extension `kdl`.
pub fn prune_orphans(layouts: &Vec<String>, markers: &Vec<String>, known: &Vec<String>) -> (r: (
    Vec<String>,
    Vec<String>,
))
    ensures
        texts(r.0@) == orphans(texts(layouts@), Some("kdl"@), file_keys(texts(known@))),
        texts(r.1@) == orphans(texts(markers@), None, file_keys(texts(known@))),
{
    let keep = session_file_keys(known);
    (prune_dir(layouts, Some("kdl"), &keep), prune_dir(markers, None, &keep))
}

// ── Running sessions ────────────────────────────────────────────────────────

/// The zellij sessions that exist, each with whether it runs.
#[derive(Debug)]
pub struct State {
    sessions: Vec<(String, bool)>,
}

/// The texts of a list of sessions.
pub open spec fn session_texts(sessions: Seq<(String, bool)>) -> Seq<(Seq<char>, bool)> {
    sessions.map_values(|s: (String, bool)| (s.0@, s.1))
}

impl View for State {
    type V = Seq<(Seq<char>, bool)>;

    closed spec fn view(&self) -> Seq<(Seq<char>, bool)> {
        session_texts(self.sessions@)
    }
}

/// A session called `name` runs.
pub open spec fn runs(sessions: Seq<(Seq<char>, bool)>, name: Seq<char>) -> bool {
    exists|i: int| 0 <= i < sessions.len() && #[trigger] sessions[i] == (name, true)
}

/// A session called `name` exists.
pub open spec fn listed(sessions: Seq<(Seq<char>, bool)>, name: Seq<char>) -> bool {
    exists|i: int| 0 <= i < sessions.len() && (#[trigger] sessions[i]).0 == name
}

/// The status of the first session called `name`.
pub open spec fn status_text(sessions: Seq<(Seq<char>, bool)>, name: Seq<char>) -> Seq<char>
    decreases sessions.len(),
{
    if sessions.len() == 0 {
        "stopped"@
    } else if sessions.first().0 == name {
        if sessions.first().1 {
            "running"@
        } else {
            "exited"@
        }
    } else {
        status_text(sessions.drop_first(), name)
    }
}

impl State {
    /// The sessions in the answer of `zellij list-sessions -n`. None if zellij could not be
    /// run.
    pub fn query(reply: &Reply) -> (r: Self)
        ensures
            r@ == (match *reply {
                Reply::NotRun { .. } => Seq::empty(),
                Reply::Finished(o) => listed_sessions(text_lines(lossy_text(o.stdout@))),
            }),
    {
        let sessions = match reply {
            Reply::NotRun { .. } => Vec::new(),
            Reply::Finished(output) => parse_list_sessions(&lossy(&output.stdout)),
        };
        let r = State { sessions };
        assert(reply is NotRun ==> r@ =~= Seq::empty());
        r
    }

    /// The state made of a list of sessions.
    pub fn from_sessions(sessions: Vec<(String, bool)>) -> (r: Self)
        ensures
            r@ == session_texts(sessions@),
    {
        State { sessions }
    }

    /// Whether a session called `name` runs.
    pub fn is_running(&self, name: &str) -> (r: bool)
        ensures
            r == runs(self@, name@),
    {
        let mut i: usize = 0;
        while i < self.sessions.len()
            invariant
                i <= self.sessions@.len(),
                forall|j: int| 0 <= j < i ==> #[trigger] self@[j] != (name@, true),
            decreases self.sessions@.len() - i,
        {
            if same(&self.sessions[i].0, name) && self.sessions[i].1 {
                assert(self@[i as int] == (name@, true));
                return true;
            }
            i = i + 1;
        }
        false
    }

    /// Whether a session called `name` exists.
    pub fn is_listed(&self, name: &str) -> (r: bool)
        ensures
            r == listed(self@, name@),
    {
        let mut i: usize = 0;
        while i < self.sessions.len()
            invariant
                i <= self.sessions@.len(),
                forall|j: int| 0 <= j < i ==> (#[trigger] self@[j]).0 != name@,
            decreases self.sessions@.len() - i,
        {
            if same(&self.sessions[i].0, name) {
                assert(self@[i as int].0 == name@);
                return true;
            }
            i = i + 1;
        }
        false
    }

    /// Return a display-friendly status based on zellij state.
    pub fn display_status(&self, name: &str) -> (r: &'static str)
        ensures
            r@ == status_text(self@, name@),
    {
        let mut i: usize = 0;
        assert(self@.skip(0) =~= self@);
        while i < self.sessions.len()
            invariant
                i <= self.sessions@.len(),
                status_text(self@, name@) == status_text(self@.skip(i as int), name@),
            decreases self.sessions@.len() - i,
        {
            let ghost rest = self@.skip(i as int);
            assert(rest.first() == self@[i as int]);
            assert(rest.drop_first() =~= self@.skip(i + 1));
            if same(&self.sessions[i].0, name) {
                return if self.sessions[i].1 {
                    "running"
                } else {
                    "exited"
                };
            }
            i = i + 1;
        }
        "stopped"
    }
}

/// The sessions in a list that `zellij` printed: the first word of each line that has one
/// is the name, and the session runs unless the line says `EXITED`.
pub open spec fn listed_sessions(lines: Seq<Seq<char>>) -> Seq<(Seq<char>, bool)>
    decreases lines.len(),
{
    if lines.len() == 0 {
        Seq::empty()
    } else {
        let before = listed_sessions(lines.drop_last());
        let line = lines.last();
        if first_word_of(line).len() == 0 {
            before
        } else {
            before.push((first_word_of(line), !holds_text(line, "EXITED"@)))
        }
    }
}

/// Parse the output of `zellij list-sessions -n`. Each non-empty line begins with a
/// session name; the line is treated as "running" unless it contains the literal `EXITED`
/// marker.
pub fn parse_list_sessions(stdout: &str) -> (r: Vec<(String, bool)>)
    ensures
        session_texts(r@) == listed_sessions(text_lines(stdout@)),
{
    let all = lines(stdout);
    let mut out: Vec<(String, bool)> = Vec::new();
    let mut i: usize = 0;
    assert(session_texts(out@) =~= listed_sessions(texts(all@).take(0)));
    while i < all.len()
        invariant
            i <= all@.len(),
            session_texts(out@) == listed_sessions(texts(all@).take(i as int)),
        decreases all@.len() - i,
    {
        let ghost upto = texts(all@).take(i + 1);
        let ghost before = out@;
        assert(upto.drop_last() =~= texts(all@).take(i as int));
        assert(upto.last() == all@[i as int]@);
        let name = first_word(&all[i]);
        if !name.as_str().is_empty() {
            let running = !contains(&all[i], "EXITED");
            out.push((name, running));
            assert(session_texts(out@) =~= session_texts(before).push((name@, running)));
        }
        i = i + 1;
    }
    assert(texts(all@).take(i as int) =~= texts(all@));
    out
}

/// One of the lines is `name`, but for surrounding white space.
pub open spec fn has_line(lines: Seq<Seq<char>>, name: Seq<char>) -> bool {
    exists|i: int| 0 <= i < lines.len() && trimmed(#[trigger] lines[i]) == name
}

/// Whether the output of `zellij list-sessions -s` names a session.
pub fn session_exists(stdout: &str, name: &str) -> (r: bool)
    ensures
        r == has_line(text_lines(stdout@), name@),
{
    let all = lines(stdout);
    let mut i: usize = 0;
    while i < all.len()
        invariant
            i <= all@.len(),
            texts(all@) == text_lines(stdout@),
            forall|j: int| 0 <= j < i ==> trimmed(#[trigger] text_lines(stdout@)[j]) != name@,
        decreases all@.len() - i,
    {
        assert(texts(all@)[i as int] == all@[i as int]@);
        if same(&trim(&all[i]), name) {
            return true;
        }
        i = i + 1;
    }
    assert(texts(all@).len() == all@.len());
    false
}

/// Whether a session is named in the answer of `zellij list-sessions -s`. It counts as gone if
/// zellij could not be run.
pub fn is_still_listed(reply: &Reply, uuid: &str) -> (r: bool)
    ensures
        r == (reply matches Reply::Finished(o) && has_line(
            text_lines(lossy_text(o.stdout@)),
            short_text(uuid@),
        )),
{
    match reply {
        Reply::NotRun { .. } => false,
        Reply::Finished(output) => session_exists(&lossy(&output.stdout), &short_uuid(uuid)),
    }
}

// ── Command lines ───────────────────────────────────────────────────────────

/// A run of the zellij client for the session of a UUID.
#[derive(Debug)]
pub enum LocalCommand {
    /// Create the session from a layout, in a directory. This creates a new session even
    /// when the caller is already inside zellij.
    Launch { config: String, layout: String, uuid: String, dir: Dir },
    /// Attach to the running session.
    Attach { uuid: String },
}

/// The arguments of zellij that list all sessions with their states.
pub fn list_args() -> (r: Vec<String>)
    ensures
        texts(r@) == seq!["list-sessions"@, "-n"@],
{
    let mut args: Vec<String> = Vec::new();
    args.push("list-sessions".to_string());
    args.push("-n".to_string());
    assert(texts(args@) =~= seq!["list-sessions"@, "-n"@]);
    args
}

/// The arguments of zellij that list the names of all sessions.
pub fn list_names_args() -> (r: Vec<String>)
    ensures
        texts(r@) == seq!["list-sessions"@, "-s"@],
{
    let mut args: Vec<String> = Vec::new();
    args.push("list-sessions".to_string());
    args.push("-s".to_string());
    assert(texts(args@) =~= seq!["list-sessions"@, "-s"@]);
    args
}

/// The arguments of zellij that kill a running session.
pub fn stop(uuid: &str) -> (r: Vec<String>)
    ensures
        texts(r@) == seq!["kill-session"@, short_text(uuid@)],
{
    let mut args: Vec<String> = Vec::new();
    args.push("kill-session".to_string());
    args.push(short_uuid(uuid));
    assert(texts(args@) =~= seq!["kill-session"@, short_text(uuid@)]);
    args
}

/// The arguments of zellij that delete an exited session.
pub fn cleanup(uuid: &str) -> (r: Vec<String>)
    ensures
        texts(r@) == seq!["delete-session"@, short_text(uuid@)],
{
    let mut args: Vec<String> = Vec::new();
    args.push("delete-session".to_string());
    args.push(short_uuid(uuid));
    assert(texts(args@) =~= seq!["delete-session"@, short_text(uuid@)]);
    args
}

/// The arguments with which the zellij client is run.
pub open spec fn client_args(command: LocalCommand) -> Seq<Seq<char>> {
    match command {
        LocalCommand::Launch { config, layout, uuid, dir } => seq![
            "--config"@,
            config@,
            "-s"@,
            short_text(uuid@),
            "-n"@,
            layout@,
        ],
        LocalCommand::Attach { uuid } => seq!["attach"@, short_text(uuid@)],
    }
}

/// The arguments with which the zellij client is run.
pub fn zellij_args(command: &LocalCommand) -> (r: Vec<String>)
    ensures
        texts(r@) == client_args(*command),
{
    let mut args: Vec<String> = Vec::new();
    match command {
        LocalCommand::Launch { config, layout, uuid, dir } => {
            args.push("--config".to_string());
            args.push(config.clone());
            args.push("-s".to_string());
            args.push(short_uuid(uuid));
            args.push("-n".to_string());
            args.push(layout.clone());
        },
        LocalCommand::Attach { uuid } => {
            args.push("attach".to_string());
            args.push(short_uuid(uuid));
        },
    }
    assert(texts(args@) =~= client_args(*command));
    args
}

} // verus!
