//! GitHub Codespaces: which names and paths are accepted, and how the answers of `gh`
//! and of the remote launcher are read.

use vstd::prelude::*;

pub mod laws;
pub mod operations;

pub use self::operations::{
    cleanup_remote_zellij, connect_zellij, create, current_state, delete, delete_if_exists,
    prepare_remote, remote_zellij_ready, remote_zellij_state, stop,
};

use vstd::utf8::{decode_utf8, valid_utf8};

use crate::display::{short_text, short_uuid};
use crate::failure::Failure;
use crate::ids::{is_uuid, well_formed_uuid};
use crate::names::NameMap;
use crate::process::{
    checked_output, complaint, decode, is_checked_output, lossy, output_text, utf8_complaint,
    Reply,
};
use crate::text::{
    ascii_alphanumeric, cat2, cat3, cat4, cat5, collect, contains, has_prefix, holds_text,
    is_ascii_alphanumeric, same, starts_with, to_chars, trim, trimmed,
};

verus! {

/// The number of characters that the display name of a Codespace may have.
pub const MAX_DISPLAY_NAME_LEN: usize = 48;

/// A repository on GitHub and its default branch.
#[derive(Debug, PartialEq, Eq)]
pub struct RepoInfo {
    pub name_with_owner: String,
    pub default_branch: String,
}

impl Clone for RepoInfo {
    fn clone(&self) -> (r: Self)
        ensures
            r == *self,
    {
        RepoInfo {
            name_with_owner: self.name_with_owner.clone(),
            default_branch: self.default_branch.clone(),
        }
    }
}

/// The state of a Codespace and the branch that is checked out in it.
#[derive(Debug, PartialEq, Eq)]
pub struct RemoteState {
    pub state: String,
    pub branch: Option<String>,
}

impl Clone for RemoteState {
    fn clone(&self) -> (r: Self)
        ensures
            r == *self,
    {
        RemoteState { state: self.state.clone(), branch: self.branch.clone() }
    }
}

/// The state of the remote session inside a Codespace. `Connecting` is only kept locally,
/// while a client is being connected; `LegacyTmux` is a session that runs under tmux.
#[derive(Clone, Copy, Debug, PartialEq, Eq, Structural)]
pub enum RemoteZellijState {
    Connecting,
    Running,
    Exited,
    Missing,
    LegacyTmux,
}

/// What the preparation of a Codespace found.
#[derive(Clone, Copy, Debug, PartialEq, Eq, Structural)]
pub enum RemoteSetupOutcome {
    Ready,
    LegacyTmux,
}

/// What the preparation of a Codespace needs: the three local files to copy, and whom
/// they are for.
#[derive(Debug)]
pub struct RemoteSetup {
    pub name: String,
    pub workdir: String,
    pub launcher: String,
    pub layout: String,
    pub config: String,
    pub uuid: String,
    pub resume: bool,
    pub github_login: String,
}

/// One Codespace as `gh codespace list` gives its state.
#[derive(Debug)]
pub struct CodespaceListItem {
    pub name: String,
    pub state: String,
    pub branch: Option<String>,
}

/// One Codespace as `gh codespace list` gives its names.
#[derive(Debug)]
pub struct CodespaceIdentity {
    pub name: String,
    pub display_name: String,
}

// ── Names and paths ─────────────────────────────────────────────────────────

/// ASCII letters, digits and hyphens alone.
pub open spec fn plain_word(s: Seq<char>) -> bool {
    s.len() > 0 && forall|i: int|
        0 <= i < s.len() ==> ascii_alphanumeric(#[trigger] s[i]) || s[i] == '-'
}

/// A Codespace name: ASCII letters, digits and hyphens, with no hyphen at either end.
pub open spec fn codespace_name(s: Seq<char>) -> bool {
    plain_word(s) && s.first() != '-' && s.last() != '-'
}

fn is_plain_word(s: &str) -> (r: bool)
    ensures
        r == plain_word(s@),
{
    let v = to_chars(s);
    let mut i: usize = 0;
    while i < v.len()
        invariant
            i <= v@.len(),
            v@ == s@,
            forall|j: int| 0 <= j < i ==> ascii_alphanumeric(#[trigger] v@[j]) || v@[j] == '-',
        decreases v@.len() - i,
    {
        if !is_ascii_alphanumeric(v[i]) && v[i] != '-' {
            assert(!(ascii_alphanumeric(s@[i as int]) || s@[i as int] == '-'));
            return false;
        }
        i = i + 1;
    }
    v.len() > 0
}

/// Whether `name` is a Codespace name.
pub fn is_codespace_name(name: &str) -> (r: bool)
    ensures
        r == codespace_name(name@),
{
    if !is_plain_word(name) {
        return false;
    }
    let v = to_chars(name);
    v[0] != '-' && v[v.len() - 1] != '-'
}

/// Accept Codespace names alone.
pub fn validate_name(name: &str) -> (r: Result<(), Failure>)
    ensures
        match r {
            Ok(()) => codespace_name(name@),
            Err(f) => !codespace_name(name@) && (f matches Failure::InvalidCodespaceName { name: n }
                && n@ == name@),
        },
{
    if is_codespace_name(name) {
        Ok(())
    } else {
        Err(Failure::InvalidCodespaceName { name: name.to_string() })
    }
}

/// The directory in which a Codespace keeps its workspaces.
pub const WORKSPACES: &'static str = "/workspaces/";

/// A directory name of ASCII letters, digits, dots, underscores and hyphens.
pub open spec fn workspace_name(s: Seq<char>) -> bool {
    s.len() > 0 && forall|i: int|
        0 <= i < s.len() ==> ascii_alphanumeric(#[trigger] s[i]) || s[i] == '.' || s[i] == '_'
            || s[i] == '-'
}

/// A directory directly under the workspaces of a Codespace.
pub open spec fn workspace_path(s: Seq<char>) -> bool {
    has_prefix(s, WORKSPACES@) && workspace_name(s.skip(WORKSPACES@.len() as int))
}

/// Whether `workdir` is a workspace of a Codespace.
pub fn is_workspace_path(workdir: &str) -> (r: bool)
    ensures
        r == workspace_path(workdir@),
{
    if !starts_with(workdir, WORKSPACES) {
        return false;
    }
    let v = to_chars(workdir);
    let from = to_chars(WORKSPACES).len();
    let ghost rest = workdir@.skip(from as int);
    let mut i: usize = from;
    while i < v.len()
        invariant
            from <= i <= v@.len(),
            v@ == workdir@,
            from == WORKSPACES@.len(),
            rest == workdir@.skip(from as int),
            forall|j: int|
                from <= j < i ==> ascii_alphanumeric(#[trigger] v@[j]) || v@[j] == '.' || v@[j]
                    == '_' || v@[j] == '-',
        decreases v@.len() - i,
    {
        let c = v[i];
        if !is_ascii_alphanumeric(c) && c != '.' && c != '_' && c != '-' {
            assert(rest[i - from] == c);
            return false;
        }
        i = i + 1;
    }
    assert forall|j: int| 0 <= j < rest.len() implies ascii_alphanumeric(#[trigger] rest[j])
        || rest[j] == '.' || rest[j] == '_' || rest[j] == '-' by {
        assert(rest[j] == v@[j + from]);
    }
    v.len() > from
}

/// Accept workspaces of a Codespace alone.
pub fn validate_remote_workdir(workdir: &str) -> (r: Result<(), Failure>)
    ensures
        match r {
            Ok(()) => workspace_path(workdir@),
            Err(f) => !workspace_path(workdir@) && (f matches Failure::InvalidWorkdir { workdir: w }
                && w@ == workdir@),
        },
{
    if is_workspace_path(workdir) {
        Ok(())
    } else {
        Err(Failure::InvalidWorkdir { workdir: workdir.to_string() })
    }
}

/// What follows the last slash of `s`.
pub open spec fn after_slash(s: Seq<char>) -> Seq<char>
    decreases s.len(),
{
    if s.len() == 0 || s.last() == '/' {
        Seq::empty()
    } else {
        after_slash(s.drop_last()).push(s.last())
    }
}

/// The workspace of a repository in owner/name form.
pub open spec fn workdir_text(repo: Seq<char>) -> Seq<char> {
    WORKSPACES@ + after_slash(repo)
}

/// The workspace of a repository in owner/name form.
pub fn workdir_of(repo: &str) -> (r: String)
    ensures
        r@ == workdir_text(repo@),
{
    cat2(WORKSPACES, &after_last_slash(repo))
}

/// Why a repository has no workspace, if it has none.
pub open spec fn workdir_failure(repo: String) -> Option<Failure> {
    if !repo@.contains('/') {
        Some(Failure::RepoForm)
    } else if !workspace_path(workdir_text(repo@)) {
        Some(Failure::UnsafeRepository { repo })
    } else {
        None
    }
}

fn split_repo(repo: &str) -> (r: (bool, String))
    ensures
        r.0 == repo@.contains('/'),
        r.1@ == after_slash(repo@),
{
    let v = to_chars(repo);
    let mut seen = false;
    let mut name = String::new();
    let mut i: usize = 0;
    while i < v.len()
        invariant
            i <= v@.len(),
            v@ == repo@,
            seen == v@.take(i as int).contains('/'),
            name@ == after_slash(v@.take(i as int)),
        decreases v@.len() - i,
    {
        let ghost before = v@.take(i as int);
        let ghost upto = v@.take(i + 1);
        assert(upto.drop_last() =~= before);
        assert(upto.last() == v@[i as int]);
        if v[i] == '/' {
            seen = true;
            name = String::new();
            assert(name@ =~= Seq::<char>::empty());
            assert(upto[i as int] == '/');
        } else {
            name.push(v[i]);
            proof {
                if before.contains('/') {
                    let k = before.index_of('/');
                    assert(upto[k] == '/');
                }
                if upto.contains('/') {
                    let k = upto.index_of('/');
                    assert(before[k] == '/');
                }
            }
        }
        i = i + 1;
    }
    assert(v@.take(i as int) =~= repo@);
    (seen, name)
}

/// What follows the last slash of `s`.
pub fn after_last_slash(s: &str) -> (r: String)
    ensures
        r@ == after_slash(s@),
{
    split_repo(s).1
}

/// Why a repository has no workspace, if it has none.
pub fn check_workdir(repo: &String) -> (r: Option<Failure>)
    ensures
        r == workdir_failure(*repo),
{
    let (owned, name) = split_repo(repo);
    let workdir = cat2(WORKSPACES, &name);
    if !owned {
        Some(Failure::RepoForm)
    } else if !is_workspace_path(&workdir) {
        Some(Failure::UnsafeRepository { repo: repo.clone() })
    } else {
        None
    }
}

/// The workspace of a repository in owner/name form.
pub fn remote_workdir(repo: &str) -> (r: Result<String, Failure>)
    ensures
        match r {
            Ok(workdir) => {
                &&& repo@.contains('/')
                &&& workdir@ == workdir_text(repo@)
                &&& workspace_path(workdir@)
            },
            Err(Failure::RepoForm) => !repo@.contains('/'),
            Err(Failure::UnsafeRepository { repo: given }) => {
                &&& repo@.contains('/')
                &&& !workspace_path(workdir_text(repo@))
                &&& given@ == repo@
            },
            Err(_) => false,
        },
{
    let (owned, name) = split_repo(repo);
    let workdir = cat2(WORKSPACES, &name);
    if !owned {
        return Err(Failure::RepoForm);
    }
    if !is_workspace_path(&workdir) {
        return Err(Failure::UnsafeRepository { repo: repo.to_string() });
    }
    Ok(workdir)
}

/// Where the launcher of a Codespace lies.
pub open spec fn launcher_text(name: Seq<char>) -> Seq<char> {
    "/tmp/csm-"@ + name + "-launch-codespace.sh"@
}

/// Where the layout of a session lies in its Codespace.
pub open spec fn layout_text(name: Seq<char>, uuid: Seq<char>) -> Seq<char> {
    "/tmp/csm-"@ + name + "-"@ + short_text(uuid) + ".kdl"@
}

/// Where the configuration lies in a Codespace.
pub open spec fn config_text(name: Seq<char>) -> Seq<char> {
    "/tmp/csm-"@ + name + "-config.kdl"@
}

/// The path of the launcher in a Codespace.
pub fn remote_launcher_path(codespace_name: &str) -> (r: Result<String, Failure>)
    ensures
        match r {
            Ok(path) => self::codespace_name(codespace_name@) && path@ == launcher_text(
                codespace_name@,
            ),
            Err(f) => !self::codespace_name(codespace_name@) && (
            f matches Failure::InvalidCodespaceName { name } && name@ == codespace_name@),
        },
{
    match validate_name(codespace_name) {
        Ok(()) => Ok(launcher_path(codespace_name)),
        Err(f) => Err(f),
    }
}

/// The path of a session's layout in its Codespace.
pub fn remote_layout_path(codespace_name: &str, uuid: &str) -> (r: Result<String, Failure>)
    ensures
        match r {
            Ok(path) => {
                &&& self::codespace_name(codespace_name@)
                &&& well_formed_uuid(uuid@)
                &&& path@ == layout_text(codespace_name@, uuid@)
            },
            Err(Failure::InvalidCodespaceName { name }) => !self::codespace_name(codespace_name@)
                && name@ == codespace_name@,
            Err(Failure::InvalidUuid { uuid: u }) => {
                &&& self::codespace_name(codespace_name@)
                &&& !well_formed_uuid(uuid@)
                &&& u@ == uuid@
            },
            Err(_) => false,
        },
{
    match validate_name(codespace_name) {
        Ok(()) => {
            if is_uuid(uuid) {
                Ok(layout_path(codespace_name, uuid))
            } else {
                Err(Failure::InvalidUuid { uuid: uuid.to_string() })
            }
        },
        Err(f) => Err(f),
    }
}

/// The path of the configuration in a Codespace.
pub fn remote_config_path(codespace_name: &str) -> (r: Result<String, Failure>)
    ensures
        match r {
            Ok(path) => self::codespace_name(codespace_name@) && path@ == config_text(
                codespace_name@,
            ),
            Err(f) => !self::codespace_name(codespace_name@) && (
            f matches Failure::InvalidCodespaceName { name } && name@ == codespace_name@),
        },
{
    match validate_name(codespace_name) {
        Ok(()) => Ok(config_path(codespace_name)),
        Err(f) => Err(f),
    }
}

/// The path of the launcher in the Codespace `name`.
pub fn launcher_path(name: &str) -> (r: String)
    ensures
        r@ == launcher_text(name@),
{
    cat3("/tmp/csm-", name, "-launch-codespace.sh")
}

/// The path of a session's layout in the Codespace `name`.
pub fn layout_path(name: &str, uuid: &str) -> (r: String)
    ensures
        r@ == layout_text(name@, uuid@),
{
    cat5("/tmp/csm-", name, "-", &short_uuid(uuid), ".kdl")
}

/// The path of the configuration in the Codespace `name`.
pub fn config_path(name: &str) -> (r: String)
    ensures
        r@ == config_text(name@),
{
    cat3("/tmp/csm-", name, "-config.kdl")
}

/// The display name of a session's Codespace: its shortcode and name, cut to the length
/// that GitHub allows.
pub open spec fn display_name_text(session_name: Seq<char>, uuid: Seq<char>) -> Seq<char> {
    let full = "csm-"@ + short_text(uuid) + "-"@ + session_name;
    full.take(if full.len() <= MAX_DISPLAY_NAME_LEN {
        full.len() as int
    } else {
        MAX_DISPLAY_NAME_LEN as int
    })
}

/// The display name of a session's Codespace.
pub fn codespace_display_name(session_name: &str, uuid: &str) -> (r: String)
    ensures
        r@ == display_name_text(session_name@, uuid@),
{
    let full = cat4("csm-", &short_uuid(uuid), "-", session_name);
    let v = to_chars(&full);
    let n = if v.len() <= MAX_DISPLAY_NAME_LEN {
        v.len()
    } else {
        MAX_DISPLAY_NAME_LEN
    };
    collect(&v, 0, n)
}

// ── Accounts ────────────────────────────────────────────────────────────────

/// `r` is the login in `stdout`, or a failure if that is not one.
pub open spec fn is_login(stdout: Seq<char>, r: Result<String, Failure>) -> bool {
    if plain_word(trimmed(stdout)) {
        r matches Ok(login) && login@ == trimmed(stdout)
    } else {
        r == Err::<String, Failure>(Failure::InvalidLogin)
    }
}

/// The login that `gh` printed.
pub fn parse_login(stdout: &str) -> (r: Result<String, Failure>)
    ensures
        is_login(stdout@, r),
{
    let login = trim(stdout);
    if is_plain_word(&login) {
        Ok(login)
    } else {
        Err(Failure::InvalidLogin)
    }
}

/// Accept the account that owns a Codespace alone.
pub fn verify_account(current_login: &str, expected_login: &str) -> (r: Result<(), Failure>)
    ensures
        match r {
            Ok(()) => current_login@ == expected_login@,
            Err(f) => current_login@ != expected_login@ && (f matches Failure::WrongAccount {
                current,
                expected,
            } && current@ == current_login@ && expected@ == expected_login@),
        },
{
    if same(current_login, expected_login) {
        Ok(())
    } else {
        Err(
            Failure::WrongAccount {
                current: current_login.to_string(),
                expected: expected_login.to_string(),
            },
        )
    }
}

/// Whether `gh` is logged in, read from the answer of `gh auth status`.
pub fn check_auth(reply: Reply) -> (r: Result<(), Failure>)
    ensures
        match r {
            Ok(()) => output_text(reply) is Some,
            Err(f) => output_text(reply) is None && is_checked_output(
                reply,
                "gh auth status"@,
                Err(f),
            ),
        },
{
    match checked_output(reply, "gh auth status") {
        Ok(_) => Ok(()),
        Err(f) => Err(f),
    }
}

/// The account that `gh` acts for, read from the answer of `gh api user`.
pub fn current_login(reply: Reply) -> (r: Result<String, Failure>)
    ensures
        match output_text(reply) {
            Some(stdout) => is_login(stdout, r),
            None => r is Err && is_checked_output(reply, "gh api user"@, r),
        },
{
    match checked_output(reply, "gh api user") {
        Ok(stdout) => parse_login(&stdout),
        Err(f) => Err(f),
    }
}

// ── Repositories and Codespaces ─────────────────────────────────────────────

/// What `gh repo view` says of a repository, if it has a default branch.
pub fn repo_info(name_with_owner: String, default_branch: Option<String>) -> (r: Result<
    RepoInfo,
    Failure,
>)
    ensures
        r == (match default_branch {
            Some(default_branch) => Ok::<RepoInfo, Failure>(
                (RepoInfo { name_with_owner, default_branch }),
            ),
            None => Err(Failure::NoDefaultBranch),
        }),
{
    match default_branch {
        Some(default_branch) => Ok(RepoInfo { name_with_owner, default_branch }),
        None => Err(Failure::NoDefaultBranch),
    }
}

/// The states of the listed Codespaces by name.
pub open spec fn listed_states(items: Seq<CodespaceListItem>) -> Map<Seq<char>, RemoteState>
    decreases items.len(),
{
    if items.len() == 0 {
        Map::empty()
    } else {
        let item = items.last();
        listed_states(items.drop_last()).insert(
            item.name@,
            RemoteState { state: item.state, branch: item.branch },
        )
    }
}

/// The states of the listed Codespaces by name.
pub fn list_states(items: Vec<CodespaceListItem>) -> (r: NameMap<RemoteState>)
    ensures
        r@ == listed_states(items@),
{
    let mut states: NameMap<RemoteState> = NameMap::new();
    let mut i: usize = 0;
    while i < items.len()
        invariant
            i <= items@.len(),
            states@ == listed_states(items@.take(i as int)),
        decreases items@.len() - i,
    {
        let item = &items[i];
        assert(items@.take(i + 1).drop_last() =~= items@.take(i as int));
        states.insert(
            item.name.clone(),
            RemoteState { state: item.state.clone(), branch: item.branch.clone() },
        );
        i = i + 1;
    }
    assert(items@.take(i as int) =~= items@);
    states
}

/// The names of the Codespaces with a display name, in the order of the list.
pub open spec fn named(items: Seq<CodespaceIdentity>, display_name: Seq<char>) -> Seq<String>
    decreases items.len(),
{
    if items.len() == 0 {
        Seq::empty()
    } else {
        let before = named(items.drop_last(), display_name);
        if items.last().display_name@ == display_name {
            before.push(items.last().name)
        } else {
            before
        }
    }
}

/// The name of the one Codespace with a display name, if there is one.
pub fn find_by_display_name(items: &Vec<CodespaceIdentity>, display_name: &str) -> (r: Result<
    Option<String>,
    Failure,
>)
    ensures
        ({
            let found = named(items@, display_name@);
            if found.len() == 0 {
                r == Ok::<Option<String>, Failure>(None)
            } else if found.len() == 1 {
                r == Ok::<Option<String>, Failure>(Some(found[0]))
            } else {
                r matches Err(Failure::DuplicateDisplayName { display_name: d }) && d@
                    == display_name@
            }
        }),
{
    let mut found: Option<String> = None;
    let mut many = false;
    let mut i: usize = 0;
    while i < items.len()
        invariant
            i <= items@.len(),
            many == (named(items@.take(i as int), display_name@).len() > 1),
            !many ==> match found {
                None => named(items@.take(i as int), display_name@).len() == 0,
                Some(name) => named(items@.take(i as int), display_name@) == seq![name],
            },
            many ==> found is Some,
        decreases items@.len() - i,
    {
        assert(items@.take(i + 1).drop_last() =~= items@.take(i as int));
        if same(&items[i].display_name, display_name) {
            match found {
                None => {
                    found = Some(items[i].name.clone());
                },
                Some(_) => {
                    many = true;
                },
            }
        }
        i = i + 1;
    }
    assert(items@.take(i as int) =~= items@);
    if many {
        return Err(Failure::DuplicateDisplayName { display_name: display_name.to_string() });
    }
    Ok(found)
}

/// `r` is what the answer to a query for the state of a Codespace says: its state, that
/// it does not exist, or why that is unknown.
pub open spec fn is_named_state(
    name: Seq<char>,
    reply: Reply,
    r: Result<Option<String>, Failure>,
) -> bool {
    match reply {
        Reply::NotRun { error } => r == Err::<Option<String>, Failure>(
            Failure::StateQueryNotRun { error },
        ),
        Reply::Finished(o) => if o.success {
            if !valid_utf8(o.stdout@) {
                r matches Err(Failure::StateInvalidUtf8 { error }) && error@ == utf8_complaint(
                    o.stdout@,
                )
            } else if trimmed(decode_utf8(o.stdout@)).len() == 0 {
                r matches Err(Failure::EmptyState { name: n }) && n@ == name
            } else {
                r matches Ok(Some(state)) && state@ == trimmed(decode_utf8(o.stdout@))
            }
        } else if holds_text(complaint(o), "HTTP 404"@) {
            r == Ok::<Option<String>, Failure>(None)
        } else if complaint(o).len() == 0 {
            r matches Err(Failure::StateQueryFailed { name: n, status }) && n@ == name && status
                == o.status
        } else {
            r matches Err(Failure::StateQueryFailedWith { name: n, stderr }) && n@ == name
                && stderr@ == complaint(o)
        },
    }
}

/// The state of a Codespace, if it exists, read from the answer of `gh api`.
pub fn named_codespace_state(name: &str, reply: Reply) -> (r: Result<Option<String>, Failure>)
    ensures
        is_named_state(name@, reply, r),
{
    match reply {
        Reply::NotRun { error } => Err(Failure::StateQueryNotRun { error }),
        Reply::Finished(output) => {
            if output.success {
                return match decode(output.stdout) {
                    Err(error) => Err(Failure::StateInvalidUtf8 { error }),
                    Ok(text) => {
                        let state = trim(&text);
                        if state.as_str().is_empty() {
                            Err(Failure::EmptyState { name: name.to_string() })
                        } else {
                            Ok(Some(state))
                        }
                    },
                };
            }
            let stderr = trim(&lossy(&output.stderr));
            if contains(&stderr, "HTTP 404") {
                Ok(None)
            } else if stderr.as_str().is_empty() {
                Err(Failure::StateQueryFailed { name: name.to_string(), status: output.status })
            } else {
                Err(Failure::StateQueryFailedWith { name: name.to_string(), stderr })
            }
        },
    }
}

// ── Remote sessions ─────────────────────────────────────────────────────────

/// The word for a state of the remote session.
pub open spec fn state_word(state: RemoteZellijState) -> Seq<char> {
    match state {
        RemoteZellijState::Connecting => "connecting"@,
        RemoteZellijState::Running => "running"@,
        RemoteZellijState::Exited => "exited"@,
        RemoteZellijState::Missing => "missing"@,
        RemoteZellijState::LegacyTmux => "legacy"@,
    }
}

/// The state that a stored word stands for.
pub open spec fn cached_state(word: Seq<char>) -> Option<RemoteZellijState> {
    if word == "connecting"@ {
        Some(RemoteZellijState::Connecting)
    } else if word == "running"@ {
        Some(RemoteZellijState::Running)
    } else if word == "exited"@ {
        Some(RemoteZellijState::Exited)
    } else if word == "missing"@ {
        Some(RemoteZellijState::Missing)
    } else if word == "legacy"@ {
        Some(RemoteZellijState::LegacyTmux)
    } else {
        None
    }
}

impl RemoteZellijState {
    /// The word that is stored for the state.
    pub fn as_str(&self) -> (r: &'static str)
        ensures
            r@ == state_word(*self),
    {
        match self {
            RemoteZellijState::Connecting => "connecting",
            RemoteZellijState::Running => "running",
            RemoteZellijState::Exited => "exited",
            RemoteZellijState::Missing => "missing",
            RemoteZellijState::LegacyTmux => "legacy",
        }
    }

    /// The state that a stored word stands for.
    pub fn from_cached(word: &str) -> (r: Option<Self>)
        ensures
            r == cached_state(word@),
    {
        if same(word, "connecting") {
            Some(RemoteZellijState::Connecting)
        } else if same(word, "running") {
            Some(RemoteZellijState::Running)
        } else if same(word, "exited") {
            Some(RemoteZellijState::Exited)
        } else if same(word, "missing") {
            Some(RemoteZellijState::Missing)
        } else if same(word, "legacy") {
            Some(RemoteZellijState::LegacyTmux)
        } else {
            None
        }
    }
}

/// `r` is the state that the remote launcher reported, which is never `Connecting`.
pub open spec fn is_reported_state(
    stdout: Seq<char>,
    r: Result<RemoteZellijState, Failure>,
) -> bool {
    match cached_state(trimmed(stdout)) {
        Some(RemoteZellijState::Connecting) | None => r matches Err(
            Failure::UnexpectedZellijState { value },
        ) && value@ == trimmed(stdout),
        Some(state) => r == Ok::<RemoteZellijState, Failure>(state),
    }
}

/// The state that the remote launcher reported.
pub fn parse_remote_zellij_state(stdout: &str) -> (r: Result<RemoteZellijState, Failure>)
    ensures
        is_reported_state(stdout@, r),
{
    let value = trim(stdout);
    match RemoteZellijState::from_cached(&value) {
        Some(RemoteZellijState::Connecting) | None => Err(
            Failure::UnexpectedZellijState { value },
        ),
        Some(state) => Ok(state),
    }
}

/// `r` is the readiness that the remote launcher reported.
pub open spec fn is_reported_readiness(stdout: Seq<char>, r: Result<bool, Failure>) -> bool {
    let value = trimmed(stdout);
    if value == "ready"@ {
        r == Ok::<bool, Failure>(true)
    } else if value == "not-ready"@ {
        r == Ok::<bool, Failure>(false)
    } else {
        r matches Err(Failure::UnexpectedReadiness { value: v }) && v@ == value
    }
}

/// The readiness that the remote launcher reported.
pub fn parse_readiness(stdout: &str) -> (r: Result<bool, Failure>)
    ensures
        is_reported_readiness(stdout@, r),
{
    let value = trim(stdout);
    if same(&value, "ready") {
        Ok(true)
    } else if same(&value, "not-ready") {
        Ok(false)
    } else {
        Err(Failure::UnexpectedReadiness { value })
    }
}

} // verus!
