//! Laws of the stored records: what a change does to them, and what new ones hold.

use vstd::prelude::*;

use crate::clock::{age, Moment};
use crate::codespace::laws::stored_states_are_read_back;
use crate::codespace::{codespace_name, workdir_text, workspace_path, RemoteZellijState, RepoInfo};
use crate::commands::refresh::{refreshed, seen_of};
use crate::commands::states::{
    asks_worktree, fresh, shown_branch, shown_repo, shown_status, stored_seen,
    stored_zellij, Known,
};
use crate::commands::{
    changed, details_of, name_failure, new_record, renamed, CodespaceDetails, NewSession,
    Observation, RefreshUpdate, RowChange, STATUS_ACTIVE, STATUS_REMOVED,
};
use crate::db::{column_text, ensure_session_columns_begin, MigrateFlow, ADDED_COLUMNS};
use crate::entity::session::{Model, Record};
use crate::failure::Failure;
use crate::flow::{is_run, Effect, Event, Flow};
use crate::git::{branch_text, dir_text, Dir};
use crate::laws::history::{just_failed, misanswered};
use crate::text::{alphanumeric, opt_text};

verus! {

// ── Changes ─────────────────────────────────────────────────────────────────

/// Two records are of the same session: what it was created with is the same.
pub open spec fn same_session(a: Record, b: Record) -> bool {
    &&& a.branch == b.branch
    &&& a.copilot_uuid == b.copilot_uuid
    &&& a.source_repo == b.source_repo
    &&& a.worktree_path == b.worktree_path
    &&& a.backend == b.backend
    &&& a.codespace_name == b.codespace_name
    &&& a.remote_workdir == b.remote_workdir
    &&& a.github_login == b.github_login
}

/// No change makes a record one of another session or renames it, and the branch that is known of
/// its Codespace stays. Only touching and activating a session count as a use, and they are one
/// now. Activating makes it active, both ways of removing make it removed, and nothing else
/// changes whether it is removed.
pub proof fn changes_keep_the_session(row: Record, change: RowChange, now: Seq<char>)
    ensures
        ({
            let after = changed(row, change, now);
            &&& same_session(row, after) && after.name == row.name
            &&& after.cached_codespace_branch == row.cached_codespace_branch
            &&& after.last_used_at == (if change is Touch || change is Activate {
                now
            } else {
                row.last_used_at
            })
            &&& after.status == (if change is Activate {
                STATUS_ACTIVE@
            } else if change is Remove || change is RemoveStopped {
                STATUS_REMOVED@
            } else {
                row.status
            })
        }),
{
}

/// What is stored of a Codespace changes only where it was seen or stopped, and is then of now; a
/// stopped Codespace is shut down and has no session.
pub proof fn changes_to_the_cache_are_of_now(row: Record, change: RowChange, now: Seq<char>)
    ensures
        ({
            let after = changed(row, change, now);
            if change is Cache || change is RemoveStopped {
                after.codespace_state_updated_at == Some(now)
            } else {
                &&& after.codespace_state_updated_at == row.codespace_state_updated_at
                &&& stored_seen(after) == stored_seen(row)
                &&& stored_zellij(after) == stored_zellij(row)
            }
        }),
        change is RemoveStopped ==> {
            &&& stored_seen(changed(row, change, now)).state == "shutdown"@
            &&& stored_zellij(changed(row, change, now)) == Some(RemoteZellijState::Missing)
        },
{
    stored_states_are_read_back(RemoteZellijState::Missing);
}

/// A renamed session is the same session under the other name, used now.
pub proof fn renaming_changes_the_name(row: Record, name: Seq<char>, now: Seq<char>)
    ensures
        renamed(row, name, now).name == name,
        renamed(row, name, now).last_used_at == now,
        renamed(row, name, now).status == row.status,
        same_session(row, renamed(row, name, now)),
        (Record { name: row.name, last_used_at: row.last_used_at, ..renamed(row, name, now) })
            == row,
{
}

/// A refresh is no use of a session and leaves it the same session. What it stores is of now,
/// except where a connection is still being made: that keeps its time, so that it can grow old.
/// A Codespace that is gone is stored as missing, with the branch that was known.
pub proof fn refresh_keeps_the_session(update: RefreshUpdate, now: Seq<char>)
    ensures
        ({
            let before = update.latest@;
            let after = refreshed(update, now);
            &&& same_session(before, after) && after.name == before.name
            &&& after.last_used_at == before.last_used_at && after.status == before.status
            &&& after.codespace_state_updated_at == (if update.zellij is Connecting {
                before.codespace_state_updated_at
            } else {
                Some(now)
            })
        }),
        update.remote matches Observation::Gone { branch } ==> seen_of(update.remote).state
            == "missing"@ && seen_of(update.remote).branch == opt_text(branch),
        update.remote matches Observation::Listed(state) ==> seen_of(update.remote) == state@,
{
}

// ── New records ─────────────────────────────────────────────────────────────

/// A new local session is active and used now, in its directory; it has a branch of its own
/// exactly if one was asked for, and nothing of a Codespace.
pub proof fn new_local_session_is_as_asked(
    name: String,
    branch: Option<String>,
    uuid: String,
    source_repo: String,
    dir: Dir,
    now: Seq<char>,
)
    ensures
        ({
            let row = new_record(NewSession::Local { name, branch, uuid, source_repo, dir }, now);
            &&& row.name == name@ && row.copilot_uuid == uuid@ && row.source_repo == source_repo@
            &&& row.worktree_path == dir_text(dir)
            &&& row.backend == "local"@ && row.status == "active"@ && row.last_used_at == now
            &&& row.branch == match branch {
                Some(asked) => branch_text(asked@),
                None => Seq::empty(),
            }
            &&& row.codespace_name is None && row.remote_workdir is None && row.github_login is None
            &&& row.cached_codespace_state is None && row.cached_codespace_branch is None
            &&& row.cached_zellij_state is None && row.codespace_state_updated_at is None
        }),
{
    reveal_strlit("");
}

/// What a session in a new Codespace and the record of one that could not be deleted have in
/// common: they are sessions in that Codespace, of that account, in the workspace of the
/// repository, on its default branch.
pub open spec fn is_in_codespace(
    row: Record,
    name: String,
    uuid: String,
    repo: RepoInfo,
    codespace_name: String,
    github_login: String,
) -> bool {
    &&& row.name == name@ && row.copilot_uuid == uuid@
    &&& row.source_repo == repo.name_with_owner@ && row.branch == repo.default_branch@
    &&& row.backend == "codespace"@ && row.worktree_path.len() == 0
    &&& row.codespace_name == Some(codespace_name@)
    &&& row.remote_workdir == Some(workdir_text(repo.name_with_owner@))
    &&& row.github_login == Some(github_login@)
    &&& row.cached_codespace_branch == Some(repo.default_branch@)
}

/// A session in a new Codespace is active, its Codespace is available and has no session yet;
/// the record of one that could not be deleted is removed and claims nothing of its state.
pub proof fn new_codespace_session_is_as_created(
    name: String,
    uuid: String,
    repo: RepoInfo,
    codespace_name: String,
    github_login: String,
    now: Seq<char>,
)
    ensures
        ({
            let row = new_record(
                NewSession::Codespace { name, uuid, repo, codespace_name, github_login },
                now,
            );
            &&& is_in_codespace(row, name, uuid, repo, codespace_name, github_login)
            &&& row.status == "active"@ && row.last_used_at == now
            &&& stored_seen(row).state == "available"@
            &&& stored_seen(row).branch == Some(repo.default_branch@)
            &&& stored_zellij(row) == Some(RemoteZellijState::Missing)
            &&& row.codespace_state_updated_at == Some(now)
        }),
        ({
            let row = new_record(
                NewSession::Recovery { name, uuid, repo, codespace_name, github_login },
                now,
            );
            &&& is_in_codespace(row, name, uuid, repo, codespace_name, github_login)
            &&& row.status == "removed"@ && row.last_used_at == now
            &&& stored_seen(row).state == "unknown"@
            &&& stored_zellij(row) is None
            &&& row.codespace_state_updated_at is None
        }),
{
    reveal_strlit("");
    stored_states_are_read_back(RemoteZellijState::Missing);
}

/// The Codespace of a session is read back from the record under which it was stored, whether it
/// was created or could not be deleted, if its name and its workspace are safe.
pub proof fn stored_codespace_is_read_back(
    row: Model,
    name: String,
    uuid: String,
    repo: RepoInfo,
    space: String,
    github_login: String,
    now: Seq<char>,
)
    requires
        codespace_name(space@),
        workspace_path(workdir_text(repo.name_with_owner@)),
        row@ == new_record(
            NewSession::Codespace { name, uuid, repo, codespace_name: space, github_login },
            now,
        ) || row@ == new_record(
            NewSession::Recovery { name, uuid, repo, codespace_name: space, github_login },
            now,
        ),
    ensures
        details_of(row) matches Ok(details) && details.name@ == space@ && details.workdir@
            == workdir_text(repo.name_with_owner@) && details.github_login@ == github_login@,
{
    assert(opt_text(row.codespace_name) == Some(space@));
    assert(opt_text(row.remote_workdir) == Some(workdir_text(repo.name_with_owner@)));
    assert(opt_text(row.github_login) == Some(github_login@));
}

/// What a session knows of its Codespace is what is stored with it. It is known exactly if all of
/// it is stored and safe, and otherwise the failure names what is missing or unsafe.
pub proof fn codespace_is_known_if_stored(session: Model)
    ensures
        match details_of(session) {
            Ok(details) => {
                &&& session.codespace_name == Some(details.name) && codespace_name(details.name@)
                &&& session.remote_workdir == Some(details.workdir) && workspace_path(
                    details.workdir@,
                )
                &&& session.github_login == Some(details.github_login)
            },
            Err(Failure::MissingCodespaceName) => session.codespace_name is None,
            Err(Failure::MissingWorkdir) => session.remote_workdir is None,
            Err(Failure::MissingAccount) => session.github_login is None,
            Err(Failure::InvalidCodespaceName { name }) => session.codespace_name == Some(name)
                && !codespace_name(name@),
            Err(Failure::InvalidWorkdir { workdir }) => session.remote_workdir == Some(workdir)
                && !workspace_path(workdir@),
            Err(_) => false,
        },
{
}

/// A text is accepted as a session name exactly if it has characters, all of them letters, digits,
/// hyphens and underscores; the failure says which of the two is wrong.
pub proof fn names_are_plain(s: Seq<char>)
    ensures
        s.len() == 0 <==> name_failure(s) == Some(Failure::EmptyName),
        s.len() > 0 && (exists|i: int|
            0 <= i < s.len() && !alphanumeric(#[trigger] s[i]) && s[i] != '-' && s[i] != '_')
            <==> name_failure(s) == Some(Failure::NameCharacters),
        s.len() > 0 && (forall|i: int|
            0 <= i < s.len() ==> alphanumeric(#[trigger] s[i]) || s[i] == '-' || s[i] == '_')
            <==> name_failure(s) is None,
{
}

// ── What is shown ───────────────────────────────────────────────────────────

/// A session of neither backend is not shown at all, and the failure names it; a removed session
/// alone has a status whatever its backend. The others show the status of the zellij session with
/// their shortcode, or what is known of their Codespace.
pub proof fn unknown_backends_are_refused(
    session: Model,
    checked_out: Option<Seq<char>>,
    local: Seq<(Seq<char>, bool)>,
    known: Known,
)
    requires
        session.backend@ != "local"@,
        session.backend@ != "codespace"@,
    ensures
        shown_repo(session) matches Err(Failure::UnknownBackend { name, backend }) && name
            == session.name && backend == session.backend,
        shown_branch(session, checked_out, known) matches Err(
            Failure::UnknownBackend { name, backend },
        ) && name == session.name && backend == session.backend,
        session.status@ == "removed"@ <==> shown_status(session, local, known) is Ok,
        session.status@ == "removed"@ ==> shown_status(session, local, known)->Ok_0 == "removed"@,
        session.status@ != "removed"@ ==> (shown_status(session, local, known) matches Err(
            Failure::UnknownBackend { name, backend },
        ) && name == session.name && backend == session.backend),
{
}

/// The repository of a session in a Codespace is that of a local one with a suffix.
pub proof fn codespace_repositories_have_a_suffix(here: Model, there: Model)
    requires
        here.backend@ == "local"@,
        there.backend@ == "codespace"@,
        here.source_repo@ == there.source_repo@,
    ensures
        shown_repo(here) matches Ok(plain) && (shown_repo(there) matches Ok(marked) && marked
            == plain + seq!['@', 'c', 's']),
{
    reveal_strlit("@cs");
    reveal_strlit("local");
    reveal_strlit("codespace");
    assert("local"@.len() != "codespace"@.len());
    assert("@cs"@ =~= seq!['@', 'c', 's']);
}

/// A local session shows the branch that its worktree has, unless the session is removed or the
/// branch could not be read; then it shows the one it was created with.
pub proof fn local_branch_is_that_of_the_worktree(
    session: Model,
    checked_out: Option<Seq<char>>,
    known: Known,
)
    requires
        session.backend@ == "local"@,
    ensures
        asks_worktree(session@) <==> session.status@ != "removed"@,
        shown_branch(session, None, known) matches Ok(branch) && branch == session.branch@,
        checked_out is Some ==> (shown_branch(session, checked_out, known) matches Ok(branch)
            && branch == (if session.status@ == "removed"@ {
            session.branch@
        } else {
            checked_out->0
        })),
{
}

/// A Codespace session is never asked for a worktree, and shows the branch that is known of its
/// Codespace, unless another account was asked or none is known; then it shows the one it was
/// created with.
pub proof fn codespace_branch_is_the_known_one(
    session: Model,
    checked_out: Option<Seq<char>>,
    known: Known,
    details: CodespaceDetails,
)
    requires
        session.backend@ == "codespace"@,
        details_of(session) == Ok::<CodespaceDetails, Failure>(details),
    ensures
        !asks_worktree(session@),
        shown_branch(session, checked_out, known) == shown_branch(session, None, known),
        shown_branch(session, None, Known::nothing()) matches Ok(branch) && branch
            == session.branch@,
        known.current_login == Some(details.github_login@) || known.current_login is None ==> (
        known.values.contains_key(details.name@) ==> (known.values[details.name@].branch matches
            Some(seen) ==> (shown_branch(session, None, known) matches Ok(branch) && branch
            == seen))),
        known.current_login is Some && known.current_login != Some(details.github_login@) ==> (
        shown_branch(session, None, known) matches Ok(branch) && branch == session.branch@),
{
    reveal_strlit("local");
    reveal_strlit("codespace");
    assert("local"@.len() != "codespace"@.len());
}

/// What is stored is fresh for a number of seconds from when it was written: it is never fresh
/// before that, stays fresh for a longer time, and is not fresh if the time is unknown.
pub proof fn freshness_ends(session: Record, seconds: int, more: int, at: Moment)
    requires
        seconds <= more,
    ensures
        fresh(session, seconds, at) ==> fresh(session, more, at),
        session.codespace_state_updated_at is None ==> !fresh(session, seconds, at),
        session.codespace_state_updated_at matches Some(time) ==> (age(time, at) matches Some(secs)
            ==> (fresh(session, seconds, at) <==> 0 <= secs && secs <= seconds)),
        session.codespace_state_updated_at matches Some(time) ==> (age(time, at) is None
            ==> !fresh(session, seconds, at)),
{
}

// ── Migrating ───────────────────────────────────────────────────────────────

spec fn migration_remembers(
    states: Seq<MigrateFlow>,
    effects: Seq<Effect>,
    events: Seq<Event>,
    k: int,
) -> bool {
    match states[k] {
        MigrateFlow::Look { at } => at < ADDED_COLUMNS && effects[k] is SessionColumns,
        MigrateFlow::Add { at } => at < ADDED_COLUMNS && effects[k] == (Effect::AddColumn {
            column: at,
        }),
        MigrateFlow::Check { at, cause } => {
            &&& at < ADDED_COLUMNS && effects[k] is SessionColumns
            &&& k > 0 && effects[k - 1] == (Effect::AddColumn { column: at })
            &&& events[k - 1] == Event::Failed(cause)
        },
        MigrateFlow::Over => effects[k] is Finish,
    }
}

proof fn migrating_remembers(
    states: Seq<MigrateFlow>,
    effects: Seq<Effect>,
    events: Seq<Event>,
    k: int,
)
    requires
        is_run(states, effects, events),
        (states[0], effects[0]) == ensure_session_columns_begin(),
        0 <= k < effects.len(),
    ensures
        migration_remembers(states, effects, events, k),
    decreases k,
{
    if k > 0 {
        migrating_remembers(states, effects, events, k - 1);
        assert(effects[k - 1] !is Finish);
        assert(states[k - 1].leads_to(events[k - 1], states[k], effects[k]));
    }
}

/// The columns of the table were just listed, without the column `i`.
pub open spec fn just_missed(
    effects: Seq<Effect>,
    events: Seq<Event>,
    k: int,
    i: usize,
) -> bool {
    k > 0 && effects[k - 1] is SessionColumns && (events[k - 1] matches Event::Columns(columns)
        && !columns@.contains(column_text(i as int)))
}

/// A migration adds only columns that the table was just seen to lack. It fails over a column
/// exactly if adding it failed and the table still lacks it then, and it passes on only that the
/// table could not be looked at.
pub proof fn missing_columns_are_added(
    states: Seq<MigrateFlow>,
    effects: Seq<Effect>,
    events: Seq<Event>,
    k: int,
)
    requires
        is_run(states, effects, events),
        (states[0], effects[0]) == ensure_session_columns_begin(),
        0 <= k < effects.len(),
    ensures
        match effects[k] {
            Effect::SessionColumns => true,
            Effect::AddColumn { column } => column < ADDED_COLUMNS && just_missed(
                effects,
                events,
                k,
                column,
            ),
            Effect::Finish(Event::Done) => k > 0 && !just_missed(
                effects,
                events,
                k,
                (ADDED_COLUMNS - 1) as usize,
            ),
            Effect::Finish(Event::Failed(Failure::UnexpectedReply)) => misanswered(
                effects,
                events,
                k,
            ) || just_failed(events, k, Failure::UnexpectedReply),
            Effect::Finish(Event::Failed(f)) => (effects[k - 1] is SessionColumns && just_failed(
                events,
                k,
                f,
            )) || (f matches Failure::AddColumn { column, cause } && just_missed(
                effects,
                events,
                k,
                column,
            ) && k > 1 && effects[k - 2] == (Effect::AddColumn { column }) && events[k - 2]
                == Event::Failed(*cause)),
            _ => false,
        },
{
    migrating_remembers(states, effects, events, k);
    if k > 0 {
        migrating_remembers(states, effects, events, k - 1);
        assert(effects[k - 1] !is Finish);
        assert(states[k - 1].leads_to(events[k - 1], states[k], effects[k]));
    }
}

} // verus!
