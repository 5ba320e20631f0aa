//! Laws of what the user is told of failures, and of how texts are read.

use vstd::prelude::*;

use crate::commands::local::{zellij_listed, zellij_runs};
use crate::commands::{base_text, cache_text, detail_text, CacheWord, NameBase, RenameDetail};
use crate::display::short_text;
use crate::failure::{failure_text, summary_text, Failure};
use crate::git::branch_text;
use crate::laws::listing::part_is_held;
use crate::text::{holds_text, lower, trimmed, trimmed_end, trimmed_start, white_space};

verus! {

// ── Failures ────────────────────────────────────────────────────────────────

proof fn is_held(whole: Seq<char>, before: Seq<char>, part: Seq<char>, after: Seq<char>)
    requires
        whole == before + part + after,
    ensures
        holds_text(whole, part),
{
    part_is_held(before, part, after);
}

/// A failure over the state of a session names the session and the command that helps: a removed
/// one is restored, a running one attached to, and one that does not run is started.
pub proof fn failures_say_what_helps(name: String)
    ensures
        holds_text(failure_text(Failure::Removed { name }), "csm restore "@ + name@),
        holds_text(failure_text(Failure::AlreadyRunning { name }), "csm attach "@ + name@),
        holds_text(failure_text(Failure::NotRunning { name }), "csm start "@ + name@),
        holds_text(failure_text(Failure::Stopped { name }), "csm start "@ + name@),
{
    reveal_strlit("' has been removed. Use `csm restore ");
    reveal_strlit("csm restore ");
    reveal_strlit("' has been removed. Use `");
    assert("' has been removed. Use `csm restore "@ =~= "' has been removed. Use `"@
        + "csm restore "@);
    let removed = "Session '"@ + name@ + "' has been removed. Use `"@;
    assert(failure_text(Failure::Removed { name }) =~= removed + ("csm restore "@ + name@)
        + "` to recover."@);
    is_held(
        failure_text(Failure::Removed { name }),
        removed,
        "csm restore "@ + name@,
        "` to recover."@,
    );
    reveal_strlit("' is already running. Use `csm attach ");
    reveal_strlit("csm attach ");
    reveal_strlit("' is already running. Use `");
    assert("' is already running. Use `csm attach "@ =~= "' is already running. Use `"@
        + "csm attach "@);
    let running = "Session '"@ + name@ + "' is already running. Use `"@;
    assert(failure_text(Failure::AlreadyRunning { name }) =~= running + ("csm attach "@ + name@)
        + "` to connect."@);
    is_held(
        failure_text(Failure::AlreadyRunning { name }),
        running,
        "csm attach "@ + name@,
        "` to connect."@,
    );
    reveal_strlit("csm start ");
    reveal_strlit("' is not running. Use `csm start ");
    reveal_strlit("' is not running. Use `");
    assert("' is not running. Use `csm start "@ =~= "' is not running. Use `"@ + "csm start "@);
    let idle = "Session '"@ + name@ + "' is not running. Use `"@;
    assert(failure_text(Failure::NotRunning { name }) =~= idle + ("csm start "@ + name@)
        + "` first."@);
    is_held(failure_text(Failure::NotRunning { name }), idle, "csm start "@ + name@, "` first."@);
    reveal_strlit("' is stopped. Use `csm start ");
    reveal_strlit("' is stopped. Use `");
    assert("' is stopped. Use `csm start "@ =~= "' is stopped. Use `"@ + "csm start "@);
    let stopped = "Session '"@ + name@ + "' is stopped. Use `"@;
    assert(failure_text(Failure::Stopped { name }) =~= stopped + ("csm start "@ + name@)
        + "` first."@);
    is_held(failure_text(Failure::Stopped { name }), stopped, "csm start "@ + name@, "` first."@);
}

/// A Codespace of another account is said to belong to its owner, not to the account that `gh`
/// uses, and the user is told to switch to the owner.
pub proof fn wrong_accounts_are_told_the_owner(current: String, expected: String)
    ensures
        ({
            let text = failure_text(Failure::WrongAccount { current, expected });
            &&& holds_text(text, "belongs to GitHub account '"@ + expected@)
            &&& holds_text(text, "gh is using '"@ + current@)
            &&& holds_text(text, "gh auth switch --user "@ + expected@)
        }),
{
    let text = failure_text(Failure::WrongAccount { current, expected });
    reveal_strlit("Codespace belongs to GitHub account '");
    reveal_strlit("Codespace ");
    reveal_strlit("belongs to GitHub account '");
    reveal_strlit("', but gh is using '");
    reveal_strlit("', but ");
    reveal_strlit("gh is using '");
    reveal_strlit("'. Run `gh auth switch --user ");
    reveal_strlit("'. Run `");
    reveal_strlit("gh auth switch --user ");
    assert("Codespace belongs to GitHub account '"@ =~= "Codespace "@
        + "belongs to GitHub account '"@);
    assert("', but gh is using '"@ =~= "', but "@ + "gh is using '"@);
    assert("'. Run `gh auth switch --user "@ =~= "'. Run `"@ + "gh auth switch --user "@);
    let end = "gh auth switch --user "@ + expected@ + "` first."@;
    let middle = "gh is using '"@ + current@;
    let owner = "belongs to GitHub account '"@ + expected@;
    assert(text =~= "Codespace "@ + owner + ("', but "@ + middle + "'. Run `"@ + end));
    is_held(text, "Codespace "@, owner, "', but "@ + middle + "'. Run `"@ + end);
    assert(text =~= ("Codespace "@ + owner + "', but "@) + middle + ("'. Run `"@ + end));
    is_held(text, "Codespace "@ + owner + "', but "@, middle, "'. Run `"@ + end);
    let start = "Codespace "@ + owner + "', but "@ + middle + "'. Run `"@;
    assert(text =~= start + ("gh auth switch --user "@ + expected@) + "` first."@);
    is_held(text, start, "gh auth switch --user "@ + expected@, "` first."@);
}

/// What caused a failure is said after what failed, and nothing after it.
pub proof fn causes_come_last(f: Failure)
    ensures
        match f {
            Failure::CommandNotRun { error, .. }
            | Failure::InvalidUtf8 { error, .. }
            | Failure::StateQueryNotRun { error }
            | Failure::StateInvalidUtf8 { error }
            | Failure::WorktreeNotRun { error }
            | Failure::ConnectNotRun { error } => failure_text(f) == summary_text(f) + seq![':', ' ']
                + error@,
            Failure::Unresolved { cause, .. }
            | Failure::ZellijNotRun { cause }
            | Failure::NotInRepository { cause }
            | Failure::AddColumn { cause, .. } => failure_text(f) == summary_text(f) + seq![
                ':',
                ' ',
            ] + failure_text(*cause),
            Failure::InvalidUuid { .. } => true,
            _ => failure_text(f) == summary_text(f),
        },
{
    reveal_strlit(": ");
    assert(": "@ =~= seq![':', ' ']);
}

/// A failure over something that has a name says the name, in quotes.
pub proof fn failures_name_their_subject(f: Failure)
    ensures
        match f {
            Failure::EmptyState { name }
            | Failure::StateQueryFailed { name, .. }
            | Failure::StateQueryFailedWith { name, .. }
            | Failure::CodespaceGone { name }
            | Failure::UnknownBackend { name, .. }
            | Failure::NotRemoved { name, .. }
            | Failure::NameTaken { name }
            | Failure::RenamedConcurrently { name }
            | Failure::ChangedInRename { name }
            | Failure::Removed { name }
            | Failure::AlreadyRunning { name }
            | Failure::NotRunning { name }
            | Failure::Stopped { name } => holds_text(summary_text(f), name@),
            Failure::Disappeared { uuid }
            | Failure::DisappearedInRefresh { uuid }
            | Failure::DisappearedInRemoval { uuid } => holds_text(summary_text(f), uuid@),
            Failure::NoSession { query } => holds_text(summary_text(f), query@),
            Failure::BranchGone { branch } => holds_text(summary_text(f), branch@),
            Failure::BranchTaken { name } => holds_text(summary_text(f), branch_text(name@)),
            _ => true,
        },
{
    let text = summary_text(f);
    match f {
        Failure::EmptyState { name } | Failure::CodespaceGone { name } => {
            let start = "Codespace '"@;
            assert(text =~= start + name@ + text.skip((start + name@).len() as int));
            is_held(text, start, name@, text.skip((start + name@).len() as int));
        },
        Failure::StateQueryFailed { name, .. } | Failure::StateQueryFailedWith { name, .. } => {
            let start = "Failed to query Codespace '"@;
            assert(text =~= start + name@ + text.skip((start + name@).len() as int));
            is_held(text, start, name@, text.skip((start + name@).len() as int));
        },
        Failure::UnknownBackend { name, .. }
        | Failure::NotRemoved { name, .. }
        | Failure::NameTaken { name }
        | Failure::RenamedConcurrently { name }
        | Failure::ChangedInRename { name }
        | Failure::Removed { name }
        | Failure::AlreadyRunning { name }
        | Failure::NotRunning { name }
        | Failure::Stopped { name } => {
            let start = "Session '"@;
            assert(text =~= start + name@ + text.skip((start + name@).len() as int));
            is_held(text, start, name@, text.skip((start + name@).len() as int));
        },
        Failure::Disappeared { uuid }
        | Failure::DisappearedInRefresh { uuid }
        | Failure::DisappearedInRemoval { uuid } => {
            let start = "Session with UUID '"@;
            assert(text =~= start + uuid@ + text.skip((start + uuid@).len() as int));
            is_held(text, start, uuid@, text.skip((start + uuid@).len() as int));
        },
        Failure::NoSession { query } => {
            is_held(text, "No session found matching '"@, query@, "'"@);
        },
        Failure::BranchGone { branch } => {
            is_held(text, "Branch '"@, branch@, "' no longer exists"@);
        },
        Failure::BranchTaken { name } => {
            is_held(text, "Aborted: branch '"@, branch_text(name@), "' already exists."@);
        },
        _ => {},
    }
}

// ── Names and words ─────────────────────────────────────────────────────────

/// A free name is looked for from the asked one on; the record of a Codespace that could not be
/// deleted is named after its session, with the shortcode that tells it apart.
pub proof fn free_names_begin_with_the_asked_one(name: String, session_name: String, uuid: String)
    ensures
        base_text(NameBase::Asked(name)) == name@,
        base_text(NameBase::Cleanup { session_name, uuid }) == session_name@ + "-cleanup-"@
            + short_text(uuid@),
{
}

/// The state of a Codespace is stored in small letters, whatever the letters in which it was seen.
pub proof fn states_are_stored_in_small_letters(state: String, other: String)
    ensures
        lower(state@) == lower(other@) ==> cache_text(CacheWord::Observed(state)) == cache_text(
            CacheWord::Observed(other),
        ),
        cache_text(CacheWord::Observed(state)).len() == state@.len(),
        forall|i: int|
            0 <= i < state@.len() ==> !('A' <= #[trigger] cache_text(CacheWord::Observed(state))[i]
                <= 'Z'),
        cache_text(CacheWord::Available) == "available"@,
        cache_text(CacheWord::Shutdown) == "shutdown"@,
{
    assert forall|i: int| 0 <= i < state@.len() implies !('A' <= #[trigger] cache_text(
        CacheWord::Observed(state),
    )[i] <= 'Z') by {
        let c = state@[i];
        assert(lower(state@)[i] == crate::text::ascii_lower(c));
        if 'A' <= c <= 'Z' {
            let code = c as u8;
            assert(65 <= code <= 90);
            assert(((code + 32) as u8) == code + 32);
        }
    }
}

/// The zellij session of a UUID is the one with its shortcode, and one that runs is listed.
pub proof fn zellij_sessions_go_by_shortcode(
    zellij: Seq<(Seq<char>, bool)>,
    uuid: Seq<char>,
    i: int,
)
    requires
        0 <= i < zellij.len(),
        zellij[i].0 == short_text(uuid),
    ensures
        zellij_listed(zellij, uuid),
        zellij[i].1 ==> zellij_runs(zellij, uuid),
        zellij_runs(zellij, uuid) ==> exists|j: int|
            0 <= j < zellij.len() && #[trigger] zellij[j] == (short_text(uuid), true),
{
    if zellij[i].1 {
        assert(zellij[i] == (short_text(uuid), true));
    }
}

/// What a rename adds to its report is nothing, or one of two different remarks in brackets.
pub proof fn rename_details_differ(a: RenameDetail, b: RenameDetail)
    ensures
        detail_text(a) == detail_text(b) ==> a == b,
        detail_text(RenameDetail::Nothing).len() == 0,
{
    reveal_strlit("");
    reveal_strlit(" (still running)");
    reveal_strlit(" (Codespace available)");
    assert(" (still running)"@.len() == 16);
    assert(" (Codespace available)"@.len() == 22);
}

// ── White space ─────────────────────────────────────────────────────────────

proof fn end_is_trimmed(s: Seq<char>)
    ensures
        trimmed_end(s).len() <= s.len(),
        trimmed_end(s) == s.take(trimmed_end(s).len() as int),
        trimmed_end(s).len() > 0 ==> !white_space(trimmed_end(s).last()),
        forall|i: int| trimmed_end(s).len() <= i < s.len() ==> white_space(#[trigger] s[i]),
    decreases s.len(),
{
    if s.len() > 0 && white_space(s.last()) {
        end_is_trimmed(s.drop_last());
        assert(s.take(trimmed_end(s).len() as int) =~= s.drop_last().take(
            trimmed_end(s).len() as int,
        ));
        assert forall|i: int| trimmed_end(s).len() <= i < s.len() implies white_space(
            #[trigger] s[i],
        ) by {
            if i < s.len() - 1 {
                assert(s.drop_last()[i] == s[i]);
            }
        }
    } else {
        assert(s.take(s.len() as int) =~= s);
    }
}

proof fn start_is_trimmed(s: Seq<char>)
    ensures
        trimmed_start(s).len() <= s.len(),
        trimmed_start(s) == s.skip(s.len() - trimmed_start(s).len()),
        trimmed_start(s).len() > 0 ==> !white_space(trimmed_start(s).first()),
        forall|i: int|
            0 <= i < s.len() - trimmed_start(s).len() ==> white_space(#[trigger] s[i]),
    decreases s.len(),
{
    if s.len() > 0 && white_space(s.first()) {
        let rest = s.drop_first();
        start_is_trimmed(rest);
        let cut = s.len() - trimmed_start(s).len();
        assert(s.skip(cut) =~= rest.skip(cut - 1));
        assert forall|i: int| 0 <= i < cut implies white_space(#[trigger] s[i]) by {
            if i > 0 {
                assert(rest[i - 1] == s[i]);
            }
        }
    } else {
        assert(s.skip(0) =~= s);
    }
}

/// Trimming a text takes white space alone from both ends of it, and all that is there.
pub proof fn trimming_takes_white_space_alone(s: Seq<char>)
    ensures
        exists|a: int, b: int|
            0 <= a <= b <= s.len() && #[trigger] s.subrange(a, b) == trimmed(s) && (forall|i: int|
                0 <= i < a || b <= i < s.len() ==> white_space(#[trigger] s[i])),
        trimmed(s).len() > 0 ==> !white_space(trimmed(s).first()) && !white_space(
            trimmed(s).last(),
        ),
{
    let start = trimmed_start(s);
    start_is_trimmed(s);
    end_is_trimmed(start);
    let a = s.len() - start.len();
    let b = a + trimmed(s).len();
    assert(s.subrange(a, b) =~= trimmed(s));
    assert forall|i: int| 0 <= i < a || b <= i < s.len() implies white_space(#[trigger] s[i]) by {
        if i >= b {
            assert(start[i - a] == s[i]);
        }
    }
    if trimmed(s).len() > 0 {
        assert(trimmed(s).first() == start.first());
    }
}

} // verus!
