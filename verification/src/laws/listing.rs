//! Laws of listings: their order, and what a line and a row of the picker hold.

use vstd::prelude::*;

use crate::clock::Moment;
use crate::commands::list::{
    all_keys, is_candidate, is_order, leading_word, line_at, listed_before, lists,
    search_text_at, shown_at, status_at, text_less, ListInput, Listing, SortKey,
};
use crate::commands::states::{shown_branch, shown_repo, shown_status};
use crate::display::{age_text, hex_text, session_line, status_color};
use crate::failure::Failure;
use crate::interactive::{matches_query, Item};
use crate::text::{decimal, holds_text, occurs_at, opt_text};

verus! {

// ── Order ───────────────────────────────────────────────────────────────────

/// Texts are ordered by the first place in which they differ; a text comes before what it begins.
pub proof fn texts_differ_at_one_place(a: Seq<char>, b: Seq<char>, i: int)
    requires
        0 <= i <= a.len(),
        i <= b.len(),
        a.take(i) == b.take(i),
    ensures
        i < a.len() && i < b.len() && a[i] < b[i] ==> text_less(a, b) && !text_less(b, a),
        i == a.len() && i < b.len() ==> text_less(a, b) && !text_less(b, a),
        i == a.len() && i == b.len() ==> !text_less(a, b),
    decreases i,
{
    if i > 0 {
        assert(a[0] == a.take(i)[0] && b[0] == b.take(i)[0]);
        let (c, d) = (a.drop_first(), b.drop_first());
        assert(c.take(i - 1) =~= a.take(i).drop_first());
        assert(d.take(i - 1) =~= b.take(i).drop_first());
        texts_differ_at_one_place(c, d, i - 1);
    }
}

/// In a listing a session with a lower rank never follows one with a higher rank, and among those
/// of one rank none follows one that was used earlier; those that were used at the same time keep
/// the order in which they came.
pub proof fn listing_is_by_rank_then_use(keys: Seq<SortKey>, order: Seq<usize>, j: int, k: int)
    requires
        is_order(keys, order),
        0 <= j < k < order.len(),
    ensures
        keys[order[j] as int].rank <= keys[order[k] as int].rank,
        keys[order[j] as int].rank == keys[order[k] as int].rank ==> {
            ||| text_less(keys[order[k] as int].used, keys[order[j] as int].used)
            ||| keys[order[j] as int].used == keys[order[k] as int].used && order[j] < order[k]
        },
{
    assert(listed_before(keys, order[j] as int, order[k] as int));
}

/// What counts of a status for its rank is what stands before its first slash.
pub proof fn rank_is_of_the_leading_word(word: Seq<char>, rest: Seq<char>)
    requires
        !word.contains('/'),
    ensures
        leading_word(word) == word,
        leading_word(word + seq!['/'] + rest) == word,
    decreases word.len(),
{
    let whole = word + seq!['/'] + rest;
    if word.len() > 0 {
        let tail = word.drop_first();
        assert(word[0] != '/') by {
            assert(word.contains(word[0]));
        }
        assert(!tail.contains('/')) by {
            if tail.contains('/') {
                let i = tail.index_of('/');
                assert(word[i + 1] == '/');
            }
        }
        rank_is_of_the_leading_word(tail, rest);
        assert(whole.drop_first() =~= tail + seq!['/'] + rest);
        assert(whole[0] == word[0]);
        assert(seq![word[0]] + tail =~= word);
    } else {
        assert(whole[0] == '/');
        assert(word =~= Seq::empty());
    }
}

// ── Lines ───────────────────────────────────────────────────────────────────

/// What is shown of a session is what its own record, its worktree, the zellij sessions and its
/// Codespace say; where one of the three cannot be shown, nothing of it is.
pub proof fn line_is_of_its_session(input: ListInput, i: int)
    ensures
        ({
            let session = input.sessions@[i];
            let repo = shown_repo(session);
            let branch = shown_branch(session, opt_text(input.branches@[i]), input.states@);
            let status = shown_status(session, input.local@, input.states@);
            &&& status_at(input, i) == status
            &&& shown_at(input, i) is Ok <==> repo is Ok && branch is Ok && status is Ok
            &&& shown_at(input, i) matches Ok(shown) ==> shown.0 == repo->Ok_0 && shown.1
                == branch->Ok_0 && shown.2 == status->Ok_0
            &&& shown_at(input, i) matches Err(f) ==> {
                ||| repo matches Err(g) && g == f
                ||| branch matches Err(g) && g == f
                ||| status matches Err(g) && g == f
            }
        }),
{
}

/// A listing shows one line for each session, the `k`th for the session in the `k`th place; it is
/// shorter only where the line after it cannot be shown.
pub proof fn listing_has_a_line_each(
    listing: Listing,
    input: ListInput,
    order: Seq<usize>,
    color: bool,
    at: Moment,
    k: int,
)
    requires
        is_order(all_keys(input), order),
        lists(listing, input, order, color, at),
    ensures
        listing.failure is None <==> listing.lines@.len() == input.sessions@.len(),
        listing.lines@.len() <= input.sessions@.len(),
        0 <= k < listing.lines@.len() ==> (line_at(input, order[k] as int, color, at) matches Ok(line)
            && line == listing.lines@[k]@),
        listing.failure matches Some(f) ==> (shown_at(
            input,
            order[listing.lines@.len() as int] as int,
        ) matches Err(g) && g == f),
{
    if 0 <= k < listing.lines@.len() {
        assert(line_at(input, order[k] as int, color, at) == Ok::<Seq<char>, Failure>(
            listing.lines@[k]@,
        ));
    }
}

/// A line without colors is what it shows, with spaces between, and the time in brackets.
pub proof fn plain_line_shows_its_parts(
    shortcode: Seq<char>,
    name: Seq<char>,
    repo: Seq<char>,
    branch: Seq<char>,
    status: Seq<char>,
    ago: Seq<char>,
)
    ensures
        session_line(shortcode, name, repo, branch, status, ago, false) == shortcode + seq![' ']
            + name + seq![' '] + repo + seq![' '] + branch + seq![' '] + status + seq![' ', '[']
            + ago + seq![']'],
{
    reveal_strlit(" ");
    reveal_strlit(" [");
    reveal_strlit("]");
    assert(" "@ =~= seq![' ']);
    assert(" ["@ =~= seq![' ', '[']);
    assert("]"@ =~= seq![']']);
}

/// Running, exited and all other sessions have three different colors.
pub proof fn colors_tell_statuses_apart(status: Seq<char>)
    ensures
        status_color("running"@) != status_color("exited"@),
        status != "running"@ && status != "exited"@ ==> status_color(status) != status_color(
            "running"@,
        ) && status_color(status) != status_color("exited"@) && status_color(status)
            == status_color("stopped"@),
{
    reveal_strlit("running");
    reveal_strlit("exited");
    reveal_strlit("stopped");
    reveal_strlit("\x1b[32m");
    reveal_strlit("\x1b[33m");
    reveal_strlit("\x1b[2m");
    assert("running"@.len() != "exited"@.len());
    assert("running"@[0] != "stopped"@[0]);
    assert("exited"@.len() != "stopped"@.len());
    assert(crate::display::GREEN@[3] != crate::display::YELLOW@[3]);
    assert(crate::display::GREEN@.len() != crate::display::DIM@.len());
    assert(crate::display::YELLOW@.len() != crate::display::DIM@.len());
}

/// The unit in which an age is given, its length in seconds, and its letters.
pub open spec fn unit_of(secs: int) -> (int, Seq<char>) {
    if secs < 3_600 {
        (60, seq!['m'])
    } else if secs < 24 * 3_600 {
        (3_600, seq!['h'])
    } else if secs < 7 * 24 * 3_600 {
        (86_400, seq!['d'])
    } else if secs < 30 * 24 * 3_600 {
        (604_800, seq!['w'])
    } else {
        (2_592_000, seq!['m', 'o'])
    }
}

/// An age of a minute or more is given as a number of whole minutes, hours, days, weeks or
/// months, of the largest of these that has passed in full; a number of them is never zero.
pub proof fn ages_are_in_whole_units(secs: int)
    requires
        secs >= 60,
    ensures
        exists|n: nat|
            n > 0 && n * unit_of(secs).0 <= secs < (n + 1) * unit_of(secs).0 && age_text(secs)
                == #[trigger] decimal(n) + unit_of(secs).1,
{
    reveal_strlit("m");
    reveal_strlit("h");
    reveal_strlit("d");
    reveal_strlit("w");
    reveal_strlit("mo");
    assert("m"@ =~= seq!['m']);
    assert("h"@ =~= seq!['h']);
    assert("d"@ =~= seq!['d']);
    assert("w"@ =~= seq!['w']);
    assert("mo"@ =~= seq!['m', 'o']);
    let unit = unit_of(secs).0;
    let n = (secs / unit) as nat;
    assert(n > 0 && n * unit <= secs < (n + 1) * unit) by (nonlinear_arith)
        requires
            n == secs / unit,
            unit > 0,
            secs >= unit,
    ;
    assert(age_text(secs) == decimal(n) + unit_of(secs).1);
}

// ── Rows of the picker ──────────────────────────────────────────────────────

/// A text holds what stands between its beginning and its end.
pub proof fn part_is_held(before: Seq<char>, part: Seq<char>, after: Seq<char>)
    ensures
        holds_text(before + part + after, part),
{
    let s = before + part + after;
    assert(s.subrange(before.len() as int, (before.len() + part.len()) as int) =~= part);
    assert(occurs_at(s, part, before.len() as int));
}

/// The filter of the picker finds a session by its name, its repository, its branch, its status
/// and its identifier.
pub proof fn sessions_are_found_by_what_they_show(input: ListInput, i: int)
    requires
        shown_at(input, i) is Ok,
    ensures
        ({
            let text = search_text_at(input, i);
            let (repo, branch, status) = shown_at(input, i)->Ok_0;
            &&& holds_text(text, input.sessions@[i].name@)
            &&& holds_text(text, repo)
            &&& holds_text(text, branch)
            &&& holds_text(text, status)
            &&& holds_text(text, hex_text(input.sessions@[i].copilot_uuid@))
        }),
{
    let text = search_text_at(input, i);
    let (repo, branch, status) = shown_at(input, i)->Ok_0;
    let name = input.sessions@[i].name@;
    let hex = hex_text(input.sessions@[i].copilot_uuid@);
    let gap = " "@;
    let none = Seq::<char>::empty();
    assert(text =~= none + name + (gap + repo + gap + branch + gap + status + gap + hex));
    part_is_held(none, name, gap + repo + gap + branch + gap + status + gap + hex);
    assert(text =~= (name + gap) + repo + (gap + branch + gap + status + gap + hex));
    part_is_held(name + gap, repo, gap + branch + gap + status + gap + hex);
    assert(text =~= (name + gap + repo + gap) + branch + (gap + status + gap + hex));
    part_is_held(name + gap + repo + gap, branch, gap + status + gap + hex);
    assert(text =~= (name + gap + repo + gap + branch + gap) + status + (gap + hex));
    part_is_held(name + gap + repo + gap + branch + gap, status, gap + hex);
    assert(text =~= (name + gap + repo + gap + branch + gap + status + gap) + hex + none);
    part_is_held(name + gap + repo + gap + branch + gap + status + gap, hex, none);
}

/// A row of the picker stands for its session by the session's name, shows the session's line in
/// color, and is kept out of the list unless hidden rows are shown exactly if the session is
/// removed.
pub proof fn row_is_of_its_session(
    item: Item,
    input: ListInput,
    i: int,
    at: Moment,
    query: Seq<char>,
)
    requires
        is_candidate(item, input, i, at),
    ensures
        item.key@ == input.sessions@[i].name@,
        line_at(input, i, true, at) matches Ok(line) && line == item.display@,
        item.search_text@ == search_text_at(input, i),
        input.sessions@[i].status@ == "removed"@ ==> !matches_query(item, query, false),
        input.sessions@[i].status@ != "removed"@ ==> matches_query(item, query, false)
            == matches_query(item, query, true),
{
}

} // verus!
