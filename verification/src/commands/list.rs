//! `list`, and the rows of the interactive picker: sessions in order, one line each.

use vstd::prelude::*;

use crate::clock::Moment;
use crate::commands::states::{
    session_display_branch, session_display_status, session_repo_label, shown_branch, shown_repo,
    shown_status, CodespaceStates,
};
use crate::commands::STATUS_REMOVED;
use crate::display::{
    format_session_line_at, format_shortcode, hex_text, rank_of, relative_text, session_line,
    shortcode_text, shortest_unique, shortest_unique_prefixes_within, status_rank, uuid_hex,
};
use crate::entity::session::Model;
use crate::failure::Failure;
use crate::interactive::Item;
use crate::text::{cat5, opt_text, same, texts, to_chars, collect};
use crate::zellij::State;

verus! {

// ── Order ───────────────────────────────────────────────────────────────────

/// `a` comes before `b` in the order of texts, character by character.
pub open spec fn text_less(a: Seq<char>, b: Seq<char>) -> bool
    decreases a.len(),
{
    if b.len() == 0 {
        false
    } else if a.len() == 0 {
        true
    } else if a[0] == b[0] {
        text_less(a.drop_first(), b.drop_first())
    } else {
        a[0] < b[0]
    }
}

fn is_text_less(a: &str, b: &str) -> (r: bool)
    ensures
        r == text_less(a@, b@),
{
    let x = to_chars(a);
    let y = to_chars(b);
    let (m, n) = (x.len(), y.len());
    let mut i: usize = 0;
    assert(x@.skip(0) =~= x@ && y@.skip(0) =~= y@);
    while i < m && i < n
        invariant
            i <= m,
            i <= n,
            m == x@.len(),
            n == y@.len(),
            text_less(a@, b@) == text_less(x@.skip(i as int), y@.skip(i as int)),
        decreases m - i,
    {
        let ghost p = x@.skip(i as int);
        let ghost q = y@.skip(i as int);
        assert(p[0] == x@[i as int] && q[0] == y@[i as int]);
        assert(p.drop_first() =~= x@.skip(i + 1) && q.drop_first() =~= y@.skip(i + 1));
        if x[i] != y[i] {
            return x[i] < y[i];
        }
        i = i + 1;
    }
    i < n
}

proof fn text_less_is_strict(a: Seq<char>, b: Seq<char>)
    ensures
        !(text_less(a, b) && text_less(b, a)),
        !text_less(a, b) && !text_less(b, a) ==> a == b,
        !text_less(a, a),
    decreases a.len(),
{
    if a.len() > 0 {
        text_less_is_strict(a.drop_first(), a.drop_first());
        if b.len() > 0 {
            text_less_is_strict(a.drop_first(), b.drop_first());
            if a[0] == b[0] && a.drop_first() == b.drop_first() {
                assert(a =~= seq![a[0]] + a.drop_first());
                assert(b =~= seq![b[0]] + b.drop_first());
            }
        }
    } else if b.len() == 0 {
        assert(a =~= b);
    }
}

proof fn text_less_is_transitive(a: Seq<char>, b: Seq<char>, c: Seq<char>)
    requires
        text_less(a, b),
        text_less(b, c),
    ensures
        text_less(a, c),
    decreases a.len(),
{
    if a.len() > 0 && a[0] == b[0] && b[0] == c[0] {
        text_less_is_transitive(a.drop_first(), b.drop_first(), c.drop_first());
    }
}

/// What follows the first slash of a status is about the Codespace; the part before it is
/// the status of the session.
pub open spec fn leading_word(status: Seq<char>) -> Seq<char>
    decreases status.len(),
{
    if status.len() == 0 || status[0] == '/' {
        Seq::empty()
    } else {
        seq![status[0]] + leading_word(status.drop_first())
    }
}

fn leading(status: &str) -> (r: String)
    ensures
        r@ == leading_word(status@),
{
    let v = to_chars(status);
    let mut i: usize = 0;
    assert(v@.skip(0) =~= v@);
    assert(v@.take(0) + leading_word(v@) =~= leading_word(v@));
    while i < v.len() && v[i] != '/'
        invariant
            i <= v@.len(),
            v@ == status@,
            leading_word(status@) == v@.take(i as int) + leading_word(v@.skip(i as int)),
        decreases v@.len() - i,
    {
        let ghost rest = v@.skip(i as int);
        assert(rest[0] == v@[i as int]);
        assert(rest.drop_first() =~= v@.skip(i + 1));
        assert(v@.take(i as int) + (seq![rest[0]] + leading_word(v@.skip(i + 1))) =~= v@.take(
            i + 1,
        ) + leading_word(v@.skip(i + 1)));
        i = i + 1;
    }
    assert(v@.take(i as int) + leading_word(v@.skip(i as int)) =~= v@.take(i as int));
    collect(&v, 0, i)
}

/// Where a session stands in a listing: the rank of its status, and when it was last used.
pub struct SortKey {
    pub rank: u8,
    pub used: Seq<char>,
}

/// The place of a session with a status.
pub open spec fn sort_key(session: Model, status: Seq<char>) -> SortKey {
    SortKey { rank: rank_of(leading_word(status)), used: session.last_used_at@ }
}

/// The `i`th session is listed before the `j`th: its status has the lower rank, or the same
/// rank and it was used later, or at the same time and it comes first.
pub open spec fn listed_before(keys: Seq<SortKey>, i: int, j: int) -> bool {
    let (a, b) = (keys[i], keys[j]);
    a.rank < b.rank || (a.rank == b.rank && (text_less(b.used, a.used) || (a.used == b.used && i
        < j)))
}

/// `order` lists all positions of `keys` in the order of the listing.
pub open spec fn is_order(keys: Seq<SortKey>, order: Seq<usize>) -> bool {
    &&& order.len() == keys.len()
    &&& forall|k: int| 0 <= k < order.len() ==> #[trigger] order[k] < keys.len()
    &&& forall|j: int, k: int|
        0 <= j < k < order.len() ==> listed_before(
            keys,
            #[trigger] order[j] as int,
            #[trigger] order[k] as int,
        )
}

proof fn listed_before_is_transitive(keys: Seq<SortKey>, i: int, j: int, k: int)
    requires
        listed_before(keys, i, j),
        listed_before(keys, j, k),
    ensures
        listed_before(keys, i, k),
{
    let (a, b, c) = (keys[i], keys[j], keys[k]);
    if a.rank == b.rank && b.rank == c.rank && text_less(b.used, a.used) && text_less(
        c.used,
        b.used,
    ) {
        text_less_is_transitive(c.used, b.used, a.used);
    }
}

proof fn listed_before_is_total(keys: Seq<SortKey>, i: int, j: int)
    requires
        i != j,
    ensures
        listed_before(keys, i, j) != listed_before(keys, j, i),
{
    text_less_is_strict(keys[i].used, keys[j].used);
}

/// No session is listed before itself.
pub proof fn no_session_precedes_itself(keys: Seq<SortKey>, i: int)
    ensures
        !listed_before(keys, i, i),
{
    text_less_is_strict(keys[i].used, keys[i].used);
}

fn comes_before(sessions: &Vec<Model>, ranks: &Vec<u8>, i: usize, j: usize) -> (r: bool)
    requires
        i < sessions@.len(),
        j < sessions@.len(),
        ranks@.len() == sessions@.len(),
    ensures
        r == listed_before(sort_keys(sessions@, ranks@), i as int, j as int),
{
    if ranks[i] != ranks[j] {
        return ranks[i] < ranks[j];
    }
    if is_text_less(&sessions[j].last_used_at, &sessions[i].last_used_at) {
        return true;
    }
    same(&sessions[i].last_used_at, &sessions[j].last_used_at) && i < j
}

/// The places of sessions with given ranks.
pub open spec fn sort_keys(sessions: Seq<Model>, ranks: Seq<u8>) -> Seq<SortKey> {
    Seq::new(
        sessions.len(),
        |i: int| SortKey { rank: ranks[i], used: sessions[i].last_used_at@ },
    )
}

fn sort_sessions(sessions: &Vec<Model>, ranks: &Vec<u8>) -> (r: Vec<usize>)
    requires
        ranks@.len() == sessions@.len(),
    ensures
        is_order(sort_keys(sessions@, ranks@), r@),
{
    let ghost keys = sort_keys(sessions@, ranks@);
    let n = sessions.len();
    let mut order: Vec<usize> = Vec::new();
    let mut i: usize = 0;
    while i < n
        invariant
            i <= n,
            n == sessions@.len(),
            n == ranks@.len(),
            keys == sort_keys(sessions@, ranks@),
            order@.len() == i,
            forall|k: int| 0 <= k < i ==> #[trigger] order@[k] < i,
            forall|j: int, k: int|
                0 <= j < k < i ==> listed_before(
                    keys,
                    #[trigger] order@[j] as int,
                    #[trigger] order@[k] as int,
                ),
        decreases n - i,
    {
        let mut p: usize = i;
        while p > 0 && comes_before(sessions, ranks, i, order[p - 1])
            invariant
                p <= i,
                i < n,
                n == sessions@.len(),
                n == ranks@.len(),
                keys == sort_keys(sessions@, ranks@),
                order@.len() == i,
                forall|k: int| 0 <= k < i ==> #[trigger] order@[k] < i,
                forall|k: int|
                    p <= k < i ==> listed_before(keys, i as int, #[trigger] order@[k] as int),
            decreases p,
        {
            p = p - 1;
        }
        let ghost before = order@;
        proof {
            assert forall|j: int| 0 <= j < p implies listed_before(
                keys,
                #[trigger] before[j] as int,
                i as int,
            ) by {
                let last = before[p - 1] as int;
                listed_before_is_total(keys, i as int, last);
                if j < p - 1 {
                    assert(listed_before(keys, before[j] as int, last));
                    listed_before_is_transitive(keys, before[j] as int, last, i as int);
                }
            }
        }
        order.insert(p, i);
        proof {
            let after = order@;
            assert forall|k: int| 0 <= k < i + 1 implies #[trigger] after[k] < i + 1 by {
                if k < p {
                    assert(after[k] == before[k]);
                } else if k > p {
                    assert(after[k] == before[k - 1]);
                }
            }
            assert forall|j: int, k: int| 0 <= j < k < i + 1 implies listed_before(
                keys,
                #[trigger] after[j] as int,
                #[trigger] after[k] as int,
            ) by {
                if k < p {
                    assert(after[j] == before[j] && after[k] == before[k]);
                } else if k == p {
                    assert(after[j] == before[j]);
                } else if j < p {
                    assert(after[j] == before[j] && after[k] == before[k - 1]);
                } else if j == p {
                    assert(after[k] == before[k - 1]);
                } else {
                    assert(after[j] == before[j - 1] && after[k] == before[k - 1]);
                }
            }
        }
        i = i + 1;
    }
    order
}

// ── Lines ───────────────────────────────────────────────────────────────────

/// The identifiers of sessions without hyphens.
pub open spec fn hex_ids_of(sessions: Seq<Model>) -> Seq<Seq<char>> {
    sessions.map_values(|s: Model| hex_text(s.copilot_uuid@))
}

/// The identifiers of sessions without hyphens.
pub fn hex_ids(sessions: &Vec<Model>) -> (r: Vec<String>)
    ensures
        texts(r@) == hex_ids_of(sessions@),
{
    let mut ids: Vec<String> = Vec::new();
    let mut i: usize = 0;
    while i < sessions.len()
        invariant
            i <= sessions@.len(),
            ids@.len() == i,
            forall|j: int|
                0 <= j < i ==> (#[trigger] ids@[j])@ == hex_text(sessions@[j].copilot_uuid@),
        decreases sessions@.len() - i,
    {
        ids.push(uuid_hex(&sessions[i].copilot_uuid));
        i = i + 1;
    }
    assert(texts(ids@) =~= hex_ids_of(sessions@));
    ids
}

/// The identifiers of sessions.
pub fn known_uuids(sessions: &Vec<Model>) -> (r: Vec<String>)
    ensures
        r@ == sessions@.map_values(|s: Model| s.copilot_uuid),
{
    let mut ids: Vec<String> = Vec::new();
    let mut i: usize = 0;
    while i < sessions.len()
        invariant
            i <= sessions@.len(),
            ids@.len() == i,
            forall|j: int| 0 <= j < i ==> #[trigger] ids@[j] == sessions@[j].copilot_uuid,
        decreases sessions@.len() - i,
    {
        ids.push(sessions[i].copilot_uuid.clone());
        i = i + 1;
    }
    assert(ids@ =~= sessions@.map_values(|s: Model| s.copilot_uuid));
    ids
}

/// What a listing is made from: the sessions to list, the checked-out branches of their
/// worktrees, the zellij sessions, what is known of Codespaces, and the identifiers of all
/// stored sessions.
#[derive(Debug)]
pub struct ListInput {
    pub sessions: Vec<Model>,
    pub branches: Vec<Option<String>>,
    pub local: State,
    pub states: CodespaceStates,
    pub all_hex_ids: Vec<String>,
}

/// The status of the `i`th session.
pub open spec fn status_at(input: ListInput, i: int) -> Result<Seq<char>, Failure> {
    shown_status(input.sessions@[i], input.local@, input.states@)
}

/// The repository of the `i`th session, its branch and its status.
pub open spec fn shown_at(input: ListInput, i: int) -> Result<
    (Seq<char>, Seq<char>, Seq<char>),
    Failure,
> {
    let session = input.sessions@[i];
    match shown_repo(session) {
        Err(f) => Err(f),
        Ok(repo) => match shown_branch(session, opt_text(input.branches@[i]), input.states@) {
            Err(f) => Err(f),
            Ok(branch) => match status_at(input, i) {
                Err(f) => Err(f),
                Ok(status) => Ok((repo, branch, status)),
            },
        },
    }
}

/// The line of the `i`th session.
pub open spec fn line_at(input: ListInput, i: int, color: bool, at: Moment) -> Result<
    Seq<char>,
    Failure,
> {
    let session = input.sessions@[i];
    let hex = hex_text(session.copilot_uuid@);
    match shown_at(input, i) {
        Err(f) => Err(f),
        Ok((repo, branch, status)) => Ok(
            session_line(
                shortcode_text(
                    hex,
                    shortest_unique(hex, texts(input.all_hex_ids@)) as nat,
                    color,
                ),
                session.name@,
                repo,
                branch,
                status,
                relative_text(session.last_used_at@, at),
                color,
            ),
        ),
    }
}

/// What the filter of the picker searches for the `i`th session.
pub open spec fn search_text_at(input: ListInput, i: int) -> Seq<char> {
    let session = input.sessions@[i];
    match shown_at(input, i) {
        Ok((repo, branch, status)) => session.name@ + " "@ + repo + " "@ + branch + " "@ + status
            + " "@ + hex_text(session.copilot_uuid@),
        Err(_) => Seq::empty(),
    }
}

/// The first place from `i` on of a session whose status cannot be shown, or the end.
pub open spec fn first_unshown(input: ListInput, i: int) -> int
    decreases input.sessions@.len() - i,
{
    if i >= input.sessions@.len() || status_at(input, i) is Err {
        i
    } else {
        first_unshown(input, i + 1)
    }
}

/// The places of all sessions.
pub open spec fn all_keys(input: ListInput) -> Seq<SortKey> {
    Seq::new(
        input.sessions@.len(),
        |i: int|
            match status_at(input, i) {
                Ok(status) => sort_key(input.sessions@[i], status),
                Err(_) => SortKey { rank: 0, used: Seq::empty() },
            },
    )
}

fn listing_order(input: &ListInput) -> (r: Result<(Vec<usize>, Vec<String>), Failure>)
    ensures
        match r {
            Ok((order, statuses)) => {
                &&& first_unshown(*input, 0) == input.sessions@.len()
                &&& is_order(all_keys(*input), order@)
                &&& statuses@.len() == input.sessions@.len()
                &&& forall|i: int|
                    0 <= i < statuses@.len() ==> status_at(*input, i) == Ok::<Seq<char>, Failure>(
                        (#[trigger] statuses@[i])@,
                    )
            },
            Err(f) => first_unshown(*input, 0) < input.sessions@.len() && status_at(
                *input,
                first_unshown(*input, 0),
            ) == Err::<Seq<char>, Failure>(f),
        },
{
    let n = input.sessions.len();
    let mut statuses: Vec<String> = Vec::new();
    let mut ranks: Vec<u8> = Vec::new();
    let mut i: usize = 0;
    while i < n
        invariant
            i <= n,
            n == input.sessions@.len(),
            statuses@.len() == i,
            ranks@.len() == i,
            first_unshown(*input, 0) == first_unshown(*input, i as int),
            forall|j: int|
                0 <= j < i ==> status_at(*input, j) == Ok::<Seq<char>, Failure>(
                    (#[trigger] statuses@[j])@,
                ),
            forall|j: int|
                0 <= j < i ==> #[trigger] ranks@[j] == rank_of(leading_word(statuses@[j]@)),
        decreases n - i,
    {
        match session_display_status(&input.sessions[i], &input.local, &input.states) {
            Err(f) => {
                return Err(f);
            },
            Ok(status) => {
                ranks.push(status_rank(&leading(&status)));
                statuses.push(status);
            },
        }
        i = i + 1;
    }
    let order = sort_sessions(&input.sessions, &ranks);
    assert(sort_keys(input.sessions@, ranks@) =~= all_keys(*input)) by {
        assert forall|j: int| 0 <= j < n implies sort_keys(input.sessions@, ranks@)[j] == all_keys(
            *input,
        )[j] by {
            assert(status_at(*input, j) == Ok::<Seq<char>, Failure>(statuses@[j]@));
            assert(ranks@[j] == rank_of(leading_word(statuses@[j]@)));
        }
    }
    Ok((order, statuses))
}

/// One listed session: what its line is made of.
struct Shown {
    repo: String,
    branch: String,
    line: String,
}

fn show(
    input: &ListInput,
    i: usize,
    status: &str,
    unique_len: usize,
    color: bool,
    at: Moment,
) -> (r: Result<Shown, Failure>)
    requires
        at.valid(),
        i < input.sessions@.len(),
        input.branches@.len() == input.sessions@.len(),
        status_at(*input, i as int) == Ok::<Seq<char>, Failure>(status@),
        unique_len == shortest_unique(
            hex_text(input.sessions@[i as int].copilot_uuid@),
            texts(input.all_hex_ids@),
        ),
    ensures
        match r {
            Ok(shown) => {
                &&& shown_at(*input, i as int) == Ok::<(Seq<char>, Seq<char>, Seq<char>), Failure>(
                    (shown.repo@, shown.branch@, status@),
                )
                &&& line_at(*input, i as int, color, at) == Ok::<Seq<char>, Failure>(shown.line@)
            },
            Err(f) => shown_at(*input, i as int) == Err::<
                (Seq<char>, Seq<char>, Seq<char>),
                Failure,
            >(f),
        },
{
    let session = &input.sessions[i];
    let repo = match session_repo_label(session) {
        Ok(repo) => repo,
        Err(f) => {
            return Err(f);
        },
    };
    let branch = match session_display_branch(session, &input.branches[i], &input.states) {
        Ok(branch) => branch,
        Err(f) => {
            return Err(f);
        },
    };
    let hex = uuid_hex(&session.copilot_uuid);
    let shortcode = format_shortcode(&hex, unique_len, color);
    let line = format_session_line_at(
        &shortcode,
        &session.name,
        &repo,
        &branch,
        status,
        &session.last_used_at,
        color,
        at,
    );
    Ok(Shown { repo, branch, line })
}

/// What is shown where there is no session to list.
pub const NO_SESSIONS: &'static str = "No sessions found.";

/// A listing: its lines, and what went wrong in the line after them, if anything did.
#[derive(Debug)]
pub struct Listing {
    pub lines: Vec<String>,
    pub failure: Option<Failure>,
}

/// `listing` lists sessions in some order: each line up to the first one that fails, and why
/// that failed.
pub open spec fn lists(
    listing: Listing,
    input: ListInput,
    order: Seq<usize>,
    color: bool,
    at: Moment,
) -> bool {
    &&& listing.lines@.len() <= order.len()
    &&& forall|k: int|
        0 <= k < listing.lines@.len() ==> line_at(input, order[k] as int, color, at) == Ok::<
            Seq<char>,
            Failure,
        >((#[trigger] listing.lines@[k])@)
    &&& match listing.failure {
        None => listing.lines@.len() == order.len(),
        Some(f) => listing.lines@.len() < order.len() && line_at(
            input,
            order[listing.lines@.len() as int] as int,
            color,
            at,
        ) == Err::<Seq<char>, Failure>(f),
    }
}

/// List sessions, one line each: by status, then by when they were last used. A session
/// whose status cannot be shown fails the whole listing.
pub fn list(input: &ListInput, color: bool, at: Moment) -> (r: Result<Listing, Failure>)
    requires
        at.valid(),
        input.branches@.len() == input.sessions@.len(),
    ensures
        match r {
            Ok(listing) => {
                &&& first_unshown(*input, 0) == input.sessions@.len()
                &&& exists|order: Seq<usize>| #[trigger]
                    is_order(all_keys(*input), order) && lists(listing, *input, order, color, at)
            },
            Err(f) => first_unshown(*input, 0) < input.sessions@.len() && status_at(
                *input,
                first_unshown(*input, 0),
            ) == Err::<Seq<char>, Failure>(f),
        },
{
    let (order, statuses) = match listing_order(input) {
        Ok(found) => found,
        Err(f) => {
            return Err(f);
        },
    };
    let ids = hex_ids(&input.sessions);
    let lens = shortest_unique_prefixes_within(&ids, &input.all_hex_ids);
    let n = order.len();
    let mut lines: Vec<String> = Vec::new();
    let mut k: usize = 0;
    assert(texts(ids@).len() == ids@.len());
    while k < n
        invariant
            k <= n,
            n == order@.len(),
            n == input.sessions@.len(),
            at.valid(),
            input.branches@.len() == input.sessions@.len(),
            first_unshown(*input, 0) == input.sessions@.len(),
            is_order(all_keys(*input), order@),
            texts(ids@) == hex_ids_of(input.sessions@),
            ids@.len() == n,
            lens@.len() == n,
            statuses@.len() == n,
            forall|i: int|
                0 <= i < lens@.len() ==> #[trigger] lens@[i] == shortest_unique(
                    ids@[i]@,
                    texts(input.all_hex_ids@),
                ),
            forall|i: int|
                0 <= i < statuses@.len() ==> status_at(*input, i) == Ok::<Seq<char>, Failure>(
                    (#[trigger] statuses@[i])@,
                ),
            lines@.len() == k,
            forall|j: int|
                0 <= j < k ==> line_at(*input, order@[j] as int, color, at) == Ok::<
                    Seq<char>,
                    Failure,
                >((#[trigger] lines@[j])@),
        decreases n - k,
    {
        assert(order@[k as int] < all_keys(*input).len());
        let i = order[k];
        assert(texts(ids@)[i as int] == ids@[i as int]@);
        assert(hex_ids_of(input.sessions@)[i as int] == hex_text(
            input.sessions@[i as int].copilot_uuid@,
        ));
        match show(input, i, &statuses[i], lens[i], color, at) {
            Ok(shown) => {
                lines.push(shown.line);
            },
            Err(f) => {
                let listing = Listing { lines, failure: Some(f) };
                assert(lists(listing, *input, order@, color, at));
                return Ok(listing);
            },
        }
        k = k + 1;
    }
    let listing = Listing { lines, failure: None };
    assert(lists(listing, *input, order@, color, at));
    Ok(listing)
}

/// `item` is the row of the `i`th session in the picker.
pub open spec fn is_candidate(item: Item, input: ListInput, i: int, at: Moment) -> bool {
    &&& item.key == input.sessions@[i].name
    &&& line_at(input, i, true, at) == Ok::<Seq<char>, Failure>(item.display@)
    &&& item.search_text@ == search_text_at(input, i)
    &&& item.hidden == (input.sessions@[i].status@ == STATUS_REMOVED@)
}

/// `r` holds a row for each session in some order, or why the first one that cannot be shown
/// cannot.
pub open spec fn are_candidates(
    r: Result<Vec<Item>, Failure>,
    input: ListInput,
    order: Seq<usize>,
    at: Moment,
) -> bool {
    match r {
        Ok(items) => {
            &&& items@.len() == order.len()
            &&& forall|k: int|
                0 <= k < items@.len() ==> is_candidate(
                    #[trigger] items@[k],
                    input,
                    order[k] as int,
                    at,
                )
        },
        Err(f) => exists|k: int|
            {
                &&& 0 <= k < order.len()
                &&& #[trigger] line_at(input, order[k] as int, true, at) == Err::<
                    Seq<char>,
                    Failure,
                >(f)
                &&& forall|j: int|
                    0 <= j < k ==> #[trigger] line_at(input, order[j] as int, true, at) is Ok
            },
    }
}

/// The rows of the picker, in the order of a listing. Removed sessions are hidden, and shown
/// on demand only.
pub fn interactive_remove_candidates(input: &ListInput, at: Moment) -> (r: Result<
    Vec<Item>,
    Failure,
>)
    requires
        at.valid(),
        input.branches@.len() == input.sessions@.len(),
    ensures
        if first_unshown(*input, 0) < input.sessions@.len() {
            r is Err && status_at(*input, first_unshown(*input, 0)) == Err::<Seq<char>, Failure>(
                r->Err_0,
            )
        } else {
            exists|order: Seq<usize>| #[trigger]
                is_order(all_keys(*input), order) && are_candidates(r, *input, order, at)
        },
{
    let (order, statuses) = match listing_order(input) {
        Ok(found) => found,
        Err(f) => {
            return Err(f);
        },
    };
    let ids = hex_ids(&input.sessions);
    let lens = shortest_unique_prefixes_within(&ids, &input.all_hex_ids);
    let n = order.len();
    let mut items: Vec<Item> = Vec::new();
    let mut k: usize = 0;
    assert(texts(ids@).len() == ids@.len());
    while k < n
        invariant
            k <= n,
            n == order@.len(),
            n == input.sessions@.len(),
            at.valid(),
            input.branches@.len() == input.sessions@.len(),
            first_unshown(*input, 0) == input.sessions@.len(),
            is_order(all_keys(*input), order@),
            texts(ids@) == hex_ids_of(input.sessions@),
            ids@.len() == n,
            lens@.len() == n,
            statuses@.len() == n,
            forall|i: int|
                0 <= i < lens@.len() ==> #[trigger] lens@[i] == shortest_unique(
                    ids@[i]@,
                    texts(input.all_hex_ids@),
                ),
            forall|i: int|
                0 <= i < statuses@.len() ==> status_at(*input, i) == Ok::<Seq<char>, Failure>(
                    (#[trigger] statuses@[i])@,
                ),
            items@.len() == k,
            forall|j: int|
                0 <= j < k ==> is_candidate(
                    #[trigger] items@[j],
                    *input,
                    order@[j] as int,
                    at,
                ),
        decreases n - k,
    {
        assert(order@[k as int] < all_keys(*input).len());
        let i = order[k];
        assert(texts(ids@)[i as int] == ids@[i as int]@);
        assert(hex_ids_of(input.sessions@)[i as int] == hex_text(
            input.sessions@[i as int].copilot_uuid@,
        ));
        let session = &input.sessions[i];
        match show(input, i, &statuses[i], lens[i], true, at) {
            Ok(shown) => {
                let head = cat5(&session.name, " ", &shown.repo, " ", &shown.branch);
                let search_text = cat5(&head, " ", &statuses[i], " ", &ids[i]);
                assert(search_text@ == search_text_at(*input, i as int));
                items.push(
                    Item {
                        key: session.name.clone(),
                        display: shown.line,
                        search_text,
                        hidden: same(&session.status, STATUS_REMOVED),
                    },
                );
            },
            Err(f) => {
                let r: Result<Vec<Item>, Failure> = Err(f);
                proof {
                    assert(line_at(*input, order@[k as int] as int, true, at) == Err::<
                        Seq<char>,
                        Failure,
                    >(f));
                    assert forall|j: int| 0 <= j < k implies #[trigger] line_at(
                        *input,
                        order@[j] as int,
                        true,
                        at,
                    ) is Ok by {
                        assert(is_candidate(items@[j], *input, order@[j] as int, at));
                    }
                    assert(are_candidates(r, *input, order@, at));
                }
                return r;
            },
        }
        k = k + 1;
    }
    let r: Result<Vec<Item>, Failure> = Ok(items);
    assert(are_candidates(r, *input, order@, at));
    r
}

} // verus!
