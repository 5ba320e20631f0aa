//! How sessions are shown: shortcodes, relative times and listing lines.

use vstd::prelude::*;
use vstd::utf8::encode_utf8;

use crate::clock::{age, age_at, is_past, now, stamp_seconds, Moment};
use crate::text::{
    byte_prefix, byte_prefix_len, cat2, cat3, cat4, cat5, collect, decimal, same,
    texts, to_chars, to_decimal,
};

verus! {

pub const RESET: &'static str = "\x1b[0m";

pub const BOLD: &'static str = "\x1b[1m";

pub const DIM: &'static str = "\x1b[2m";

pub const GREEN: &'static str = "\x1b[32m";

pub const YELLOW: &'static str = "\x1b[33m";

pub const MAGENTA: &'static str = "\x1b[35m";

pub const CYAN: &'static str = "\x1b[36m";

/// The number of characters of a shown shortcode.
pub const SHORTCODE_DISPLAY_LEN: usize = 8;

// ── Shortcodes ──────────────────────────────────────────────────────────────

/// `s` without its hyphens.
pub open spec fn hex_text(s: Seq<char>) -> Seq<char> {
    s.filter(|c: char| c != '-')
}

/// The first eight bytes of `s` without its hyphens.
pub open spec fn short_text(s: Seq<char>) -> Seq<char> {
    byte_prefix(hex_text(s), SHORTCODE_DISPLAY_LEN as nat)
}

/// Strip hyphens from a UUID for shortcode display.
pub fn uuid_hex(uuid: &str) -> (r: String)
    ensures
        r@ == hex_text(uuid@),
{
    let v = to_chars(uuid);
    let mut out = String::new();
    let mut i: usize = 0;
    while i < v.len()
        invariant
            i <= v@.len(),
            v@ == uuid@,
            out@ == hex_text(v@.take(i as int)),
        decreases v@.len() - i,
    {
        assert(v@.take(i + 1).drop_last() =~= v@.take(i as int));
        reveal(Seq::filter);
        if v[i] != '-' {
            out.push(v[i]);
        }
        i = i + 1;
    }
    assert(v@.take(i as int) =~= v@);
    out
}

/// Return the short (8-char hex) prefix of a UUID.
pub fn short_uuid(uuid: &str) -> (r: String)
    ensures
        r@ == short_text(uuid@),
{
    let hex = uuid_hex(uuid);
    let v = to_chars(&hex);
    let n = byte_prefix_len(&v, SHORTCODE_DISPLAY_LEN);
    collect(&v, 0, n)
}

/// The bytes `b` begin with `p`.
pub open spec fn begins_with(b: Seq<u8>, p: Seq<u8>) -> bool {
    p.len() <= b.len() && b.take(p.len() as int) == p
}

/// How many of the texts have a UTF-8 form that begins with `p`.
pub open spec fn sharing(universe: Seq<Seq<char>>, p: Seq<u8>) -> nat
    decreases universe.len(),
{
    if universe.len() == 0 {
        0
    } else {
        sharing(universe.drop_last(), p) + (if begins_with(encode_utf8(universe.last()), p) {
            1nat
        } else {
            0nat
        })
    }
}

/// Exactly one text of the universe begins with the first `n` bytes of `id`.
pub open spec fn singles_out(id: Seq<char>, universe: Seq<Seq<char>>, n: int) -> bool {
    sharing(universe, encode_utf8(id).take(n)) == 1
}

/// The least number of bytes of `id`, from `n` on, that single out one text of the universe,
/// or the length of `id` if there is none.
pub open spec fn unique_from(id: Seq<char>, universe: Seq<Seq<char>>, n: int) -> int
    decreases encode_utf8(id).len() - n,
{
    let len = encode_utf8(id).len();
    if n >= len {
        len as int
    } else if singles_out(id, universe, n) {
        n
    } else {
        unique_from(id, universe, n + 1)
    }
}

/// The least positive number of bytes of `id` that single out one text of the universe, or
/// the length of `id` if there is none.
pub open spec fn shortest_unique(id: Seq<char>, universe: Seq<Seq<char>>) -> int {
    unique_from(id, universe, 1)
}

fn bytes_begin_with(b: &[u8], p: &[u8], n: usize) -> (r: bool)
    requires
        n <= p@.len(),
    ensures
        r == begins_with(b@, p@.take(n as int)),
{
    if b.len() < n {
        return false;
    }
    let mut i: usize = 0;
    while i < n
        invariant
            i <= n,
            n <= p@.len(),
            n <= b@.len(),
            forall|j: int| 0 <= j < i ==> b@[j] == p@[j],
        decreases n - i,
    {
        if b[i] != p[i] {
            assert(b@.take(n as int)[i as int] != p@.take(n as int)[i as int]);
            return false;
        }
        i = i + 1;
    }
    assert(b@.take(n as int) =~= p@.take(n as int));
    true
}

fn count_sharing(universe: &Vec<String>, p: &[u8], n: usize) -> (r: usize)
    requires
        n <= p@.len(),
    ensures
        r == sharing(texts(universe@), p@.take(n as int)),
{
    let mut count: usize = 0;
    let mut i: usize = 0;
    while i < universe.len()
        invariant
            i <= universe@.len(),
            count <= i,
            n <= p@.len(),
            count == sharing(texts(universe@).take(i as int), p@.take(n as int)),
        decreases universe@.len() - i,
    {
        assert(texts(universe@).take(i + 1).drop_last() =~= texts(universe@).take(i as int));
        if bytes_begin_with(universe[i].as_str().as_bytes(), p, n) {
            count = count + 1;
        }
        i = i + 1;
    }
    assert(texts(universe@).take(i as int) =~= texts(universe@));
    count
}

fn unique_len(id: &str, universe: &Vec<String>) -> (r: usize)
    ensures
        r == shortest_unique(id@, texts(universe@)),
{
    let bytes = id.as_bytes();
    let n = bytes.len();
    let mut len: usize = 1;
    while len < n
        invariant
            1 <= len,
            n == bytes@.len(),
            bytes@ == encode_utf8(id@),
            shortest_unique(id@, texts(universe@)) == unique_from(
                id@,
                texts(universe@),
                len as int,
            ),
        decreases n - len,
    {
        if count_sharing(universe, bytes, len) == 1 {
            return len;
        }
        len = len + 1;
    }
    n
}

/// Compute the shortest unique prefix length for each hex ID in `hex_ids`, where
/// uniqueness is measured against the full `universe` of hex IDs. This lets callers
/// display only a subset of sessions while still producing prefixes that identify the
/// entry among all sessions in storage.
pub fn shortest_unique_prefixes_within(hex_ids: &Vec<String>, universe: &Vec<String>) -> (r: Vec<
    usize,
>)
    ensures
        r@.len() == hex_ids@.len(),
        forall|i: int|
            0 <= i < r@.len() ==> #[trigger] r@[i] == shortest_unique(
                hex_ids@[i]@,
                texts(universe@),
            ),
{
    let mut out: Vec<usize> = Vec::new();
    let mut i: usize = 0;
    while i < hex_ids.len()
        invariant
            i <= hex_ids@.len(),
            out@.len() == i,
            forall|j: int|
                0 <= j < i ==> #[trigger] out@[j] == shortest_unique(
                    hex_ids@[j]@,
                    texts(universe@),
                ),
        decreases hex_ids@.len() - i,
    {
        out.push(unique_len(&hex_ids[i], universe));
        i = i + 1;
    }
    out
}

/// Compute the shortest unique prefix length for each hex ID in a list.
pub fn shortest_unique_prefixes(hex_ids: &Vec<String>) -> (r: Vec<usize>)
    ensures
        r@.len() == hex_ids@.len(),
        forall|i: int|
            0 <= i < r@.len() ==> #[trigger] r@[i] == shortest_unique(
                hex_ids@[i]@,
                texts(hex_ids@),
            ),
{
    shortest_unique_prefixes_within(hex_ids, hex_ids)
}

/// A shortcode: the first eight bytes of `hex`, with the first `unique_len` of them bold
/// and the rest dimmed where `color` is set.
pub open spec fn shortcode_text(hex: Seq<char>, unique_len: nat, color: bool) -> Seq<char> {
    let shown = byte_prefix(hex, SHORTCODE_DISPLAY_LEN as nat);
    let unique = byte_prefix(shown, unique_len);
    if color {
        BOLD@ + MAGENTA@ + unique + RESET@ + DIM@ + MAGENTA@ + shown.skip(unique.len() as int)
            + RESET@
    } else {
        shown
    }
}

/// Format a shortcode with jj-style coloring: the unique prefix is bold, the remainder
/// is dimmed.
pub fn format_shortcode(hex: &str, unique_len: usize, color: bool) -> (r: String)
    ensures
        r@ == shortcode_text(hex@, unique_len as nat, color),
{
    let v = to_chars(hex);
    let n = byte_prefix_len(&v, SHORTCODE_DISPLAY_LEN);
    let shown = collect(&v, 0, n);
    if color {
        let w = to_chars(&shown);
        let cut = byte_prefix_len(&w, unique_len);
        let unique = collect(&w, 0, cut);
        let rest = collect(&w, cut, w.len());
        assert(unique@ =~= byte_prefix(shown@, unique_len as nat));
        assert(rest@ =~= shown@.skip(cut as int));
        let head = cat5(BOLD, MAGENTA, &unique, RESET, DIM);
        cat4(&head, MAGENTA, &rest, RESET)
    } else {
        shown
    }
}

// ── Times ───────────────────────────────────────────────────────────────────

/// An age in seconds as a short text, in the largest unit that it fills.
pub open spec fn age_text(secs: int) -> Seq<char> {
    if secs < 60 {
        "now"@
    } else if secs < 3600 {
        decimal((secs / 60) as nat) + "m"@
    } else if secs < 86400 {
        decimal((secs / 3600) as nat) + "h"@
    } else if secs < 604800 {
        decimal((secs / 86400) as nat) + "d"@
    } else if secs < 2_592_000 {
        decimal((secs / 604800) as nat) + "w"@
    } else {
        decimal((secs / 2_592_000) as nat) + "mo"@
    }
}

/// The short text for an age in seconds.
pub fn age_label(secs: i64) -> (r: String)
    ensures
        r@ == age_text(secs as int),
{
    if secs < 60 {
        "now".to_string()
    } else if secs < 3600 {
        cat2(&to_decimal((secs / 60) as u64), "m")
    } else if secs < 86400 {
        cat2(&to_decimal((secs / 3600) as u64), "h")
    } else if secs < 604800 {
        cat2(&to_decimal((secs / 86400) as u64), "d")
    } else if secs < 2_592_000 {
        cat2(&to_decimal((secs / 604800) as u64), "w")
    } else {
        cat2(&to_decimal((secs / 2_592_000) as u64), "mo")
    }
}

/// The age of a timestamp at a moment, or the timestamp itself where it cannot be read.
pub open spec fn relative_text(timestamp: Seq<char>, at: Moment) -> Seq<char> {
    match age(timestamp, at) {
        Some(secs) => age_text(secs as int),
        None => timestamp,
    }
}

/// Format a UTC timestamp as its age at `at`.
pub fn relative_time_at(timestamp: &str, at: Moment) -> (r: String)
    requires
        at.valid(),
    ensures
        r@ == relative_text(timestamp@, at),
        is_past(timestamp@, at) ==> r@ == age_text(at.seconds - stamp_seconds(timestamp@)),
{
    match age_at(timestamp, at) {
        Some(secs) => age_label(secs),
        None => timestamp.to_string(),
    }
}

/// Format a UTC timestamp as a short relative time string (e.g., "3m", "2h", "5d").
pub fn relative_time(timestamp: &str) -> (r: String)
    ensures
        exists|at: Moment| at.current() && r@ == #[trigger] relative_text(timestamp@, at),
{
    let at = now();
    relative_time_at(timestamp, at)
}

// ── Lines ───────────────────────────────────────────────────────────────────

/// The color of a status.
pub open spec fn status_color(status: Seq<char>) -> Seq<char> {
    if status == "running"@ {
        GREEN@
    } else if status == "exited"@ {
        YELLOW@
    } else {
        DIM@
    }
}

/// The listing line of a session.
pub open spec fn session_line(
    shortcode: Seq<char>,
    name: Seq<char>,
    repo: Seq<char>,
    branch: Seq<char>,
    status: Seq<char>,
    ago: Seq<char>,
    color: bool,
) -> Seq<char> {
    if color {
        shortcode + " "@ + (BOLD@ + name + RESET@) + " "@ + (CYAN@ + repo + RESET@) + " "@ + (
        MAGENTA@ + branch + RESET@) + " "@ + (status_color(status) + status + RESET@) + " "@ + (DIM@
            + "["@ + ago + "]"@ + RESET@)
    } else {
        shortcode + " "@ + name + " "@ + repo + " "@ + branch + " "@ + status + " ["@ + ago + "]"@
    }
}

/// Format a session line for listing at the moment `at`.
pub fn format_session_line_at(
    shortcode: &str,
    name: &str,
    repo: &str,
    branch: &str,
    status: &str,
    last_used: &str,
    color: bool,
    at: Moment,
) -> (r: String)
    requires
        at.valid(),
    ensures
        r@ == session_line(
            shortcode@,
            name@,
            repo@,
            branch@,
            status@,
            relative_text(last_used@, at),
            color,
        ),
{
    let ago = relative_time_at(last_used, at);
    if color {
        let name = cat3(BOLD, name, RESET);
        let repo = cat3(CYAN, repo, RESET);
        let branch = cat3(MAGENTA, branch, RESET);
        let hue = if same(status, "running") {
            GREEN
        } else if same(status, "exited") {
            YELLOW
        } else {
            DIM
        };
        let status = cat3(hue, status, RESET);
        let ago = cat5(DIM, "[", &ago, "]", RESET);
        let head = cat5(shortcode, " ", &name, " ", &repo);
        cat2(&cat5(&head, " ", &branch, " ", &status), &cat2(" ", &ago))
    } else {
        let head = cat5(shortcode, " ", name, " ", repo);
        let tail = cat5(" ", branch, " ", status, " [");
        cat4(&head, &tail, &ago, "]")
    }
}

/// Format a session line for listing now.
pub fn format_session_line(
    shortcode: &str,
    name: &str,
    repo: &str,
    branch: &str,
    status: &str,
    last_used: &str,
    color: bool,
) -> (r: String)
    ensures
        exists|at: Moment|
            at.current() && r@ == session_line(
                shortcode@,
                name@,
                repo@,
                branch@,
                status@,
                #[trigger] relative_text(last_used@, at),
                color,
            ),
{
    let at = now();
    format_session_line_at(shortcode, name, repo, branch, status, last_used, color, at)
}

/// The place of a status in the order of a listing.
pub open spec fn rank_of(status: Seq<char>) -> u8 {
    if status == "running"@ {
        0
    } else if status == "exited"@ {
        1
    } else if status == "stopped"@ {
        2
    } else if status == "removed"@ {
        3
    } else {
        4
    }
}

/// Rank a status string for sorting (lower = higher priority).
pub fn status_rank(s: &str) -> (r: u8)
    ensures
        r == rank_of(s@),
{
    if same(s, "running") {
        0
    } else if same(s, "exited") {
        1
    } else if same(s, "stopped") {
        2
    } else if same(s, "removed") {
        3
    } else {
        4
    }
}

} // verus!
