//! Laws of colored text.

use vstd::prelude::*;

use crate::display::{
    session_line, shortcode_text, status_color, BOLD, CYAN, DIM, GREEN, MAGENTA, RESET,
    SHORTCODE_DISPLAY_LEN, YELLOW,
};
use crate::interactive::{ends_sequence, starts_sequence, width, width_from, ESCAPE};
use crate::text::{byte_prefix, byte_prefix_grows};

verus! {

/// The characters of `s` outside control sequences, where `inside` says whether `s` begins
/// within one.
pub open spec fn visible_from(s: Seq<char>, inside: bool) -> Seq<char>
    decreases s.len(),
{
    if s.len() == 0 {
        Seq::empty()
    } else if inside {
        visible_from(s.drop_first(), !ends_sequence(s[0]))
    } else if starts_sequence(s) {
        visible_from(s.skip(2), true)
    } else {
        seq![s[0]] + visible_from(s.drop_first(), false)
    }
}

/// What a terminal shows of `s`: its characters outside control sequences.
pub open spec fn visible(s: Seq<char>) -> Seq<char> {
    visible_from(s, false)
}

/// No control sequence starts in `s`.
pub open spec fn plain(s: Seq<char>) -> bool {
    forall|i: int| 0 <= i < s.len() ==> !starts_sequence(#[trigger] s.skip(i))
}

proof fn visible_has_width(s: Seq<char>, inside: bool)
    ensures
        visible_from(s, inside).len() == width_from(s, inside),
    decreases s.len(),
{
    if s.len() > 0 {
        if inside {
            visible_has_width(s.drop_first(), !ends_sequence(s[0]));
        } else if starts_sequence(s) {
            visible_has_width(s.skip(2), true);
        } else {
            visible_has_width(s.drop_first(), false);
        }
    }
}

/// The visible width of a text is the length of what shows of it.
pub proof fn width_counts_visible(s: Seq<char>)
    ensures
        visible(s).len() == width(s),
{
    visible_has_width(s, false);
}

/// A text without control sequences shows as it is, and what follows it shows as it would
/// alone, unless a control sequence starts where the two meet.
pub proof fn plain_shows(a: Seq<char>, b: Seq<char>)
    requires
        plain(a),
        a.len() > 0 && b.len() > 0 ==> a.last() != ESCAPE || b[0] != '[',
    ensures
        visible(a + b) == a + visible(b),
    decreases a.len(),
{
    if a.len() == 0 {
        assert(a + b =~= b);
        assert(a + visible(b) =~= visible(b));
    } else {
        let rest = a.drop_first();
        assert(a.skip(0) =~= a);
        assert(!starts_sequence(a));
        assert(!starts_sequence(a + b)) by {
            if a.len() >= 2 {
                assert((a + b)[1] == a[1]);
            } else if b.len() > 0 {
                assert((a + b)[1] == b[0]);
                assert(a.last() == a[0]);
            }
        }
        assert forall|i: int| 0 <= i < rest.len() implies !starts_sequence(
            #[trigger] rest.skip(i),
        ) by {
            assert(rest.skip(i) =~= a.skip(i + 1));
        }
        if rest.len() > 0 {
            assert(rest.last() == a.last());
        }
        plain_shows(rest, b);
        assert((a + b).drop_first() =~= rest + b);
        assert(seq![a[0]] + (rest + visible(b)) =~= a + visible(b));
    }
}

proof fn sequence_is_hidden(code: Seq<char>, b: Seq<char>)
    requires
        4 <= code.len() <= 5,
        code[0] == ESCAPE && code[1] == '[' && code.last() == 'm',
        '0' <= code[2] <= '9',
        '0' <= code[code.len() - 2] <= '9',
    ensures
        visible(code + b) == visible(b),
{
    let s = code + b;
    let t = s.skip(2);
    assert(starts_sequence(s));
    assert(t[0] == code[2]);
    let u = t.drop_first();
    assert(visible(s) == visible_from(t, true));
    assert(visible_from(t, true) == visible_from(u, true));
    if code.len() == 4 {
        assert(u[0] == code[3]);
        assert(u.drop_first() =~= b);
    } else {
        let v = u.drop_first();
        assert(u[0] == code[3]);
        assert(v[0] == code[4]);
        assert(v.drop_first() =~= b);
        assert(visible_from(u, true) == visible_from(v, true));
    }
}

proof fn color_is_hidden(code: Seq<char>, b: Seq<char>)
    requires
        code == RESET@ || code == BOLD@ || code == DIM@ || code == GREEN@ || code == YELLOW@
            || code == MAGENTA@ || code == CYAN@,
    ensures
        visible(code + b) == visible(b),
{
    reveal_strlit("\x1b[0m");
    reveal_strlit("\x1b[1m");
    reveal_strlit("\x1b[2m");
    reveal_strlit("\x1b[32m");
    reveal_strlit("\x1b[33m");
    reveal_strlit("\x1b[35m");
    reveal_strlit("\x1b[36m");
    sequence_is_hidden(code, b);
}

/// A text without control sequences shows as it is between a color and the reset after it.
proof fn colored_shows(code: Seq<char>, a: Seq<char>, b: Seq<char>)
    requires
        code == BOLD@ || code == DIM@ || code == GREEN@ || code == YELLOW@ || code == MAGENTA@
            || code == CYAN@,
        plain(a),
    ensures
        visible((code + a + RESET@) + b) == a + visible(b),
{
    reveal_strlit("\x1b[0m");
    let tail = RESET@ + b;
    assert((code + a + RESET@) + b =~= code + (a + tail));
    color_is_hidden(code, a + tail);
    assert(tail[0] == ESCAPE);
    plain_shows(a, tail);
    color_is_hidden(RESET@, b);
}

proof fn prefix_is_plain(s: Seq<char>, n: int)
    requires
        plain(s),
        0 <= n <= s.len(),
    ensures
        plain(s.take(n)),
        plain(s.skip(n)),
{
    assert forall|i: int| 0 <= i < n implies !starts_sequence(#[trigger] s.take(n).skip(i)) by {
        let t = s.take(n).skip(i);
        assert(!starts_sequence(s.skip(i)));
        if t.len() >= 2 {
            assert(t[0] == s.skip(i)[0] && t[1] == s.skip(i)[1]);
        }
    }
    assert forall|i: int| 0 <= i < s.skip(n).len() implies !starts_sequence(
        #[trigger] s.skip(n).skip(i),
    ) by {
        assert(s.skip(n).skip(i) =~= s.skip(n + i));
    }
}

proof fn shortcode_shows(hex: Seq<char>, unique_len: nat, b: Seq<char>)
    requires
        plain(shortcode_text(hex, unique_len, false)),
    ensures
        visible(shortcode_text(hex, unique_len, true) + b) == shortcode_text(hex, unique_len, false)
            + visible(b),
{
    let shown = byte_prefix(hex, SHORTCODE_DISPLAY_LEN as nat);
    let unique = byte_prefix(shown, unique_len);
    byte_prefix_grows(shown, unique_len, unique_len);
    let n = unique.len() as int;
    let rest = shown.skip(n);
    prefix_is_plain(shown, n);
    let second = MAGENTA@ + rest + RESET@;
    let first = MAGENTA@ + unique + RESET@;
    let after = DIM@ + (second + b);
    assert(shortcode_text(hex, unique_len, true) + b =~= BOLD@ + (first + after));
    color_is_hidden(BOLD@, first + after);
    colored_shows(MAGENTA@, unique, after);
    color_is_hidden(DIM@, second + b);
    colored_shows(MAGENTA@, rest, b);
    assert(unique + (rest + visible(b)) =~= shown + visible(b));
}

/// What shows of a colored shortcode is the shortcode without color.
pub proof fn colored_shortcode_shows_plain(hex: Seq<char>, unique_len: nat)
    requires
        plain(shortcode_text(hex, unique_len, false)),
    ensures
        visible(shortcode_text(hex, unique_len, true)) == shortcode_text(hex, unique_len, false),
{
    let none = Seq::<char>::empty();
    let code = shortcode_text(hex, unique_len, true);
    assert(code + none =~= code);
    shortcode_shows(hex, unique_len, none);
    assert(shortcode_text(hex, unique_len, false) + visible(none) =~= shortcode_text(
        hex,
        unique_len,
        false,
    ));
}

proof fn space_shows(b: Seq<char>)
    ensures
        visible(" "@ + b) == " "@ + visible(b),
{
    reveal_strlit(" ");
    assert forall|i: int| 0 <= i < " "@.len() implies !starts_sequence(#[trigger] " "@.skip(i)) by {
    }
    plain_shows(" "@, b);
}

proof fn age_shows(ago: Seq<char>)
    requires
        plain(ago),
    ensures
        visible(DIM@ + "["@ + ago + "]"@ + RESET@) == "["@ + ago + "]"@,
{
    reveal_strlit("[");
    reveal_strlit("]");
    reveal_strlit("\x1b[0m");
    let none = Seq::<char>::empty();
    let end = "]"@ + RESET@;
    let text = "["@ + (ago + end);
    assert(DIM@ + "["@ + ago + "]"@ + RESET@ =~= DIM@ + text);
    color_is_hidden(DIM@, text);
    assert forall|i: int| 0 <= i < "["@.len() implies !starts_sequence(#[trigger] "["@.skip(i)) by {
    }
    assert forall|i: int| 0 <= i < "]"@.len() implies !starts_sequence(#[trigger] "]"@.skip(i)) by {
    }
    plain_shows("["@, ago + end);
    plain_shows(ago, end);
    plain_shows("]"@, RESET@);
    assert(RESET@ =~= RESET@ + none);
    color_is_hidden(RESET@, none);
    assert("["@ + (ago + ("]"@ + none)) =~= "["@ + ago + "]"@);
}

proof fn joins(a: Seq<char>, b: Seq<char>, c: Seq<char>)
    ensures
        (a + b) + c == a + (b + c),
{
    assert((a + b) + c =~= a + (b + c));
}

/// What shows of a colored session line is the line without color.
pub proof fn colored_line_shows_plain(
    hex: Seq<char>,
    unique_len: nat,
    name: Seq<char>,
    repo: Seq<char>,
    branch: Seq<char>,
    status: Seq<char>,
    ago: Seq<char>,
)
    requires
        plain(shortcode_text(hex, unique_len, false)),
        plain(name),
        plain(repo),
        plain(branch),
        plain(status),
        plain(ago),
    ensures
        visible(
            session_line(
                shortcode_text(hex, unique_len, true),
                name,
                repo,
                branch,
                status,
                ago,
                true,
            ),
        ) == session_line(
            shortcode_text(hex, unique_len, false),
            name,
            repo,
            branch,
            status,
            ago,
            false,
        ),
{
    let code = shortcode_text(hex, unique_len, true);
    let bare = shortcode_text(hex, unique_len, false);
    let g = " "@;
    let n = BOLD@ + name + RESET@;
    let r = CYAN@ + repo + RESET@;
    let b = MAGENTA@ + branch + RESET@;
    let s = status_color(status) + status + RESET@;
    let e = DIM@ + "["@ + ago + "]"@ + RESET@;
    let line = session_line(code, name, repo, branch, status, ago, true);
    let (to_s, of_s) = (code + g + n + g + r + g + b + g, s + (g + e));
    let (to_b, of_b) = (code + g + n + g + r + g, b + (g + of_s));
    let (to_r, of_r) = (code + g + n + g, r + (g + of_b));
    let (to_n, of_n) = (code + g, n + (g + of_r));
    assert(line == code + (g + of_n)) by {
        joins(to_s + s, g, e);
        joins(to_s, s, g + e);
        joins(to_b + b, g, of_s);
        joins(to_b, b, g + of_s);
        joins(to_r + r, g, of_b);
        joins(to_r, r, g + of_b);
        joins(to_n + n, g, of_r);
        joins(to_n, n, g + of_r);
        joins(code, g, of_n);
    }
    shortcode_shows(hex, unique_len, g + of_n);
    space_shows(of_n);
    colored_shows(BOLD@, name, g + of_r);
    space_shows(of_r);
    colored_shows(CYAN@, repo, g + of_b);
    space_shows(of_b);
    colored_shows(MAGENTA@, branch, g + of_s);
    space_shows(of_s);
    colored_shows(status_color(status), status, g + e);
    space_shows(e);
    age_shows(ago);
    let end = "["@ + ago + "]"@;
    let bare_line = session_line(bare, name, repo, branch, status, ago, false);
    let (to_s, of_s) = (bare + g + name + g + repo + g + branch + g, status + (g + end));
    let (to_b, of_b) = (bare + g + name + g + repo + g, branch + (g + of_s));
    let (to_r, of_r) = (bare + g + name + g, repo + (g + of_b));
    let (to_n, of_n) = (bare + g, name + (g + of_r));
    assert(bare_line == bare + (g + of_n)) by {
        reveal_strlit(" ");
        reveal_strlit("[");
        reveal_strlit(" [");
        assert(" ["@ =~= g + "["@);
        joins(to_s + status, g + "["@, ago);
        joins(to_s + status, g + "["@ + ago, "]"@);
        assert(g + "["@ + ago + "]"@ =~= g + end);
        joins(to_s, status, g + end);
        joins(to_b + branch, g, of_s);
        joins(to_b, branch, g + of_s);
        joins(to_r + repo, g, of_b);
        joins(to_r, repo, g + of_b);
        joins(to_n + name, g, of_r);
        joins(to_n, name, g + of_r);
        joins(bare, g, of_n);
    }
}

} // verus!
