//! Text handling on sequences of characters.
//!
//! Strings are read through their view, a `Seq<char>`. The functions here are the
//! few string operations that the rest of the library needs, each with an exact
//! statement of its result.

use vstd::prelude::*;

verus! {

/// `String::push` appends one character.
pub assume_specification[ String::push ](s: &mut String, c: char)
    ensures
        final(s)@ == old(s)@.push(c),
;

/// `str`'s `eq` says whether two texts hold the same characters in the same order.
pub assume_specification[ <str as PartialEq<str>>::eq ](a: &str, b: &str) -> (r: bool)
    ensures
        r == (a@ == b@),
;

// ── Characters ──────────────────────────────────────────────────────────────

/// The characters with the Unicode property `White_Space`.
pub open spec fn white_space(c: char) -> bool {
    ||| '\u{9}' <= c <= '\u{d}'
    ||| c == '\u{20}'
    ||| c == '\u{85}'
    ||| c == '\u{a0}'
    ||| c == '\u{1680}'
    ||| '\u{2000}' <= c <= '\u{200a}'
    ||| c == '\u{2028}'
    ||| c == '\u{2029}'
    ||| c == '\u{202f}'
    ||| c == '\u{205f}'
    ||| c == '\u{3000}'
}

/// Whether `c` is white space.
pub fn is_white_space(c: char) -> (r: bool)
    ensures
        r == white_space(c),
{
    ('\u{9}' <= c && c <= '\u{d}') || c == '\u{20}' || c == '\u{85}' || c == '\u{a0}' || c
        == '\u{1680}' || ('\u{2000}' <= c && c <= '\u{200a}') || c == '\u{2028}' || c == '\u{2029}'
        || c == '\u{202f}' || c == '\u{205f}' || c == '\u{3000}'
}

/// The ASCII letters and digits.
pub open spec fn ascii_alphanumeric(c: char) -> bool {
    ||| 'a' <= c <= 'z'
    ||| 'A' <= c <= 'Z'
    ||| '0' <= c <= '9'
}

/// Whether `c` is an ASCII letter or digit.
pub fn is_ascii_alphanumeric(c: char) -> (r: bool)
    ensures
        r == ascii_alphanumeric(c),
{
    ('a' <= c && c <= 'z') || ('A' <= c && c <= 'Z') || ('0' <= c && c <= '9')
}

/// `c` with an ASCII capital turned into the small letter.
pub open spec fn ascii_lower(c: char) -> char {
    if 'A' <= c <= 'Z' {
        ((c as u8) + 32) as u8 as char
    } else {
        c
    }
}

/// Turn an ASCII capital into the small letter; leave every other character.
pub fn to_ascii_lower(c: char) -> (r: char)
    ensures
        r == ascii_lower(c),
{
    if 'A' <= c && c <= 'Z' {
        ((c as u8) + 32) as char
    } else {
        c
    }
}

/// What `char::is_alphanumeric` says: the characters with the Unicode property
/// `Alphabetic` and those of a numeric category.
pub uninterp spec fn alphanumeric(c: char) -> bool;

/// `char::is_alphanumeric` depends on the character alone; among the ASCII characters
/// it holds of the letters and digits.
pub assume_specification[ char::is_alphanumeric ](c: char) -> (r: bool)
    ensures
        r == alphanumeric(c),
        c <= '\u{7f}' ==> r == ascii_alphanumeric(c),
;

/// What `str::to_lowercase` makes of a text.
pub uninterp spec fn lowercase(s: Seq<char>) -> Seq<char>;

/// `str::to_lowercase` depends on the text alone; of ASCII text it changes the capitals.
pub assume_specification[ str::to_lowercase ](s: &str) -> (r: String)
    ensures
        r@ == lowercase(s@),
        ascii(s@) ==> r@ == lower(s@),
;

// ── Conversion ──────────────────────────────────────────────────────────────

/// The characters of `s`.
pub fn to_chars(s: &str) -> (r: Vec<char>)
    ensures
        r@ == s@,
{
    let mut v: Vec<char> = Vec::new();
    for c in it: s.chars()
        invariant
            v@ == it.seq().take(it.index() as int),
    {
        v.push(c);
    }
    v
}

/// The text made of the characters of `v` from `from` up to, but without, `to`.
pub fn collect(v: &Vec<char>, from: usize, to: usize) -> (r: String)
    requires
        from <= to <= v@.len(),
    ensures
        r@ == v@.subrange(from as int, to as int),
{
    let mut s = String::new();
    let mut i: usize = from;
    while i < to
        invariant
            from <= i <= to <= v@.len(),
            s@ == v@.subrange(from as int, i as int),
        decreases to - i,
    {
        s.push(v[i]);
        i = i + 1;
    }
    s
}

/// Whether two texts are equal.
pub fn same(a: &str, b: &str) -> (r: bool)
    ensures
        r == (a@ == b@),
{
    a.eq(b)
}

/// Whether an optional text is present and equal to `b`.
pub fn is_text(a: &Option<String>, b: &str) -> (r: bool)
    ensures
        r == (a matches Some(t) && t@ == b@),
{
    match a {
        Some(t) => same(t, b),
        None => false,
    }
}

/// The text of an optional string.
pub open spec fn opt_text(a: Option<String>) -> Option<Seq<char>> {
    match a {
        Some(t) => Some(t@),
        None => None,
    }
}

/// Whether two optional texts are both absent or both present and equal.
pub fn same_opt(a: &Option<String>, b: &Option<String>) -> (r: bool)
    ensures
        r == (opt_text(*a) == opt_text(*b)),
{
    match (a, b) {
        (Some(x), Some(y)) => same(x, y),
        (None, None) => true,
        _ => false,
    }
}

/// The texts of a list of strings.
pub open spec fn texts(v: Seq<String>) -> Seq<Seq<char>> {
    v.map_values(|s: String| s@)
}

// ── Case ────────────────────────────────────────────────────────────────────

/// `s` with every ASCII capital turned into the small letter.
pub open spec fn lower(s: Seq<char>) -> Seq<char> {
    s.map_values(|c: char| ascii_lower(c))
}

/// Turn every ASCII capital of `s` into the small letter.
pub fn to_lower(s: &str) -> (r: String)
    ensures
        r@ == lower(s@),
{
    let v = to_chars(s);
    let mut out = String::new();
    let mut i: usize = 0;
    while i < v.len()
        invariant
            i <= v@.len(),
            v@ == s@,
            out@ == lower(s@).take(i as int),
        decreases v@.len() - i,
    {
        out.push(to_ascii_lower(v[i]));
        i = i + 1;
    }
    out
}

/// Whether `a` and `b` are equal up to the case of ASCII letters.
pub fn same_ignoring_case(a: &str, b: &str) -> (r: bool)
    ensures
        r == (lower(a@) == lower(b@)),
{
    let x = to_lower(a);
    let y = to_lower(b);
    same(&x, &y)
}

// ── Searching ───────────────────────────────────────────────────────────────

/// `p` stands in `s` at position `i`.
pub open spec fn occurs_at(s: Seq<char>, p: Seq<char>, i: int) -> bool {
    &&& 0 <= i
    &&& i + p.len() <= s.len()
    &&& s.subrange(i, i + p.len()) == p
}

/// `p` stands somewhere in `s`.
pub open spec fn holds_text(s: Seq<char>, p: Seq<char>) -> bool {
    exists|i: int| occurs_at(s, p, i)
}

/// `s` begins with `p`.
pub open spec fn has_prefix(s: Seq<char>, p: Seq<char>) -> bool {
    occurs_at(s, p, 0)
}

/// Whether `p` stands in `s` at position `i`.
pub fn matches_at(s: &Vec<char>, p: &Vec<char>, i: usize) -> (r: bool)
    ensures
        r == occurs_at(s@, p@, i as int),
{
    if i > s.len() || p.len() > s.len() - i {
        return false;
    }
    let n = s.len();
    let mut k: usize = 0;
    while k < p.len()
        invariant
            k <= p@.len(),
            i + p@.len() <= n == s@.len(),
            forall|j: int| 0 <= j < k ==> s@[i + j] == p@[j],
        decreases p@.len() - k,
    {
        if s[i + k] != p[k] {
            assert(s@.subrange(i as int, i + p@.len())[k as int] != p@[k as int]);
            return false;
        }
        k = k + 1;
    }
    assert(s@.subrange(i as int, i + p@.len()) =~= p@);
    true
}

/// Whether `p` stands somewhere in `s`.
pub fn contains(s: &str, p: &str) -> (r: bool)
    ensures
        r == holds_text(s@, p@),
{
    let sv = to_chars(s);
    let pv = to_chars(p);
    let mut i: usize = 0;
    while i <= sv.len() && pv.len() <= sv.len() - i
        invariant
            i <= sv@.len() + 1,
            sv@ == s@,
            pv@ == p@,
            forall|j: int| 0 <= j < i ==> !occurs_at(s@, p@, j),
        decreases sv@.len() + 1 - i,
    {
        if matches_at(&sv, &pv, i) {
            return true;
        }
        if i == sv.len() {
            assert(forall|j: int| occurs_at(s@, p@, j) ==> j <= i);
            return false;
        }
        i = i + 1;
    }
    assert forall|j: int| !occurs_at(s@, p@, j) by {
        if j >= i {
            assert(j + p@.len() > s@.len());
        }
    }
    false
}

/// Whether `s` begins with `p`.
pub fn starts_with(s: &str, p: &str) -> (r: bool)
    ensures
        r == has_prefix(s@, p@),
{
    let sv = to_chars(s);
    let pv = to_chars(p);
    matches_at(&sv, &pv, 0)
}

// ── Trimming ────────────────────────────────────────────────────────────────

/// `s` without the white space at its start.
pub open spec fn trimmed_start(s: Seq<char>) -> Seq<char>
    decreases s.len(),
{
    if s.len() > 0 && white_space(s.first()) {
        trimmed_start(s.drop_first())
    } else {
        s
    }
}

/// `s` without the white space at its end.
pub open spec fn trimmed_end(s: Seq<char>) -> Seq<char>
    decreases s.len(),
{
    if s.len() > 0 && white_space(s.last()) {
        trimmed_end(s.drop_last())
    } else {
        s
    }
}

/// `s` without the white space at either end.
pub open spec fn trimmed(s: Seq<char>) -> Seq<char> {
    trimmed_end(trimmed_start(s))
}

/// The number of leading white space characters.
fn leading_white_space(v: &Vec<char>) -> (n: usize)
    ensures
        n <= v@.len(),
        trimmed_start(v@) == v@.skip(n as int),
        n < v@.len() ==> !white_space(v@[n as int]),
{
    let mut i: usize = 0;
    assert(v@.skip(0) =~= v@);
    while i < v.len() && is_white_space(v[i])
        invariant
            i <= v@.len(),
            trimmed_start(v@) == trimmed_start(v@.skip(i as int)),
        decreases v@.len() - i,
    {
        assert(v@.skip(i as int).drop_first() =~= v@.skip(i + 1));
        i = i + 1;
    }
    i
}

/// `s` without the white space at either end.
pub fn trim(s: &str) -> (r: String)
    ensures
        r@ == trimmed(s@),
{
    let v = to_chars(s);
    let from = leading_white_space(&v);
    let mut to: usize = v.len();
    assert(v@.subrange(from as int, to as int) =~= v@.skip(from as int));
    while from < to && is_white_space(v[to - 1])
        invariant
            from <= to <= v@.len(),
            trimmed_end(v@.skip(from as int)) == trimmed_end(
                v@.subrange(from as int, to as int),
            ),
        decreases to,
    {
        assert(v@.subrange(from as int, to as int).drop_last() =~= v@.subrange(
            from as int,
            to - 1,
        ));
        to = to - 1;
    }
    collect(&v, from, to)
}

// ── Joining ─────────────────────────────────────────────────────────────────

/// Two texts in a row.
pub fn cat2(a: &str, b: &str) -> (r: String)
    ensures
        r@ == a@ + b@,
{
    let mut s = a.to_string();
    s.append(b);
    s
}

/// Three texts in a row.
pub fn cat3(a: &str, b: &str, c: &str) -> (r: String)
    ensures
        r@ == a@ + b@ + c@,
{
    let mut s = cat2(a, b);
    s.append(c);
    s
}

/// Four texts in a row.
pub fn cat4(a: &str, b: &str, c: &str, d: &str) -> (r: String)
    ensures
        r@ == a@ + b@ + c@ + d@,
{
    let mut s = cat3(a, b, c);
    s.append(d);
    s
}

/// Five texts in a row.
pub fn cat5(a: &str, b: &str, c: &str, d: &str, e: &str) -> (r: String)
    ensures
        r@ == a@ + b@ + c@ + d@ + e@,
{
    let mut s = cat4(a, b, c, d);
    s.append(e);
    s
}

/// `parts` in a row with `gap` between neighbours.
pub open spec fn joined(parts: Seq<Seq<char>>, gap: Seq<char>) -> Seq<char>
    decreases parts.len(),
{
    if parts.len() == 0 {
        Seq::empty()
    } else if parts.len() == 1 {
        parts[0]
    } else {
        joined(parts.drop_last(), gap) + gap + parts.last()
    }
}

/// `parts` in a row with `gap` between neighbours.
pub fn join(parts: &Vec<String>, gap: &str) -> (r: String)
    ensures
        r@ == joined(texts(parts@), gap@),
{
    let mut s = String::new();
    let mut i: usize = 0;
    while i < parts.len()
        invariant
            i <= parts@.len(),
            s@ == joined(texts(parts@).take(i as int), gap@),
        decreases parts@.len() - i,
    {
        assert(texts(parts@).take(i + 1).drop_last() =~= texts(parts@).take(i as int));
        if i > 0 {
            s.append(gap);
        }
        s.append(&parts[i]);
        assert(s@ =~= joined(texts(parts@).take(i + 1), gap@));
        i = i + 1;
    }
    assert(texts(parts@).take(i as int) =~= texts(parts@));
    s
}

// ── Lines and words ─────────────────────────────────────────────────────────

/// The number of characters of `s` before its first line feed, or all of them.
pub open spec fn line_len(s: Seq<char>) -> nat
    decreases s.len(),
{
    if s.len() == 0 || s.first() == '\n' {
        0
    } else {
        1 + line_len(s.drop_first())
    }
}

/// `s` without one carriage return at its end.
pub open spec fn without_return(s: Seq<char>) -> Seq<char> {
    if s.len() > 0 && s.last() == '\r' {
        s.drop_last()
    } else {
        s
    }
}

/// The lines of `s`. A line ends with a line feed or with a carriage return and a
/// line feed; the ending of the last line is optional.
pub open spec fn text_lines(s: Seq<char>) -> Seq<Seq<char>>
    decreases s.len(),
{
    if s.len() == 0 {
        Seq::empty()
    } else if line_len(s) >= s.len() {
        seq![s]
    } else {
        seq![without_return(s.take(line_len(s) as int))] + text_lines(s.skip(line_len(s) as int + 1))
    }
}

/// The first line feed after position `i` fixes `line_len`.
proof fn line_len_is(s: Seq<char>, i: int, j: int)
    requires
        0 <= i <= j <= s.len(),
        forall|k: int| i <= k < j ==> s[k] != '\n',
        j < s.len() ==> s[j] == '\n',
    ensures
        line_len(s.skip(i)) == j - i,
    decreases j - i,
{
    if i < j {
        assert(s.skip(i).drop_first() =~= s.skip(i + 1));
        line_len_is(s, i + 1, j);
    }
}

/// The lines of `s`.
pub fn lines(s: &str) -> (r: Vec<String>)
    ensures
        texts(r@) == text_lines(s@),
{
    let v = to_chars(s);
    let n = v.len();
    let mut out: Vec<String> = Vec::new();
    let mut i: usize = 0;
    assert(s@.skip(0) =~= s@);
    while i < n
        invariant
            v@ == s@,
            i <= n == v@.len(),
            texts(out@) + text_lines(s@.skip(i as int)) == text_lines(s@),
        decreases n - i,
    {
        let mut j: usize = i;
        while j < n && v[j] != '\n'
            invariant
                v@ == s@,
                i <= j <= n == v@.len(),
                forall|k: int| i <= k < j ==> s@[k] != '\n',
            decreases n - j,
        {
            j = j + 1;
        }
        proof {
            line_len_is(s@, i as int, j as int);
        }
        let ghost rest = s@.skip(i as int);
        let ghost before = texts(out@);
        if j == n {
            out.push(collect(&v, i, n));
            assert(s@.subrange(i as int, n as int) =~= rest);
            assert(texts(out@) =~= before.push(rest));
            assert(text_lines(s@.skip(n as int)) =~= Seq::<Seq<char>>::empty());
            i = n;
        } else {
            let end = if i < j && v[j - 1] == '\r' {
                j - 1
            } else {
                j
            };
            out.push(collect(&v, i, end));
            proof {
                let line = without_return(rest.take(j - i));
                assert(rest.take(j - i) =~= s@.subrange(i as int, j as int));
                assert(s@.subrange(i as int, end as int) =~= line);
                assert(rest.skip(j - i + 1) =~= s@.skip(j + 1));
                assert(texts(out@) =~= before.push(line));
                assert(before.push(line) + text_lines(s@.skip(j + 1)) =~= before + (seq![line]
                    + text_lines(s@.skip(j + 1))));
            }
            i = j + 1;
        }
    }
    assert(text_lines(s@.skip(i as int)) =~= Seq::<Seq<char>>::empty());
    out
}

/// The characters of `s` before its first white space.
pub open spec fn word(s: Seq<char>) -> Seq<char>
    decreases s.len(),
{
    if s.len() == 0 || white_space(s.first()) {
        Seq::empty()
    } else {
        seq![s.first()] + word(s.drop_first())
    }
}

/// The first word of `s`: what stands between leading white space and the next.
/// Empty where `s` has no word.
pub open spec fn first_word_of(s: Seq<char>) -> Seq<char> {
    word(trimmed_start(s))
}

proof fn word_is(s: Seq<char>, i: int, j: int)
    requires
        0 <= i <= j <= s.len(),
        forall|k: int| i <= k < j ==> !white_space(s[k]),
        j < s.len() ==> white_space(s[j]),
    ensures
        word(s.skip(i)) == s.subrange(i, j),
    decreases j - i,
{
    if i < j {
        assert(s.skip(i).drop_first() =~= s.skip(i + 1));
        word_is(s, i + 1, j);
        assert(s.subrange(i, j) =~= seq![s[i]] + s.subrange(i + 1, j));
    } else {
        assert(s.subrange(i, j) =~= Seq::<char>::empty());
    }
}

/// The first word of `s`, empty where there is none.
pub fn first_word(s: &str) -> (r: String)
    ensures
        r@ == first_word_of(s@),
{
    let v = to_chars(s);
    let n = v.len();
    let from = leading_white_space(&v);
    let mut to: usize = from;
    while to < n && !is_white_space(v[to])
        invariant
            v@ == s@,
            from <= to <= n == v@.len(),
            forall|k: int| from <= k < to ==> !white_space(s@[k]),
        decreases n - to,
    {
        to = to + 1;
    }
    proof {
        word_is(s@, from as int, to as int);
    }
    collect(&v, from, to)
}

// ── Numbers ─────────────────────────────────────────────────────────────────

/// The decimal digit of a number below ten.
pub open spec fn digit(n: nat) -> char {
    ('0' as nat + n) as u8 as char
}

/// `n` written in decimal, without leading zeros.
pub open spec fn decimal(n: nat) -> Seq<char>
    decreases n,
{
    if n < 10 {
        seq![digit(n)]
    } else {
        decimal(n / 10).push(digit(n % 10))
    }
}

/// The decimal text of `n`.
pub fn to_decimal(n: u64) -> (r: String)
    ensures
        r@ == decimal(n as nat),
    decreases n,
{
    if n < 10 {
        let mut s = String::new();
        s.push((48 + n as u8) as char);
        assert(s@ =~= seq![digit(n as nat)]);
        s
    } else {
        let mut s = to_decimal(n / 10);
        s.push((48 + (n % 10) as u8) as char);
        s
    }
}

/// Different numbers have different decimal texts.
pub proof fn decimal_is_injective(a: nat, b: nat)
    ensures
        decimal(a) == decimal(b) ==> a == b,
    decreases a,
{
    if decimal(a) == decimal(b) {
        decimal_is_digits(a);
        decimal_is_digits(b);
        if a < 10 && b < 10 {
            assert(decimal(a)[0] == decimal(b)[0]);
        } else if a >= 10 && b >= 10 {
            assert(decimal(a).drop_last() =~= decimal(a / 10));
            assert(decimal(b).drop_last() =~= decimal(b / 10));
            decimal_is_injective(a / 10, b / 10);
            assert(decimal(a).last() == decimal(b).last());
        } else if a >= 10 {
            decimal_is_digits(a / 10);
            assert(decimal(a).len() > 1);
        } else {
            decimal_is_digits(b / 10);
            assert(decimal(b).len() > 1);
        }
    }
}

/// A decimal text is not empty and is made of digits.
pub proof fn decimal_is_digits(n: nat)
    ensures
        decimal(n).len() > 0,
        forall|i: int| 0 <= i < decimal(n).len() ==> '0' <= #[trigger] decimal(n)[i] <= '9',
    decreases n,
{
    if n >= 10 {
        decimal_is_digits(n / 10);
    }
}

// ── Byte lengths ────────────────────────────────────────────────────────────

/// The number of bytes of `c` in UTF-8.
pub open spec fn byte_len(c: char) -> nat {
    if c <= '\u{7f}' {
        1
    } else if c <= '\u{7ff}' {
        2
    } else if c <= '\u{ffff}' {
        3
    } else {
        4
    }
}

/// The longest prefix of `s` that takes at most `n` bytes in UTF-8.
pub open spec fn byte_prefix(s: Seq<char>, n: nat) -> Seq<char>
    decreases s.len(),
{
    if s.len() == 0 || byte_len(s.first()) > n {
        Seq::empty()
    } else {
        seq![s.first()] + byte_prefix(s.drop_first(), (n - byte_len(s.first())) as nat)
    }
}

/// All characters of `s` are ASCII.
pub open spec fn ascii(s: Seq<char>) -> bool {
    forall|i: int| 0 <= i < s.len() ==> #[trigger] s[i] < '\u{80}'
}

/// On ASCII text a byte prefix is a prefix of as many characters.
pub proof fn byte_prefix_of_ascii(s: Seq<char>, n: nat)
    requires
        ascii(s),
    ensures
        byte_prefix(s, n) == s.take(if n <= s.len() { n as int } else { s.len() as int }),
    decreases s.len(),
{
    if s.len() > 0 && n > 0 {
        assert(ascii(s.drop_first())) by {
            assert forall|i: int| 0 <= i < s.drop_first().len() implies #[trigger] s.drop_first()[i]
                < '\u{80}' by {
                assert(s[i + 1] < '\u{80}');
            }
        }
        assert(s[0] < '\u{80}');
        byte_prefix_of_ascii(s.drop_first(), (n - 1) as nat);
        let k = if n <= s.len() {
            n as int
        } else {
            s.len() as int
        };
        assert(s.take(k) =~= seq![s.first()] + s.drop_first().take(k - 1));
    } else {
        assert(byte_prefix(s, n) =~= s.take(0));
    }
}

/// A byte prefix is a prefix, and grows with the number of bytes.
pub proof fn byte_prefix_grows(s: Seq<char>, m: nat, n: nat)
    requires
        m <= n,
    ensures
        byte_prefix(s, m).len() <= byte_prefix(s, n).len() <= s.len(),
        byte_prefix(s, n) == s.take(byte_prefix(s, n).len() as int),
    decreases s.len(),
{
    if s.len() > 0 && byte_len(s.first()) <= n {
        let w = byte_len(s.first());
        if w <= m {
            byte_prefix_grows(s.drop_first(), (m - w) as nat, (n - w) as nat);
        } else {
            byte_prefix_grows(s.drop_first(), 0, (n - w) as nat);
        }
        let k = byte_prefix(s, n).len() as int;
        assert(s.take(k) =~= seq![s.first()] + s.drop_first().take(k - 1));
    } else {
        assert(byte_prefix(s, n) =~= s.take(0));
    }
}

/// The number of bytes of `c` in UTF-8.
fn utf8_width(c: char) -> (r: usize)
    ensures
        r == byte_len(c),
{
    if c <= '\u{7f}' {
        1
    } else if c <= '\u{7ff}' {
        2
    } else if c <= '\u{ffff}' {
        3
    } else {
        4
    }
}

/// The number of characters in the longest prefix of `v` that takes at most `n` bytes.
pub fn byte_prefix_len(v: &Vec<char>, n: usize) -> (r: usize)
    ensures
        r <= v@.len(),
        byte_prefix(v@, n as nat) == v@.take(r as int),
        r == byte_prefix(v@, n as nat).len(),
{
    let mut i: usize = 0;
    let mut left: usize = n;
    assert(v@.skip(0) =~= v@);
    assert(v@.take(0) + byte_prefix(v@, n as nat) =~= byte_prefix(v@, n as nat));
    while i < v.len() && utf8_width(v[i]) <= left
        invariant
            i <= v@.len(),
            v@.take(i as int) + byte_prefix(v@.skip(i as int), left as nat) == byte_prefix(
                v@,
                n as nat,
            ),
        decreases v@.len() - i,
    {
        let w = utf8_width(v[i]);
        proof {
            let rest = v@.skip(i as int);
            assert(rest.drop_first() =~= v@.skip(i + 1));
            assert(v@.take(i + 1) =~= v@.take(i as int).push(v@[i as int]));
            assert(v@.take(i as int) + (seq![rest.first()] + byte_prefix(
                v@.skip(i + 1),
                (left - w) as nat,
            )) =~= v@.take(i + 1) + byte_prefix(v@.skip(i + 1), (left - w) as nat));
        }
        left = left - w;
        i = i + 1;
    }
    assert(v@.take(i as int) + byte_prefix(v@.skip(i as int), left as nat) =~= v@.take(i as int));
    i
}

} // verus!
