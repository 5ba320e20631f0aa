//! Laws of identifiers in file names, and of paths.

use vstd::prelude::*;

use crate::codespace::{codespace_name, config_text, launcher_text};
use crate::display::{hex_text, short_text, SHORTCODE_DISPLAY_LEN};
use crate::git::{
    components, file_name, join_text, lies_under, names_something, origin, pieces, repo_label,
    worktree_text,
};
use crate::ids::{hex_digit, hyphenated, unhyphenated, well_formed_uuid};
use crate::text::{ascii, ascii_alphanumeric, ascii_lower, byte_prefix_of_ascii, lower};
use crate::zellij::{file_keys, last_dot, orphan};

verus! {

// ── Identifiers ─────────────────────────────────────────────────────────────

/// The characters that a UUID may hold.
pub open spec fn uuid_character(c: char) -> bool {
    ascii_alphanumeric(c) || c == '-' || c == '{' || c == '}' || c == ':'
}

/// A text that is accepted as a UUID holds letters, digits, hyphens, braces and colons alone:
/// no quote, no slash, no dot, no white space and nothing that a shell would act on between
/// double quotes. So it can be part of a file name, of a layout and of a script's argument.
pub proof fn uuids_are_harmless(s: Seq<char>)
    requires
        well_formed_uuid(s),
    ensures
        forall|i: int| 0 <= i < s.len() ==> uuid_character(#[trigger] s[i]),
{
    if hyphenated(s) || unhyphenated(s) {
    } else if s.len() == 38 {
        let inner = s.subrange(1, 37);
        assert forall|i: int| 0 <= i < s.len() implies uuid_character(#[trigger] s[i]) by {
            if 1 <= i < 37 {
                assert(inner[i - 1] == s[i]);
            }
        }
    } else {
        let head = s.take(9);
        let inner = s.skip(9);
        reveal_strlit("urn:uuid:");
        assert forall|i: int| 0 <= i < s.len() implies uuid_character(#[trigger] s[i]) by {
            if i < 9 {
                assert(head[i] == s[i]);
                assert(lower(head)[i] == ascii_lower(s[i]));
                assert("urn:uuid:"@[i] == 'u' || "urn:uuid:"@[i] == 'r' || "urn:uuid:"@[i] == 'n'
                    || "urn:uuid:"@[i] == 'i' || "urn:uuid:"@[i] == 'd' || "urn:uuid:"@[i] == ':');
            } else {
                assert(inner[i - 9] == s[i]);
            }
        }
    }
}

/// A text without hyphens is left as it is.
pub proof fn filter_keeps(s: Seq<char>)
    requires
        forall|i: int| 0 <= i < s.len() ==> #[trigger] s[i] != '-',
    ensures
        hex_text(s) == s,
    decreases s.len(),
{
    reveal(Seq::filter);
    if s.len() > 0 {
        filter_keeps(s.drop_last());
        assert(s[s.len() - 1] != '-');
        assert(s.drop_last().push(s.last()) =~= s);
    } else {
        assert(hex_text(s) =~= s);
    }
}

proof fn filter_splits(a: Seq<char>, b: Seq<char>)
    ensures
        hex_text(a + seq!['-'] + b) == hex_text(a) + hex_text(b),
{
    let keep = |c: char| c != '-';
    Seq::filter_distributes_over_add(a + seq!['-'], b, keep);
    Seq::filter_distributes_over_add(a, seq!['-'], keep);
    assert(seq!['-'].filter(keep) =~= Seq::empty()) by {
        reveal_with_fuel(Seq::filter, 2);
        assert(seq!['-'].drop_last() =~= Seq::empty());
    }
    assert(hex_text(a) + Seq::empty() =~= hex_text(a));
}

/// A session with a hyphenated UUID is called by the first eight characters of the UUID, and
/// its identifier has 32 ASCII characters.
pub proof fn shortcode_begins_the_uuid(s: Seq<char>)
    requires
        hyphenated(s),
    ensures
        short_text(s) == s.take(8),
        hex_text(s).len() == 32,
        ascii(hex_text(s)),
{
    let a = s.subrange(0, 8);
    let b = s.subrange(9, 13);
    let c = s.subrange(14, 18);
    let d = s.subrange(19, 23);
    let e = s.subrange(24, 36);
    assert forall|i: int| 0 <= i < 8 implies hex_digit(#[trigger] a[i]) by {
        assert(hex_digit(s[i]));
    }
    assert forall|i: int| 0 <= i < 4 implies hex_digit(#[trigger] b[i]) by {
        assert(hex_digit(s[i + 9]));
    }
    assert forall|i: int| 0 <= i < 4 implies hex_digit(#[trigger] c[i]) by {
        assert(hex_digit(s[i + 14]));
    }
    assert forall|i: int| 0 <= i < 4 implies hex_digit(#[trigger] d[i]) by {
        assert(hex_digit(s[i + 19]));
    }
    assert forall|i: int| 0 <= i < 12 implies hex_digit(#[trigger] e[i]) by {
        assert(hex_digit(s[i + 24]));
    }
    let dash = seq!['-'];
    let tail_d = d + dash + e;
    let tail_c = c + dash + tail_d;
    let tail_b = b + dash + tail_c;
    assert(s[8] == '-' && s[13] == '-' && s[18] == '-' && s[23] == '-');
    assert(s =~= a + dash + tail_b);
    filter_splits(a, tail_b);
    filter_splits(b, tail_c);
    filter_splits(c, tail_d);
    filter_splits(d, e);
    filter_keeps(a);
    filter_keeps(b);
    filter_keeps(c);
    filter_keeps(d);
    filter_keeps(e);
    let h = hex_text(s);
    assert(h =~= a + (b + (c + (d + e))));
    assert forall|i: int| 0 <= i < h.len() implies #[trigger] h[i] < '\u{80}' by {
        assert(hex_digit(h[i])) by {
            if i < 8 {
                assert(h[i] == a[i]);
            } else if i < 12 {
                assert(h[i] == b[i - 8]);
            } else if i < 16 {
                assert(h[i] == c[i - 12]);
            } else if i < 20 {
                assert(h[i] == d[i - 16]);
            } else {
                assert(h[i] == e[i - 20]);
            }
        }
    }
    byte_prefix_of_ascii(h, SHORTCODE_DISPLAY_LEN as nat);
    assert(h.take(8) =~= s.take(8));
}

// ── Session files ───────────────────────────────────────────────────────────

proof fn no_dot(s: Seq<char>)
    requires
        forall|i: int| 0 <= i < s.len() ==> #[trigger] s[i] != '.',
    ensures
        last_dot(s) == -1,
    decreases s.len(),
{
    if s.len() > 0 {
        assert(s[s.len() - 1] != '.');
        no_dot(s.drop_last());
    }
}

proof fn stem_before_extension(s: Seq<char>, ext: Seq<char>)
    requires
        s.len() > 0,
        forall|i: int| 0 <= i < ext.len() ==> #[trigger] ext[i] != '.',
    ensures
        last_dot(s + seq!['.'] + ext) == s.len(),
    decreases ext.len(),
{
    let all = s + seq!['.'] + ext;
    if ext.len() > 0 {
        assert(ext[ext.len() - 1] != '.');
        stem_before_extension(s, ext.drop_last());
        assert(all.drop_last() =~= s + seq!['.'] + ext.drop_last());
    }
}

proof fn layout_file_is_kept(stem: Seq<char>, keep: Set<Seq<char>>)
    requires
        stem.len() > 0,
        keep.contains(stem),
    ensures
        !orphan(stem + ".kdl"@, Some("kdl"@), keep),
{
    reveal_strlit(".kdl");
    reveal_strlit("kdl");
    let name = stem + ".kdl"@;
    assert(name =~= stem + seq!['.'] + "kdl"@);
    stem_before_extension(stem, "kdl"@);
    assert(name.take(stem.len() as int) =~= stem);
}

/// The files of a known session are never taken for orphans: neither its layout and its
/// marker, named after its UUID, nor a layout named after its shortcode.
pub proof fn files_of_known_sessions_are_kept(known: Seq<Seq<char>>, i: int)
    requires
        0 <= i < known.len(),
        well_formed_uuid(known[i]),
    ensures
        !orphan(known[i] + ".kdl"@, Some("kdl"@), file_keys(known)),
        !orphan(known[i], None, file_keys(known)),
        short_text(known[i]).len() > 0 ==> !orphan(
            short_text(known[i]) + ".kdl"@,
            Some("kdl"@),
            file_keys(known),
        ),
{
    let uuid = known[i];
    let keep = file_keys(known);
    assert(keep.contains(uuid));
    assert(keep.contains(short_text(uuid)));
    uuids_are_harmless(uuid);
    assert forall|j: int| 0 <= j < uuid.len() implies #[trigger] uuid[j] != '.' by {
        assert(uuid_character(uuid[j]));
    }
    no_dot(uuid);
    layout_file_is_kept(uuid, keep);
    if short_text(uuid).len() > 0 {
        layout_file_is_kept(short_text(uuid), keep);
    }
}

/// A layout that is named after no known session is an orphan.
pub proof fn unknown_layouts_are_orphans(known: Seq<Seq<char>>, stem: Seq<char>)
    requires
        stem.len() > 0,
        forall|i: int|
            0 <= i < known.len() ==> stem != #[trigger] known[i] && stem != short_text(known[i]),
    ensures
        orphan(stem + ".kdl"@, Some("kdl"@), file_keys(known)),
{
    reveal_strlit(".kdl");
    reveal_strlit("kdl");
    let name = stem + ".kdl"@;
    assert(name =~= stem + seq!['.'] + "kdl"@);
    stem_before_extension(stem, "kdl"@);
    assert(name.take(stem.len() as int) =~= stem);
    assert(name.skip(stem.len() as int + 1) =~= "kdl"@);
}

// ── Remote paths ────────────────────────────────────────────────────────────

/// The characters of the paths that are used in a Codespace.
pub open spec fn path_character(c: char) -> bool {
    ascii_alphanumeric(c) || c == '-' || c == '/' || c == '.'
}

/// Different Codespaces have different launchers and different configurations, and no
/// launcher is a configuration.
pub proof fn remote_paths_are_codespace_specific(a: Seq<char>, b: Seq<char>)
    ensures
        launcher_text(a) == launcher_text(b) ==> a == b,
        config_text(a) == config_text(b) ==> a == b,
        launcher_text(a) != config_text(b),
{
    reveal_strlit("/tmp/csm-");
    reveal_strlit("-launch-codespace.sh");
    reveal_strlit("-config.kdl");
    let head = "/tmp/csm-"@.len() as int;
    let (la, lb) = (launcher_text(a), launcher_text(b));
    assert(la.len() == head + a.len() + "-launch-codespace.sh"@.len());
    assert(lb.len() == head + b.len() + "-launch-codespace.sh"@.len());
    if la == lb {
        assert(a.len() == b.len());
        assert(la.subrange(head, head + a.len()) =~= a);
        assert(lb.subrange(head, head + b.len()) =~= b);
    }
    let (ca, cb) = (config_text(a), config_text(b));
    assert(ca.len() == head + a.len() + "-config.kdl"@.len());
    assert(cb.len() == head + b.len() + "-config.kdl"@.len());
    if ca == cb {
        assert(a.len() == b.len());
        assert(ca.subrange(head, head + a.len()) =~= a);
        assert(cb.subrange(head, head + b.len()) =~= b);
    }
    assert(la[la.len() - 1] == 'h');
    assert(cb[cb.len() - 1] == 'l');
}

/// The paths of an accepted Codespace name hold letters, digits, hyphens, slashes and dots
/// alone, so that no shell takes them apart.
pub proof fn remote_paths_are_harmless(name: Seq<char>)
    requires
        codespace_name(name),
    ensures
        forall|i: int|
            0 <= i < launcher_text(name).len() ==> path_character(
                #[trigger] launcher_text(name)[i],
            ),
        forall|i: int|
            0 <= i < config_text(name).len() ==> path_character(#[trigger] config_text(name)[i]),
{
    reveal_strlit("/tmp/csm-");
    reveal_strlit("-launch-codespace.sh");
    reveal_strlit("-config.kdl");
    let head = "/tmp/csm-"@;
    let l = launcher_text(name);
    let c = config_text(name);
    assert forall|i: int| 0 <= i < l.len() implies path_character(#[trigger] l[i]) by {
        if i < head.len() {
            assert(l[i] == head[i]);
        } else if i < head.len() + name.len() {
            assert(l[i] == name[i - head.len()]);
        } else {
            assert(l[i] == "-launch-codespace.sh"@[i - head.len() - name.len()]);
        }
    }
    assert forall|i: int| 0 <= i < c.len() implies path_character(#[trigger] c[i]) by {
        if i < head.len() {
            assert(c[i] == head[i]);
        } else if i < head.len() + name.len() {
            assert(c[i] == name[i - head.len()]);
        } else {
            assert(c[i] == "-config.kdl"@[i - head.len() - name.len()]);
        }
    }
}

// ── Worktrees ───────────────────────────────────────────────────────────────

proof fn pieces_are_many(s: Seq<char>)
    ensures
        pieces(s).len() > 0,
        forall|i: int, j: int|
            0 <= i < pieces(s).len() && 0 <= j < pieces(s)[i].len() ==> #[trigger] pieces(s)[i][j]
                != '/',
    decreases s.len(),
{
    if s.len() > 0 {
        pieces_are_many(s.drop_last());
        let before = pieces(s.drop_last());
        let all = pieces(s);
        assert forall|i: int, j: int|
            0 <= i < all.len() && 0 <= j < all[i].len() implies #[trigger] all[i][j] != '/' by {
            if i < before.len() - 1 {
                assert(all[i] == before[i]);
                assert(before[i][j] != '/');
            } else if s.last() == '/' {
                if i == before.len() - 1 {
                    assert(all[i] == before[i]);
                    assert(before[i][j] != '/');
                }
            } else {
                let last = before[before.len() - 1];
                assert(all[i] == last.push(s.last()));
                if j < last.len() {
                    assert(last[j] != '/');
                }
            }
        }
    }
}

proof fn pieces_split(a: Seq<char>, b: Seq<char>)
    ensures
        pieces(a + seq!['/'] + b) == pieces(a) + pieces(b),
    decreases b.len(),
{
    let all = a + seq!['/'] + b;
    pieces_are_many(a);
    pieces_are_many(b);
    if b.len() == 0 {
        assert(all.drop_last() =~= a);
        assert(all.last() == '/');
        assert(pieces(b) =~= seq![Seq::empty()]);
        assert(pieces(all) =~= pieces(a) + pieces(b));
    } else {
        let c = b.drop_last();
        pieces_split(a, c);
        pieces_are_many(c);
        assert(all.drop_last() =~= a + seq!['/'] + c);
        assert(all.last() == b.last());
        let before = pieces(a) + pieces(c);
        if b.last() == '/' {
            assert(before.push(Seq::empty()) =~= pieces(a) + pieces(c).push(Seq::empty()));
        } else {
            assert(before.last() == pieces(c).last());
            assert(before.drop_last().push(before.last().push(b.last())) =~= pieces(a) + pieces(
                c,
            ).drop_last().push(pieces(c).last().push(b.last())));
        }
    }
}

proof fn appended_path_lies_under(base: Seq<char>, part: Seq<char>)
    requires
        part.len() > 0,
        part[0] != '/',
    ensures
        lies_under(join_text(base, part), base),
        join_text(base, part).len() > 0,
{
    reveal_strlit("/");
    let keep = |p: Seq<char>| names_something(p);
    let all = join_text(base, part);
    if base.len() == 0 {
        reveal_with_fuel(Seq::filter, 2);
        assert(pieces(base) =~= seq![Seq::empty()]);
        assert(pieces(base).drop_last() =~= Seq::empty());
        assert(components(base) =~= Seq::empty());
        assert(components(all).take(0) =~= Seq::empty());
    } else {
        let front = if base.last() == '/' {
            base.drop_last()
        } else {
            base
        };
        assert(all =~= front + seq!['/'] + part) by {
            assert("/"@ =~= seq!['/']);
            if base.last() == '/' {
                assert(base =~= front + seq!['/']);
            }
        }
        pieces_split(front, part);
        Seq::filter_distributes_over_add(pieces(front), pieces(part), keep);
        let p = pieces(front).filter(keep);
        let q = pieces(part).filter(keep);
        assert(pieces(base).filter(keep) == p) by {
            if base.last() == '/' {
                reveal(Seq::filter);
                assert(pieces(base) == pieces(front).push(Seq::empty()));
                assert(pieces(base).drop_last() =~= pieces(front));
            }
        }
        assert(origin(all) == origin(base)) by {
            assert(all[0] == base[0]);
            if base.len() >= 2 {
                assert(all[1] == base[1]);
            } else if base[0] == '.' {
                assert(front == base);
                assert(all[1] == '/');
            }
        }
        assert(components(base) == origin(base) + p);
        assert(components(all) =~= components(base) + q);
        assert(components(all).take(components(base).len() as int) =~= components(base));
    }
}

proof fn under_is_transitive(a: Seq<char>, b: Seq<char>, c: Seq<char>)
    requires
        lies_under(a, b),
        lies_under(b, c),
    ensures
        lies_under(a, c),
{
    let (x, y, z) = (components(a), components(b), components(c));
    assert(x.take(z.len() as int) =~= x.take(y.len() as int).take(z.len() as int));
}

proof fn named_pieces_are_pieces(all: Seq<Seq<char>>, i: int)
    requires
        0 <= i < all.filter(|p: Seq<char>| names_something(p)).len(),
    ensures
        names_something(all.filter(|p: Seq<char>| names_something(p))[i]),
        all.contains(all.filter(|p: Seq<char>| names_something(p))[i]),
    decreases all.len(),
{
    reveal(Seq::filter);
    let keep = |p: Seq<char>| names_something(p);
    let before = all.drop_last().filter(keep);
    let found = all.filter(keep)[i];
    if i < before.len() {
        named_pieces_are_pieces(all.drop_last(), i);
        let k = all.drop_last().index_of(found);
        assert(all[k] == found);
    } else {
        assert(all[all.len() - 1] == found);
    }
}

/// The name of a repository can be used as the name of a directory: it is not empty, is
/// neither `.` nor `..`, and holds no slash and no backslash.
pub proof fn repository_names_are_safe(repo_root: Seq<char>)
    ensures
        repo_label(repo_root).len() > 0,
        repo_label(repo_root) != seq!['.'],
        repo_label(repo_root) != seq!['.', '.'],
        !repo_label(repo_root).contains('/'),
        !repo_label(repo_root).contains('\\'),
{
    reveal_strlit("unknown");
    let keep = |p: Seq<char>| names_something(p);
    let label = repo_label(repo_root);
    assert(!"unknown"@.contains('/')) by {
        assert forall|i: int| 0 <= i < "unknown"@.len() implies "unknown"@[i] != '/' by {}
    }
    assert(!"unknown"@.contains('\\')) by {
        assert forall|i: int| 0 <= i < "unknown"@.len() implies "unknown"@[i] != '\\' by {}
    }
    assert("unknown"@[0] == 'u');
    let c = components(repo_root);
    let named = pieces(repo_root).filter(keep);
    if label != "unknown"@ {
        assert(file_name(repo_root) == Some(c.last()));
        assert(label == c.last());
        assert(origin(repo_root).len() <= 1);
        if named.len() == 0 {
            assert(c =~= origin(repo_root));
            assert(c.last() == seq!['/'] || c.last() == seq!['.']);
        } else {
            assert(c.last() == named[named.len() - 1]);
            named_pieces_are_pieces(pieces(repo_root), named.len() - 1);
            let i = pieces(repo_root).index_of(named[named.len() - 1]);
            pieces_are_many(repo_root);
            assert forall|j: int| 0 <= j < label.len() implies label[j] != '/' by {
                assert(pieces(repo_root)[i][j] != '/');
            }
        }
    }
}

/// The worktree of a session always lies under the data directory, so that it is also
/// recognised as the session's own when the session is removed.
pub proof fn worktrees_lie_under_the_data_directory(
    csm_dir: Seq<char>,
    repo_root: Seq<char>,
    uuid: Seq<char>,
)
    ensures
        lies_under(worktree_text(csm_dir, repo_root, uuid), csm_dir),
{
    reveal_strlit("worktrees");
    repository_names_are_safe(repo_root);
    let label = repo_label(repo_root);
    assert(label[0] != '/') by {
        if label[0] == '/' {
            assert(label.contains('/'));
        }
    }
    let a = join_text(csm_dir, "worktrees"@);
    let b = join_text(a, label);
    let last = label + "-"@ + short_text(uuid);
    assert(last[0] == label[0]);
    appended_path_lies_under(csm_dir, "worktrees"@);
    appended_path_lies_under(a, label);
    appended_path_lies_under(b, last);
    under_is_transitive(join_text(b, last), b, a);
    under_is_transitive(join_text(b, last), a, csm_dir);
}

} // verus!
