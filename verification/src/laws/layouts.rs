//! Laws of the layouts of local sessions: which tabs they have.

use vstd::prelude::*;

use crate::text::{holds_text, occurs_at};
use crate::zellij::{layout, EDIT_TAB, GIT_TAB, LAYOUT_BARS};

verus! {

// ── Texts within texts ──────────────────────────────────────────────────────

/// From its place `k` on, `p` agrees with what stands in `s` from place `i` on.
spec fn agrees_from(s: Seq<char>, p: Seq<char>, i: int, k: int) -> bool
    decreases p.len() - k,
{
    k >= p.len() || (s[i + k] == p[k] && agrees_from(s, p, i, k + 1))
}

proof fn agreement_is_equality(s: Seq<char>, p: Seq<char>, i: int, k: int)
    requires
        agrees_from(s, p, i, k),
        0 <= k,
    ensures
        forall|j: int| k <= j < p.len() ==> #[trigger] s[i + j] == p[j],
    decreases p.len() - k,
{
    if k < p.len() {
        agreement_is_equality(s, p, i, k + 1);
        assert forall|j: int| k <= j < p.len() implies #[trigger] s[i + j] == p[j] by {
            if j > k {
                assert(k + 1 <= j);
            }
        }
    }
}

proof fn agreeing_text_occurs(s: Seq<char>, p: Seq<char>, i: int)
    requires
        0 <= i,
        i + p.len() <= s.len(),
        agrees_from(s, p, i, 0),
    ensures
        occurs_at(s, p, i),
        holds_text(s, p),
{
    agreement_is_equality(s, p, i, 0);
    assert forall|j: int| 0 <= j < p.len() implies s.subrange(i, i + p.len())[j] == p[j] by {
        assert(s[i + j] == p[j]);
    }
    assert(s.subrange(i, i + p.len()) =~= p);
    assert(occurs_at(s, p, i));
}

proof fn part_is_held(x: Seq<char>, y: Seq<char>, z: Seq<char>, p: Seq<char>)
    requires
        holds_text(y, p),
    ensures
        holds_text(x + y + z, p),
{
    let i = choose|i: int| occurs_at(y, p, i);
    let s = x + y + z;
    let at = x.len() + i;
    assert(s.subrange(at, at + p.len()) =~= y.subrange(i, i + p.len()));
    assert(occurs_at(s, p, at));
}

/// The place `i` is not one where `g`, `i` and `t` follow each other.
spec fn no_git_at(s: Seq<char>, i: int) -> bool {
    !(s[i] == 'g' && i + 2 < s.len() && s[i + 1] == 'i' && s[i + 2] == 't')
}

/// From place `i` on, `g`, `i` and `t` never follow each other in `s`.
spec fn no_git_from(s: Seq<char>, i: int) -> bool
    decreases s.len() - i,
{
    i >= s.len() || (no_git_at(s, i) && no_git_from(s, i + 1))
}

proof fn no_git_is_everywhere(s: Seq<char>, i: int)
    requires
        no_git_from(s, i),
    ensures
        forall|j: int| i <= j < s.len() ==> #[trigger] no_git_at(s, j),
    decreases s.len() - i,
{
    if i < s.len() {
        no_git_is_everywhere(s, i + 1);
        assert forall|j: int| i <= j < s.len() implies #[trigger] no_git_at(s, j) by {
            if j > i {
                assert(i + 1 <= j);
            }
        }
    }
}

/// A text that never has `g`, `i` and `t` in a row.
spec fn git_free(s: Seq<char>) -> bool {
    forall|j: int| 0 <= j < s.len() ==> #[trigger] no_git_at(s, j)
}

/// A text in which no quote stands.
pub open spec fn unquoted(s: Seq<char>) -> bool {
    forall|i: int| 0 <= i < s.len() ==> #[trigger] s[i] != '"'
}

// ── The parts of a layout ───────────────────────────────────────────────────

/// What stands before the launcher.
spec fn before_launcher() -> Seq<char> {
    LAYOUT_BARS@ + "    tab name=\"ai\" focus=true {\n        pane command=\""@
}

/// What stands between the launcher and the UUID.
spec fn between() -> Seq<char> {
    "\" {\n            args \""@
}

/// What follows the UUID before the other tabs.
spec fn after_uuid() -> Seq<char> {
    "\"\n        }\n    }\n"@
}

/// The layout of a local session up to the end of its first tab.
pub open spec fn layout_head(launcher: Seq<char>, uuid: Seq<char>) -> Seq<char> {
    LAYOUT_BARS@ + "    tab name=\"ai\" focus=true {\n        pane command=\""@ + launcher
        + "\" {\n            args \""@ + uuid + "\"\n        }\n    }\n"@
}

proof fn bars_are_git_free()
    ensures
        LAYOUT_BARS@.len() >= 2,
        LAYOUT_BARS@[LAYOUT_BARS@.len() - 2] == '}',
        LAYOUT_BARS@[LAYOUT_BARS@.len() - 1] == '\n',
        git_free(LAYOUT_BARS@),
{
    reveal_strlit(
        r#"layout {
    default_tab_template {
        pane size=1 borderless=true {
            plugin location="tab-bar"
        }
        children
        pane size=1 borderless=true {
            plugin location="status-bar"
        }
    }
"#,
    );
    let s = LAYOUT_BARS@;
    reveal_with_fuel(no_git_from, 42);
    assert(no_git_from(s, s.len() - 40));
    assert(no_git_from(s, s.len() - 80));
    assert(no_git_from(s, s.len() - 120));
    assert(no_git_from(s, s.len() - 160));
    assert(no_git_from(s, s.len() - 200));
    assert(no_git_from(s, 0));
    no_git_is_everywhere(s, 0);
}

proof fn parts_are_git_free()
    ensures
        ({
            let a = "    tab name=\"ai\" focus=true {\n        pane command=\""@;
            let b = between();
            let c = after_uuid();
            &&& git_free(a) && git_free(b) && git_free(c) && git_free(EDIT_TAB@)
            &&& a.len() >= 3 && a[a.len() - 3] == 'd' && a[a.len() - 2] == '=' && a[a.len() - 1]
                == '"'
            &&& b.len() >= 3 && b[0] == '"' && b[b.len() - 2] == ' ' && b[b.len() - 1] == '"'
            &&& c.len() >= 2 && c[0] == '"' && c[c.len() - 2] == '}' && c[c.len() - 1] == '\n'
        }),
{
    reveal_strlit("    tab name=\"ai\" focus=true {\n        pane command=\"");
    reveal_strlit("\" {\n            args \"");
    reveal_strlit("\"\n        }\n    }\n");
    reveal_strlit(
        r#"    tab name="edit" {
        pane command="nvim"
    }
}
"#,
    );
    reveal_with_fuel(no_git_from, 70);
    let a = "    tab name=\"ai\" focus=true {\n        pane command=\""@;
    assert(no_git_from(a, 0));
    no_git_is_everywhere(a, 0);
    assert(no_git_from(between(), 0));
    no_git_is_everywhere(between(), 0);
    assert(no_git_from(after_uuid(), 0));
    no_git_is_everywhere(after_uuid(), 0);
    assert(no_git_from(EDIT_TAB@, 0));
    no_git_is_everywhere(EDIT_TAB@, 0);
}

proof fn git_free_joins(x: Seq<char>, y: Seq<char>)
    requires
        git_free(x),
        git_free(y),
        x.len() >= 2,
        x[x.len() - 1] != 'g',
        x[x.len() - 2] != 'g',
    ensures
        git_free(x + y),
{
    let s = x + y;
    assert forall|j: int| 0 <= j < s.len() implies #[trigger] no_git_at(s, j) by {
        if j < x.len() {
            assert(no_git_at(x, j));
        } else {
            assert(no_git_at(y, j - x.len()));
        }
    }
}

/// Where `git` may stand in a layout without the git tab: within the launcher or within the
/// UUID.
proof fn git_stands_in_an_argument(launcher: Seq<char>, uuid: Seq<char>, g: int)
    requires
        ({
            let s = layout(launcher, uuid, false);
            0 <= g && g + 2 < s.len() && s[g] == 'g' && s[g + 1] == 'i' && s[g + 2] == 't'
        }),
    ensures
        ({
            let a = before_launcher();
            let from = a.len() as int;
            let back = from + launcher.len() + between().len();
            ||| from <= g < from + launcher.len()
            ||| back <= g < back + uuid.len()
        }),
{
    bars_are_git_free();
    parts_are_git_free();
    reveal_strlit("");
    let tab = "    tab name=\"ai\" focus=true {\n        pane command=\""@;
    let a = before_launcher();
    let b = between();
    let c = after_uuid() + EDIT_TAB@;
    let s = layout(launcher, uuid, false);
    assert(s =~= a + launcher + b + uuid + c);
    git_free_joins(after_uuid(), EDIT_TAB@);
    git_free_joins(LAYOUT_BARS@, tab);
    let from = a.len() as int;
    let mid = from + launcher.len();
    let back = mid + b.len();
    let end = back + uuid.len();
    if g < from {
        assert(no_git_at(a, g));
        assert(a[a.len() - 1] == tab[tab.len() - 1] && a[a.len() - 2] == tab[tab.len() - 2]);
    } else if mid <= g < back {
        assert(no_git_at(b, g - mid));
        assert(s[g] == b[g - mid]);
        if g + 2 < back {
            assert(s[g + 1] == b[g - mid + 1] && s[g + 2] == b[g - mid + 2]);
        }
    } else if g >= end {
        assert(no_git_at(c, g - end));
        assert(s[g] == c[g - end] && s[g + 1] == c[g - end + 1] && s[g + 2] == c[g - end + 2]);
    }
}

proof fn gitui_is_absent(launcher: Seq<char>, uuid: Seq<char>)
    requires
        !holds_text(launcher, "gitui"@),
        !holds_text(uuid, "gitui"@),
    ensures
        !holds_text(layout(launcher, uuid, false), "gitui"@),
{
    reveal_strlit("gitui");
    reveal_strlit("");
    parts_are_git_free();
    let p = "gitui"@;
    let a = before_launcher();
    let b = between();
    let c = after_uuid() + EDIT_TAB@;
    let s = layout(launcher, uuid, false);
    assert(s =~= a + launcher + b + uuid + c);
    let from = a.len() as int;
    let mid = from + launcher.len();
    let back = mid + b.len();
    let end = back + uuid.len();
    assert forall|i: int| !occurs_at(s, p, i) by {
        if occurs_at(s, p, i) {
            let w = s.subrange(i, i + 5);
            assert(s[i] == w[0] && s[i + 1] == w[1] && s[i + 2] == w[2] && s[i + 3] == w[3] && s[i
                + 4] == w[4]);
            git_stands_in_an_argument(launcher, uuid, i);
            if i < mid {
                if i + 5 > mid {
                    assert(s[mid] == b[0]);
                    assert(i <= mid <= i + 4);
                    assert(s[mid] != '"');
                }
                assert(launcher.subrange(i - from, i - from + 5) =~= w);
                assert(occurs_at(launcher, p, i - from));
            } else {
                if i + 5 > end {
                    assert(s[end] == c[0] && c[0] == after_uuid()[0]);
                    assert(i <= end <= i + 4);
                    assert(s[end] != '"');
                }
                assert(uuid.subrange(i - back, i - back + 5) =~= w);
                assert(occurs_at(uuid, p, i - back));
            }
        }
    }
}

proof fn git_name_is_absent(launcher: Seq<char>, uuid: Seq<char>)
    requires
        unquoted(launcher),
        unquoted(uuid),
    ensures
        !holds_text(layout(launcher, uuid, false), "name=\"git\""@),
{
    reveal_strlit("name=\"git\"");
    reveal_strlit("");
    parts_are_git_free();
    let p = "name=\"git\""@;
    let tab = "    tab name=\"ai\" focus=true {\n        pane command=\""@;
    let a = before_launcher();
    let b = between();
    let c = after_uuid() + EDIT_TAB@;
    let s = layout(launcher, uuid, false);
    assert(s =~= a + launcher + b + uuid + c);
    let from = a.len() as int;
    let mid = from + launcher.len();
    let back = mid + b.len();
    assert forall|i: int| !occurs_at(s, p, i) by {
        if occurs_at(s, p, i) {
            let w = s.subrange(i, i + 10);
            assert(s[i + 3] == w[3] && s[i + 4] == w[4] && s[i + 5] == w[5] && s[i + 6] == w[6]
                && s[i + 7] == w[7] && s[i + 8] == w[8]);
            let g = i + 6;
            git_stands_in_an_argument(launcher, uuid, g);
            if g < mid {
                if g > from {
                    assert(s[g - 1] == launcher[g - 1 - from]);
                } else {
                    assert(s[g - 3] == a[a.len() - 3] && a[a.len() - 3] == tab[tab.len() - 3]);
                }
            } else if g > back {
                assert(s[g - 1] == uuid[g - 1 - back]);
            } else {
                assert(s[g - 2] == b[b.len() - 2]);
            }
        }
    }
}

proof fn git_tab_is_named()
    ensures
        holds_text(GIT_TAB@, "name=\"git\""@),
        holds_text(GIT_TAB@, "command=\"gitui\""@),
        holds_text(GIT_TAB@, "gitui"@),
{
    reveal_strlit("    tab name=\"git\" {\n        pane command=\"gitui\"\n    }\n");
    reveal_strlit("name=\"git\"");
    reveal_strlit("command=\"gitui\"");
    reveal_strlit("gitui");
    reveal_with_fuel(agrees_from, 17);
    agreeing_text_occurs(GIT_TAB@, "name=\"git\""@, 8);
    agreeing_text_occurs(GIT_TAB@, "command=\"gitui\""@, 34);
    agreeing_text_occurs(GIT_TAB@, "gitui"@, 43);
}

proof fn edit_tab_is_named()
    ensures
        holds_text(EDIT_TAB@, "command=\"nvim\""@),
{
    reveal_strlit(
        r#"    tab name="edit" {
        pane command="nvim"
    }
}
"#,
    );
    reveal_strlit("command=\"nvim\"");
    reveal_with_fuel(agrees_from, 16);
    agreeing_text_occurs(EDIT_TAB@, "command=\"nvim\""@, 35);
}

proof fn command_is_absent_with_its_name(s: Seq<char>)
    requires
        !holds_text(s, "gitui"@),
    ensures
        !holds_text(s, "command=\"gitui\""@),
{
    reveal_strlit("command=\"gitui\"");
    reveal_strlit("gitui");
    let p = "command=\"gitui\""@;
    assert forall|i: int| !occurs_at(s, p, i) by {
        if occurs_at(s, p, i) {
            let w = s.subrange(i, i + p.len());
            let inner = s.subrange(i + 9, i + 14);
            assert(inner[0] == w[9] && inner[1] == w[10] && inner[2] == w[11] && inner[3] == w[12]
                && inner[4] == w[13]);
            reveal_with_fuel(agrees_from, 7);
            agreeing_text_occurs(s, "gitui"@, i + 9);
        }
    }
}

// ── The laws ────────────────────────────────────────────────────────────────

/// The layouts with and without the git tab differ in the block of that tab alone, which
/// stands between the first tab and the last.
pub proof fn layouts_differ_in_the_git_tab(launcher: Seq<char>, uuid: Seq<char>)
    ensures
        layout(launcher, uuid, true) == layout_head(launcher, uuid) + GIT_TAB@ + EDIT_TAB@,
        layout(launcher, uuid, false) == layout_head(launcher, uuid) + EDIT_TAB@,
{
    reveal_strlit("");
    assert(layout(launcher, uuid, false) =~= layout_head(launcher, uuid) + EDIT_TAB@);
}

/// Every layout has the focused tab that runs the launcher with the UUID as its argument, and
/// the tab with `nvim`.
pub proof fn layouts_run_the_launcher(launcher: Seq<char>, uuid: Seq<char>, include_git: bool)
    ensures
        holds_text(layout(launcher, uuid, include_git), "tab name=\"ai\" focus=true"@),
        holds_text(layout(launcher, uuid, include_git), "pane command=\""@ + launcher + "\""@),
        holds_text(layout(launcher, uuid, include_git), "args \""@ + uuid + "\""@),
        holds_text(layout(launcher, uuid, include_git), "command=\"nvim\""@),
{
    reveal_strlit("    tab name=\"ai\" focus=true {\n        pane command=\"");
    reveal_strlit("\" {\n            args \"");
    reveal_strlit("\"\n        }\n    }\n");
    reveal_strlit("tab name=\"ai\" focus=true");
    reveal_strlit("pane command=\"");
    reveal_strlit("args \"");
    reveal_strlit("\"");
    let tab = "    tab name=\"ai\" focus=true {\n        pane command=\""@;
    let b = between();
    let c = after_uuid();
    let s = layout(launcher, uuid, include_git);
    let tail = (if include_git {
        GIT_TAB@
    } else {
        ""@
    }) + EDIT_TAB@;
    reveal_with_fuel(agrees_from, 26);
    agreeing_text_occurs(tab, "tab name=\"ai\" focus=true"@, 4);
    part_is_held(
        LAYOUT_BARS@,
        tab,
        launcher + b + uuid + c + tail,
        "tab name=\"ai\" focus=true"@,
    );
    assert(s =~= LAYOUT_BARS@ + tab + (launcher + b + uuid + c + tail));
    let pane = "pane command=\""@;
    agreeing_text_occurs(tab, pane, tab.len() - pane.len());
    let run = tab + launcher + b;
    let at = tab.len() - pane.len();
    let wanted = pane + launcher + "\""@;
    assert(tab.subrange(at, at + pane.len()) =~= pane);
    assert forall|j: int| 0 <= j < wanted.len() implies run.subrange(at, at + wanted.len())[j]
        == wanted[j] by {
        if j < pane.len() {
            assert(tab.subrange(at, at + pane.len())[j] == pane[j]);
        }
    }
    assert(run.subrange(at, at + wanted.len()) =~= wanted);
    assert(occurs_at(run, wanted, at));
    part_is_held(LAYOUT_BARS@, run, uuid + c + tail, wanted);
    assert(s =~= LAYOUT_BARS@ + run + (uuid + c + tail));
    let args = "args \""@;
    agreeing_text_occurs(b, args, b.len() - args.len());
    let call = b + uuid + c;
    let from = b.len() - args.len();
    let asked = args + uuid + "\""@;
    assert(b.subrange(from, from + args.len()) =~= args);
    assert forall|j: int| 0 <= j < asked.len() implies call.subrange(from, from + asked.len())[j]
        == asked[j] by {
        if j < args.len() {
            assert(b.subrange(from, from + args.len())[j] == args[j]);
        }
    }
    assert(call.subrange(from, from + asked.len()) =~= asked);
    assert(occurs_at(call, asked, from));
    part_is_held(LAYOUT_BARS@ + tab + launcher, call, tail, asked);
    assert(s =~= LAYOUT_BARS@ + tab + launcher + call + tail);
    edit_tab_is_named();
    layouts_differ_in_the_git_tab(launcher, uuid);
    let head = if include_git {
        layout_head(launcher, uuid) + GIT_TAB@
    } else {
        layout_head(launcher, uuid)
    };
    part_is_held(head, EDIT_TAB@, Seq::empty(), "command=\"nvim\""@);
    assert(s =~= head + EDIT_TAB@ + Seq::<char>::empty());
}

/// For a launcher and a UUID without quotes and without `gitui`, the git tab and `gitui` are in
/// a layout exactly if they are asked for.
pub proof fn git_tab_is_there_on_request(launcher: Seq<char>, uuid: Seq<char>, include_git: bool)
    requires
        unquoted(launcher),
        unquoted(uuid),
        !holds_text(launcher, "gitui"@),
        !holds_text(uuid, "gitui"@),
    ensures
        holds_text(layout(launcher, uuid, include_git), "name=\"git\""@) <==> include_git,
        holds_text(layout(launcher, uuid, include_git), "command=\"gitui\""@) <==> include_git,
        holds_text(layout(launcher, uuid, include_git), "gitui"@) <==> include_git,
{
    if include_git {
        let s = layout(launcher, uuid, true);
        let head = layout_head(launcher, uuid);
        git_tab_is_named();
        layouts_differ_in_the_git_tab(launcher, uuid);
        part_is_held(head, GIT_TAB@, EDIT_TAB@, "name=\"git\""@);
        part_is_held(head, GIT_TAB@, EDIT_TAB@, "command=\"gitui\""@);
        part_is_held(head, GIT_TAB@, EDIT_TAB@, "gitui"@);
    } else {
        git_name_is_absent(launcher, uuid);
        gitui_is_absent(launcher, uuid);
        command_is_absent_with_its_name(layout(launcher, uuid, false));
    }
}

} // verus!
