//! Laws of the picker.

use vstd::prelude::*;

use crate::interactive::{
    chosen, count_true, matches_query, matching, place_of, Item, KeyCode, KeyEvent, Mode, Outcome,
    Picker,
};
use crate::text::{holds_text, lowercase};

verus! {

// ── Marking ─────────────────────────────────────────────────────────────────

proof fn nothing_is_marked(selected: Seq<bool>)
    ensures
        count_true(selected) == 0 <==> forall|i: int|
            0 <= i < selected.len() ==> !(#[trigger] selected[i]),
    decreases selected.len(),
{
    if selected.len() > 0 {
        let rest = selected.drop_last();
        nothing_is_marked(rest);
        if count_true(selected) == 0 {
            assert forall|i: int| 0 <= i < selected.len() implies !(#[trigger] selected[i]) by {
                if i < rest.len() {
                    assert(rest[i] == selected[i]);
                }
            }
        }
        if forall|i: int| 0 <= i < selected.len() ==> !(#[trigger] selected[i]) {
            assert forall|i: int| 0 <= i < rest.len() implies !(#[trigger] rest[i]) by {
                assert(rest[i] == selected[i]);
            }
            assert(!selected[selected.len() - 1]);
        }
    }
}

proof fn chosen_keys_are_marked(items: Seq<Item>, selected: Seq<bool>, key: Seq<char>)
    requires
        items.len() <= selected.len(),
    ensures
        chosen(items, selected).contains(key) <==> exists|i: int|
            0 <= i < items.len() && selected[i] && (#[trigger] items[i]).key@ == key,
    decreases items.len(),
{
    if items.len() > 0 {
        let rest = items.drop_last();
        let last = items.len() - 1;
        chosen_keys_are_marked(rest, selected, key);
        let before = chosen(rest, selected);
        let all = chosen(items, selected);
        assert(items.last() == items[last]);
        if all.contains(key) {
            let k = all.index_of(key);
            if k < before.len() {
                assert(before[k] == key);
                let i = choose|i: int|
                    0 <= i < rest.len() && selected[i] && (#[trigger] rest[i]).key@ == key;
                assert(items[i] == rest[i]);
            } else {
                assert(items[last].key@ == key);
            }
        }
        if exists|i: int| 0 <= i < items.len() && selected[i] && (#[trigger] items[i]).key@ == key {
            let i = choose|i: int|
                0 <= i < items.len() && selected[i] && (#[trigger] items[i]).key@ == key;
            if i < last {
                assert(rest[i] == items[i]);
                let k = before.index_of(key);
                assert(all[k] == key);
            } else {
                assert(all[all.len() - 1] == key);
            }
        }
    }
}

/// Confirming yields the keys of the marked items and of no others, whether they are in the list
/// or not; and if none is marked, the key of the item under the cursor alone.
pub proof fn marked_items_are_confirmed(p: Picker, key: Seq<char>)
    requires
        p.wf(),
        p.placed(),
    ensures
        (exists|i: int| 0 <= i < p.items.len() && #[trigger] p.selected[i]) ==> (
        p.confirmed().contains(key) <==> exists|i: int|
            0 <= i < p.items.len() && p.selected[i] && (#[trigger] p.items[i]).key@ == key),
        !(exists|i: int| 0 <= i < p.items.len() && #[trigger] p.selected[i]) && p.filtered.len() > 0
            ==> p.confirmed() == seq![p.items[p.filtered[p.cursor] as int].key@],
        !(exists|i: int| 0 <= i < p.items.len() && #[trigger] p.selected[i]) && p.filtered.len()
            == 0 ==> p.confirmed().len() == 0,
{
    nothing_is_marked(p.selected);
    chosen_keys_are_marked(p.items, p.selected, key);
}

/// The space bar turns the mark of the item under the cursor, and pressing it again turns it
/// back.
pub proof fn space_turns_the_mark(p: Picker, key: KeyEvent)
    requires
        p.wf(),
        p.placed(),
        p.mode is Select,
        key.code == KeyCode::Char(' '),
        !key.control,
        p.filtered.len() > 0,
    ensures
        p.pressed(key).0.selected[p.filtered[p.cursor] as int] == !p.selected[p.filtered[p.cursor] as int],
        p.pressed(key).0.cursor == p.cursor,
        p.pressed(key).0.filtered == p.filtered,
        p.pressed(key).0.pressed(key).0 == p,
{
    let i = p.filtered[p.cursor] as int;
    let after = p.pressed(key).0;
    assert(after.selected.len() == p.selected.len());
    assert(after.pressed(key).0.selected =~= p.selected);
}

// ── Moving ──────────────────────────────────────────────────────────────────

/// The cursor that lies `delta` further in a list of `len`, at its ends where it would leave it.
pub open spec fn further(cursor: int, delta: int, len: nat) -> int {
    if len == 0 || cursor + delta < 0 {
        0
    } else if cursor + delta >= len {
        len - 1
    } else {
        cursor + delta
    }
}

/// In select mode the arrows and `j` and `k` move the cursor by one, the page keys by ten, and
/// `g`, `G`, Home and End to the ends of the list, and nothing else changes.
pub proof fn keys_move_within_the_list(p: Picker, key: KeyEvent)
    requires
        p.mode is Select,
        !key.control,
        0 <= p.cursor,
    ensures
        ({
            let after = p.pressed(key).0;
            let len = p.filtered.len();
            let same = Picker { cursor: p.cursor, ..after } == p;
            match key.code {
                KeyCode::Down | KeyCode::Char('j') => same && after.cursor == further(
                    p.cursor,
                    1,
                    len,
                ),
                KeyCode::Up | KeyCode::Char('k') => same && after.cursor == further(
                    p.cursor,
                    -1,
                    len,
                ),
                KeyCode::PageDown => same && after.cursor == further(p.cursor, 10, len),
                KeyCode::PageUp => same && after.cursor == further(p.cursor, -10, len),
                KeyCode::Home | KeyCode::Char('g') => same && after.cursor == 0,
                KeyCode::End | KeyCode::Char('G') => same && after.cursor == (if len == 0 {
                    0
                } else {
                    len - 1
                }),
                KeyCode::Char('/') => after == (Picker { mode: Mode::Search, ..p }),
                KeyCode::Enter => after == (Picker {
                    mode: if p.filtered.len() > 0 || count_true(p.selected) > 0 {
                        Mode::Confirm
                    } else {
                        Mode::Select
                    },
                    ..p
                }),
                KeyCode::Other | KeyCode::Backspace => after == p,
                _ => true,
            }
        }),
        p.pressed(key).1 is None,
{
}

// ── Filtering ───────────────────────────────────────────────────────────────

/// An item is in the list exactly if it is not hidden, or hidden ones are shown, and its search
/// text holds the query, where case does not count; an empty query is in every text.
pub proof fn filter_looks_into_the_text(item: Item, query: Seq<char>, show_hidden: bool)
    ensures
        matches_query(item, query, show_hidden) <==> (show_hidden || !item.hidden) && (lowercase(
            query,
        ).len() == 0 || holds_text(lowercase(item.search_text@), lowercase(query))),
{
}

proof fn place_is_right(items: Seq<Item>, filtered: Seq<usize>, key: Seq<char>, from: int)
    requires
        0 <= from,
        exists|j: int|
            from <= j < filtered.len() && items[(#[trigger] filtered[j]) as int].key@ == key,
    ensures
        ({
            let place = place_of(items, filtered, key, from);
            from <= place < filtered.len() && items[filtered[place] as int].key@ == key
        }),
    decreases filtered.len() - from,
{
    if from < filtered.len() && items[filtered[from] as int].key@ != key {
        let j = choose|j: int|
            from <= j < filtered.len() && items[(#[trigger] filtered[j]) as int].key@ == key;
        assert(from + 1 <= j);
        place_is_right(items, filtered, key, from + 1);
    }
}

/// When the list is made anew, the cursor stays on the same key if that is still in the list, and
/// goes to the top otherwise.
pub proof fn cursor_follows_its_item(p: Picker)
    requires
        p.wf(),
        p.placed(),
        p.filtered.len() > 0,
    ensures
        ({
            let key = p.items[p.filtered[p.cursor] as int].key@;
            let after = p.refiltered();
            if exists|j: int|
                0 <= j < after.filtered.len() && p.items[(
                #[trigger] after.filtered[j]) as int].key@ == key {
                after.cursor < after.filtered.len() && p.items[after.filtered[after.cursor] as int].key@
                    == key
            } else {
                after.cursor == 0
            }
        }),
        p.refiltered().filtered == matching(p.items, p.query, p.show_hidden),
        p.refiltered().offset == 0,
        p.refiltered().query == p.query,
{
    let key = p.items[p.filtered[p.cursor] as int].key@;
    let after = p.refiltered();
    if exists|j: int|
        0 <= j < after.filtered.len() && p.items[(#[trigger] after.filtered[j]) as int].key@ == key {
        place_is_right(p.items, after.filtered, key, 0);
    } else {
        place_is_nowhere(p.items, after.filtered, key, 0);
    }
}

proof fn place_is_nowhere(items: Seq<Item>, filtered: Seq<usize>, key: Seq<char>, from: int)
    requires
        0 <= from,
        !exists|j: int|
            from <= j < filtered.len() && items[(#[trigger] filtered[j]) as int].key@ == key,
    ensures
        place_of(items, filtered, key, from) == 0,
    decreases filtered.len() - from,
{
    if from < filtered.len() {
        assert(items[filtered[from] as int].key@ != key);
        place_is_nowhere(items, filtered, key, from + 1);
    }
}

/// In search mode a character is added to the query, and Backspace takes it away again; both make
/// the list anew. Enter keeps the query and Escape drops it, and both lead back to select mode.
pub proof fn search_edits_the_query(p: Picker, c: char, key: KeyEvent)
    requires
        p.mode is Search,
        key.code == KeyCode::Char(c),
        !key.control,
    ensures
        ({
            let typed = p.pressed(key).0;
            let plain = |code: KeyCode| KeyEvent { code, control: false };
            let erased = typed.pressed(plain(KeyCode::Backspace)).0;
            &&& typed.mode is Search && typed.query == p.query.push(c)
            &&& typed.filtered == matching(p.items, p.query.push(c), p.show_hidden)
            &&& erased.mode is Search && erased.query == p.query
            &&& erased.filtered == matching(p.items, p.query, p.show_hidden)
            &&& p.pressed(plain(KeyCode::Enter)).0 == (Picker { mode: Mode::Select, ..p })
            &&& p.pressed(plain(KeyCode::Esc)).0.mode is Select
            &&& p.pressed(plain(KeyCode::Esc)).0.query.len() == 0
            &&& p.pressed(plain(KeyCode::Esc)).0.filtered == matching(
                p.items,
                Seq::empty(),
                p.show_hidden,
            )
        }),
{
    assert(p.query.push(c).drop_last() =~= p.query);
}

/// In search mode the arrows move the cursor, and a key with control types nothing.
pub proof fn search_moves_with_the_arrows(p: Picker, key: KeyEvent)
    requires
        p.mode is Search,
        0 <= p.cursor,
    ensures
        key.code == KeyCode::Down && !key.control ==> p.pressed(key).0 == (Picker {
            cursor: further(p.cursor, 1, p.filtered.len()),
            ..p
        }),
        key.code == KeyCode::Up && !key.control ==> p.pressed(key).0 == (Picker {
            cursor: further(p.cursor, -1, p.filtered.len()),
            ..p
        }),
        key.control && key.code is Char ==> p.pressed(key).0 == p,
        p.pressed(key).1 == Some(Outcome::Confirm) ==> false,
{
}

/// `a` shows the hidden items or hides them again, and Escape in select mode drops the query; the
/// list is made anew for that.
pub proof fn hidden_items_are_shown_on_demand(p: Picker)
    requires
        p.mode is Select,
    ensures
        ({
            let plain = |code: KeyCode| KeyEvent { code, control: false };
            let turned = p.pressed(plain(KeyCode::Char('a'))).0;
            let cleared = p.pressed(plain(KeyCode::Esc)).0;
            &&& turned.show_hidden == !p.show_hidden && turned.query == p.query && turned.mode
                is Select
            &&& turned.filtered == matching(p.items, p.query, !p.show_hidden)
            &&& cleared.query.len() == 0 && cleared.show_hidden == p.show_hidden && cleared.mode
                is Select
            &&& p.query.len() > 0 ==> cleared.filtered == matching(
                p.items,
                Seq::empty(),
                p.show_hidden,
            )
        }),
{
}

// ── Rows ────────────────────────────────────────────────────────────────────

/// A row begins with an arrow exactly at the cursor, and with a cross exactly for a marked item.
pub proof fn rows_show_cursor_and_marks(p: Picker, i: int)
    ensures
        p.row_prefix(i) == (if i == p.cursor {
            seq!['>', ' ']
        } else {
            seq![' ', ' ']
        }) + (if p.selected[p.filtered[i] as int] {
            seq!['[', 'x', ']', ' ']
        } else {
            seq!['[', ' ', ']', ' ']
        }),
{
    reveal_strlit(">");
    reveal_strlit(" ");
    reveal_strlit("[x]");
    reveal_strlit("[ ]");
    assert(p.row_prefix(i) =~= (if i == p.cursor {
        seq!['>', ' ']
    } else {
        seq![' ', ' ']
    }) + (if p.selected[p.filtered[i] as int] {
        seq!['[', 'x', ']', ' ']
    } else {
        seq!['[', ' ', ']', ' ']
    }));
}

} // verus!
