//! A multi-select picker: its state, what the keys do to it, and what it shows.

use vstd::prelude::*;

use crate::text::{
    cat2, cat3, cat5, collect, contains, decimal, has_prefix, holds_text, join, joined, lowercase,
    same, texts, to_chars, to_decimal,
};

verus! {

/// One row in the picker. `key` is the stable identifier returned to the caller (e.g. a
/// session name). `display` is the rendered line shown to the user, which may hold color
/// escapes. `search_text` is matched against the user's filter query. A `hidden` row is
/// shown on demand only.
#[derive(Debug)]
pub struct Item {
    pub key: String,
    pub display: String,
    pub search_text: String,
    pub hidden: bool,
}

/// What the keys act on.
#[derive(Clone, Copy, Debug, PartialEq, Eq, Structural)]
pub enum Mode {
    Select,
    Search,
    Confirm,
}

/// How the picker ends.
#[derive(Clone, Copy, Debug, PartialEq, Eq, Structural)]
pub enum Outcome {
    Confirm,
    Cancel,
}

/// A key.
#[derive(Clone, Copy, Debug, PartialEq, Eq, Structural)]
pub enum KeyCode {
    Char(char),
    Enter,
    Esc,
    Backspace,
    Up,
    Down,
    Home,
    End,
    PageUp,
    PageDown,
    Other,
}

/// A pressed key, and whether control was held with it.
#[derive(Clone, Copy, Debug, PartialEq, Eq, Structural)]
pub struct KeyEvent {
    pub code: KeyCode,
    pub control: bool,
}

/// What a key in select mode asks for.
#[derive(Clone, Copy, Debug, PartialEq, Eq, Structural)]
pub enum SelectAction {
    Continue,
    EnterConfirm,
}

/// What a key in the confirmation asks for.
#[derive(Clone, Copy, Debug, PartialEq, Eq, Structural)]
pub enum ConfirmAction {
    Confirmed,
    BackToSelect,
}

/// The state of the picker.
#[derive(Debug)]
pub struct PickerState {
    pub items: Vec<Item>,
    pub selected: Vec<bool>,
    /// Cursor position as an index into `filtered`.
    pub cursor: usize,
    /// Top of the visible viewport, also into `filtered`.
    pub offset: usize,
    pub mode: Mode,
    pub query: String,
    /// Indices into `items`, after applying `query`.
    pub filtered: Vec<usize>,
    pub title: String,
    /// Whether hidden items are shown.
    pub show_hidden: bool,
}

/// The picker as a mathematical value.
#[verifier::ext_equal]
pub struct Picker {
    pub items: Seq<Item>,
    pub selected: Seq<bool>,
    pub cursor: int,
    pub offset: int,
    pub mode: Mode,
    pub query: Seq<char>,
    pub filtered: Seq<usize>,
    pub title: Seq<char>,
    pub show_hidden: bool,
}

impl View for PickerState {
    type V = Picker;

    open spec fn view(&self) -> Picker {
        Picker {
            items: self.items@,
            selected: self.selected@,
            cursor: self.cursor as int,
            offset: self.offset as int,
            mode: self.mode,
            query: self.query@,
            filtered: self.filtered@,
            title: self.title@,
            show_hidden: self.show_hidden,
        }
    }
}

/// An item is in the list: it is not hidden or hidden items are shown, and the lowercase
/// query stands in its lowercase search text.
pub open spec fn matches_query(item: Item, query: Seq<char>, show_hidden: bool) -> bool {
    &&& show_hidden || !item.hidden
    &&& lowercase(query).len() == 0 || holds_text(lowercase(item.search_text@), lowercase(query))
}

/// The positions of the items in the list, in order.
pub open spec fn matching(items: Seq<Item>, query: Seq<char>, show_hidden: bool) -> Seq<usize>
    decreases items.len(),
{
    if items.len() == 0 {
        Seq::empty()
    } else {
        let before = matching(items.drop_last(), query, show_hidden);
        if matches_query(items.last(), query, show_hidden) {
            before.push((items.len() - 1) as usize)
        } else {
            before
        }
    }
}

/// The first place at or after `from` in the list of an item with the key `key`, or 0.
pub open spec fn place_of(
    items: Seq<Item>,
    filtered: Seq<usize>,
    key: Seq<char>,
    from: int,
) -> int
    decreases filtered.len() - from,
{
    if from >= filtered.len() {
        0
    } else if items[filtered[from] as int].key@ == key {
        from
    } else {
        place_of(items, filtered, key, from + 1)
    }
}

/// How many items are selected.
pub open spec fn count_true(s: Seq<bool>) -> nat
    decreases s.len(),
{
    if s.len() == 0 {
        0
    } else {
        count_true(s.drop_last()) + (if s.last() {
            1nat
        } else {
            0nat
        })
    }
}

/// The keys of the selected items, in order.
pub open spec fn chosen(items: Seq<Item>, selected: Seq<bool>) -> Seq<Seq<char>>
    decreases items.len(),
{
    if items.len() == 0 {
        Seq::empty()
    } else {
        let before = chosen(items.drop_last(), selected);
        if selected[items.len() - 1] {
            before.push(items.last().key@)
        } else {
            before
        }
    }
}

impl Picker {
    /// Every item has a mark, and the list holds positions of items.
    pub open spec fn wf(self) -> bool {
        &&& self.selected.len() == self.items.len()
        &&& forall|i: int| 0 <= i < self.filtered.len() ==> #[trigger] self.filtered[i]
            < self.items.len()
    }

    /// The cursor is on an item of the list, or at the top of an empty list.
    pub open spec fn placed(self) -> bool {
        0 <= self.cursor && (self.cursor < self.filtered.len() || self.cursor == 0)
    }

    /// The list is what the query asks for.
    pub open spec fn up_to_date(self) -> bool {
        self.filtered == matching(self.items, self.query, self.show_hidden)
    }

    /// The picker with its list computed anew: the cursor stays on the same key if that is
    /// still in the list, and goes to the top otherwise.
    pub open spec fn refiltered(self) -> Picker {
        let filtered = matching(self.items, self.query, self.show_hidden);
        let cursor = if self.cursor < self.filtered.len() {
            place_of(
                self.items,
                filtered,
                self.items[self.filtered[self.cursor] as int].key@,
                0,
            )
        } else {
            0
        };
        Picker { filtered, cursor, offset: 0, ..self }
    }

    /// The picker with the cursor moved by `delta`, within the list.
    pub open spec fn moved(self, delta: int) -> Picker {
        let n = self.filtered.len();
        let to = self.cursor + delta;
        let cursor = if n == 0 || to < 0 {
            0
        } else if to >= n {
            n - 1
        } else {
            to
        };
        Picker { cursor, ..self }
    }

    /// The picker with the cursor at the end of the list.
    pub open spec fn at_bottom(self) -> Picker {
        Picker {
            cursor: if self.filtered.len() == 0 {
                0
            } else {
                self.filtered.len() - 1
            },
            ..self
        }
    }

    /// The picker with the mark of the item under the cursor turned.
    pub open spec fn toggled(self) -> Picker {
        if self.cursor < self.filtered.len() {
            let i = self.filtered[self.cursor] as int;
            Picker { selected: self.selected.update(i, !self.selected[i]), ..self }
        } else {
            self
        }
    }

    /// The picker scrolled so that the cursor is in a viewport of that many rows.
    pub open spec fn scrolled(self, viewport: int) -> Picker {
        if viewport == 0 || self.filtered.len() == 0 {
            self
        } else if self.cursor < self.offset {
            Picker { offset: self.cursor, ..self }
        } else if self.cursor >= self.offset + viewport {
            Picker { offset: self.cursor + 1 - viewport, ..self }
        } else {
            self
        }
    }

    /// The keys that confirming yields: those of the selected items, else that of the item
    /// under the cursor.
    pub open spec fn confirmed(self) -> Seq<Seq<char>> {
        if count_true(self.selected) > 0 {
            chosen(self.items, self.selected)
        } else if self.cursor < self.filtered.len() {
            seq![self.items[self.filtered[self.cursor] as int].key@]
        } else {
            Seq::empty()
        }
    }

    /// There is something to confirm.
    pub open spec fn confirmable(self) -> bool {
        count_true(self.selected) > 0 || self.filtered.len() > 0
    }

    /// How many items the confirmation speaks of.
    pub open spec fn pending(self) -> nat {
        if count_true(self.selected) > 0 {
            count_true(self.selected)
        } else if self.filtered.len() == 0 {
            0
        } else {
            1
        }
    }

    /// What a key does in select mode.
    pub open spec fn select_key(self, key: KeyEvent) -> (Picker, SelectAction) {
        match key.code {
            KeyCode::Char('j') | KeyCode::Down => (self.moved(1), SelectAction::Continue),
            KeyCode::Char('k') | KeyCode::Up => (self.moved(-1), SelectAction::Continue),
            KeyCode::Char('g') | KeyCode::Home => (
                Picker { cursor: 0, ..self },
                SelectAction::Continue,
            ),
            KeyCode::Char('G') | KeyCode::End => (self.at_bottom(), SelectAction::Continue),
            KeyCode::PageDown => (self.moved(10), SelectAction::Continue),
            KeyCode::PageUp => (self.moved(-10), SelectAction::Continue),
            KeyCode::Char(' ') => (self.toggled(), SelectAction::Continue),
            KeyCode::Char('a') => (
                (Picker { show_hidden: !self.show_hidden, ..self }).refiltered(),
                SelectAction::Continue,
            ),
            KeyCode::Char('/') => (Picker { mode: Mode::Search, ..self }, SelectAction::Continue),
            KeyCode::Esc => (
                if self.query.len() > 0 {
                    (Picker { query: Seq::empty(), ..self }).refiltered()
                } else {
                    self
                },
                SelectAction::Continue,
            ),
            KeyCode::Enter => (
                self,
                if self.confirmable() {
                    SelectAction::EnterConfirm
                } else {
                    SelectAction::Continue
                },
            ),
            _ => (self, SelectAction::Continue),
        }
    }

    /// What a key does in search mode.
    pub open spec fn search_key(self, key: KeyEvent) -> Picker {
        match key.code {
            KeyCode::Esc => Picker {
                mode: Mode::Select,
                ..(Picker { query: Seq::empty(), ..self }).refiltered()
            },
            KeyCode::Enter => Picker { mode: Mode::Select, ..self },
            KeyCode::Backspace => (Picker {
                query: if self.query.len() > 0 {
                    self.query.drop_last()
                } else {
                    self.query
                },
                ..self
            }).refiltered(),
            KeyCode::Up => self.moved(-1),
            KeyCode::Down => self.moved(1),
            KeyCode::Char(c) => if key.control {
                self
            } else {
                (Picker { query: self.query.push(c), ..self }).refiltered()
            },
            _ => self,
        }
    }

    /// What a pressed key does: the picker after it, and how the picker ends if it does.
    pub open spec fn pressed(self, key: KeyEvent) -> (Picker, Option<Outcome>) {
        if ctrl_c(key) {
            (self, Some(Outcome::Cancel))
        } else {
            match self.mode {
                Mode::Select => {
                    let (after, action) = self.select_key(key);
                    match action {
                        SelectAction::Continue => (after, None),
                        SelectAction::EnterConfirm => (
                            Picker { mode: Mode::Confirm, ..after },
                            None,
                        ),
                    }
                },
                Mode::Search => (self.search_key(key), None),
                Mode::Confirm => match confirm_key(key) {
                    ConfirmAction::Confirmed => (self, Some(Outcome::Confirm)),
                    ConfirmAction::BackToSelect => (Picker { mode: Mode::Select, ..self }, None),
                },
            }
        }
    }
}

/// The key is Ctrl-C.
pub open spec fn ctrl_c(key: KeyEvent) -> bool {
    key.control && (key.code == KeyCode::Char('c') || key.code == KeyCode::Char('C'))
}

/// Whether the key is Ctrl-C.
pub fn is_ctrl_c(key: &KeyEvent) -> (r: bool)
    ensures
        r == ctrl_c(*key),
{
    key.control && (key.code == KeyCode::Char('c') || key.code == KeyCode::Char('C'))
}

/// What a key does in the confirmation: `y` confirms, any other key goes back.
pub open spec fn confirm_key(key: KeyEvent) -> ConfirmAction {
    if key.code == KeyCode::Char('y') || key.code == KeyCode::Char('Y') {
        ConfirmAction::Confirmed
    } else {
        ConfirmAction::BackToSelect
    }
}

/// What a key does in the confirmation. Anything but `y` (Enter, n, N, Esc, etc.) bounces
/// back to select mode: the most common accidental press is a stray Enter, and bouncing it
/// back rather than confirming protects against a double Enter while finishing a search.
pub fn handle_confirm_key(key: KeyEvent) -> (r: ConfirmAction)
    ensures
        r == confirm_key(key),
{
    if key.code == KeyCode::Char('y') || key.code == KeyCode::Char('Y') {
        ConfirmAction::Confirmed
    } else {
        ConfirmAction::BackToSelect
    }
}

fn filter_items(items: &Vec<Item>, query: &str, show_hidden: bool) -> (r: Vec<usize>)
    ensures
        r@ == matching(items@, query@, show_hidden),
        forall|i: int| 0 <= i < r@.len() ==> #[trigger] r@[i] < items@.len(),
{
    let q = query.to_lowercase();
    let mut out: Vec<usize> = Vec::new();
    let mut i: usize = 0;
    while i < items.len()
        invariant
            i <= items@.len(),
            q@ == lowercase(query@),
            out@ == matching(items@.take(i as int), query@, show_hidden),
            forall|j: int| 0 <= j < out@.len() ==> #[trigger] out@[j] < i,
        decreases items@.len() - i,
    {
        assert(items@.take(i + 1).drop_last() =~= items@.take(i as int));
        let it = &items[i];
        if (show_hidden || !it.hidden) && (q.as_str().is_empty() || contains(
            &it.search_text.as_str().to_lowercase(),
            &q,
        )) {
            out.push(i);
        }
        i = i + 1;
    }
    assert(items@.take(i as int) =~= items@);
    out
}

impl PickerState {
    /// A picker over `items` with nothing selected and the cursor at the top.
    pub fn new(items: Vec<Item>, title: String) -> (r: Self)
        ensures
            r@ == (Picker {
                items: items@,
                selected: Seq::new(items@.len(), |i: int| false),
                cursor: 0,
                offset: 0,
                mode: Mode::Select,
                query: Seq::empty(),
                filtered: matching(items@, Seq::empty(), false),
                title: title@,
                show_hidden: false,
            }),
            r@.wf(),
    {
        let query = String::new();
        let filtered = filter_items(&items, &query, false);
        let mut selected: Vec<bool> = Vec::new();
        let n = items.len();
        while selected.len() < n
            invariant
                selected@.len() <= n,
                forall|i: int| 0 <= i < selected@.len() ==> !#[trigger] selected@[i],
            decreases n - selected@.len(),
        {
            selected.push(false);
        }
        assert(query@ =~= Seq::<char>::empty());
        let r = PickerState {
            items,
            selected,
            cursor: 0,
            offset: 0,
            mode: Mode::Select,
            query,
            filtered,
            title,
            show_hidden: false,
        };
        assert(r.selected@ =~= Seq::new(r.items@.len(), |i: int| false));
        r
    }

    /// Compute the list anew, keeping the cursor on the same item where that is possible.
    pub fn refilter(&mut self)
        requires
            old(self)@.wf(),
        ensures
            final(self)@ == old(self)@.refiltered(),
            final(self)@.wf(),
    {
        let filtered = filter_items(&self.items, &self.query, self.show_hidden);
        let mut place: usize = 0;
        if self.cursor < self.filtered.len() {
            let at = self.filtered[self.cursor];
            let key = &self.items[at].key;
            let n = filtered.len();
            let mut i: usize = 0;
            let mut found = false;
            while i < n && !found
                invariant
                    i <= n,
                    n == filtered@.len(),
                    forall|j: int|
                        0 <= j < filtered@.len() ==> #[trigger] filtered@[j] < self.items@.len(),
                    found ==> place_of(self.items@, filtered@, key@, 0) == place,
                    !found ==> place == 0 && place_of(self.items@, filtered@, key@, 0) == place_of(
                        self.items@,
                        filtered@,
                        key@,
                        i as int,
                    ),
                decreases
                    n - i,
                    if found {
                        0int
                    } else {
                        1int
                    },
            {
                if same(&self.items[filtered[i]].key, key) {
                    place = i;
                    found = true;
                } else {
                    i = i + 1;
                }
            }
        }
        self.filtered = filtered;
        self.cursor = place;
        self.offset = 0;
    }

    /// Scroll so that the cursor is in a viewport of `viewport` rows.
    pub fn ensure_cursor_visible(&mut self, viewport: usize)
        ensures
            final(self)@ == old(self)@.scrolled(viewport as int),
    {
        if viewport == 0 || self.filtered.len() == 0 {
            return ;
        }
        if self.cursor < self.offset {
            self.offset = self.cursor;
        } else if self.cursor - self.offset >= viewport {
            self.offset = self.cursor - (viewport - 1);
        }
    }

    /// Move the cursor by `delta`, within the list.
    pub fn move_cursor(&mut self, delta: isize)
        ensures
            final(self)@ == old(self)@.moved(delta as int),
    {
        let n = self.filtered.len();
        if n == 0 {
            self.cursor = 0;
            return ;
        }
        let last: usize = n - 1;
        if delta < 0 {
            let back: usize = (-(delta + 1)) as usize;
            if self.cursor <= back {
                self.cursor = 0;
            } else {
                let to: usize = self.cursor - back - 1;
                self.cursor = if to > last {
                    last
                } else {
                    to
                };
            }
        } else {
            let ahead: usize = delta as usize;
            if self.cursor >= last || last - self.cursor <= ahead {
                self.cursor = last;
            } else {
                self.cursor = self.cursor + ahead;
            }
        }
    }

    /// Move the cursor to the top of the list.
    pub fn jump_top(&mut self)
        ensures
            final(self)@ == (Picker { cursor: 0, ..old(self)@ }),
    {
        self.cursor = 0;
    }

    /// Move the cursor to the end of the list.
    pub fn jump_bottom(&mut self)
        ensures
            final(self)@ == old(self)@.at_bottom(),
    {
        let n = self.filtered.len();
        self.cursor = if n == 0 {
            0
        } else {
            n - 1
        };
    }

    /// Turn the mark of the item under the cursor.
    pub fn toggle_selection_at_cursor(&mut self)
        requires
            old(self)@.wf(),
        ensures
            final(self)@ == old(self)@.toggled(),
            final(self)@.wf(),
    {
        if self.cursor < self.filtered.len() {
            let at = self.filtered[self.cursor];
            let mark = self.selected[at];
            self.selected.set(at, !mark);
        }
    }

    /// How many items are selected.
    pub fn selected_count(&self) -> (r: usize)
        ensures
            r == count_true(self.selected@),
    {
        let mut count: usize = 0;
        let mut i: usize = 0;
        while i < self.selected.len()
            invariant
                i <= self.selected@.len(),
                count <= i,
                count == count_true(self.selected@.take(i as int)),
            decreases self.selected@.len() - i,
        {
            assert(self.selected@.take(i + 1).drop_last() =~= self.selected@.take(i as int));
            if self.selected[i] {
                count = count + 1;
            }
            i = i + 1;
        }
        assert(self.selected@.take(i as int) =~= self.selected@);
        count
    }

    /// Keys to return when the user confirms. If the user has explicitly selected one or
    /// more items (possibly not in the current list), return those in original input
    /// order. Otherwise fall back to the item under the cursor (if any).
    pub fn confirmed_keys(&self) -> (r: Vec<String>)
        requires
            self@.wf(),
        ensures
            texts(r@) == self@.confirmed(),
    {
        let mut keys: Vec<String> = Vec::new();
        if self.selected_count() > 0 {
            let mut i: usize = 0;
            assert(texts(keys@) =~= chosen(self.items@.take(0), self.selected@));
            while i < self.items.len()
                invariant
                    i <= self.items@.len(),
                    self.selected@.len() == self.items@.len(),
                    texts(keys@) == chosen(self.items@.take(i as int), self.selected@),
                decreases self.items@.len() - i,
            {
                assert(self.items@.take(i + 1).drop_last() =~= self.items@.take(i as int));
                let ghost before = keys@;
                if self.selected[i] {
                    keys.push(self.items[i].key.clone());
                    assert(texts(keys@) =~= texts(before).push(self.items@[i as int].key@));
                }
                i = i + 1;
            }
            assert(self.items@.take(i as int) =~= self.items@);
        } else if self.cursor < self.filtered.len() {
            let at = self.filtered[self.cursor];
            assert(self@.filtered[self.cursor as int] == at);
            keys.push(self.items[at].key.clone());
            assert(texts(keys@) =~= self@.confirmed());
        } else {
            assert(texts(keys@) =~= self@.confirmed());
        }
        keys
    }

    /// Whether pressing Enter in select mode should produce a removal list.
    pub fn can_confirm(&self) -> (r: bool)
        ensures
            r == self@.confirmable(),
    {
        self.selected_count() > 0 || self.filtered.len() > 0
    }
}

/// How many items the confirmation speaks of.
pub fn pending_remove_count(state: &PickerState) -> (r: usize)
    ensures
        r == state@.pending(),
{
    let count = state.selected_count();
    if count > 0 {
        count
    } else if state.filtered.len() == 0 {
        0
    } else {
        1
    }
}

/// What a key does in select mode.
pub fn handle_select_key(state: &mut PickerState, key: KeyEvent) -> (r: SelectAction)
    requires
        old(state)@.wf(),
    ensures
        (final(state)@, r) == old(state)@.select_key(key),
        final(state)@.wf(),
{
    match key.code {
        KeyCode::Char('j') | KeyCode::Down => state.move_cursor(1),
        KeyCode::Char('k') | KeyCode::Up => state.move_cursor(-1),
        KeyCode::Char('g') | KeyCode::Home => state.jump_top(),
        KeyCode::Char('G') | KeyCode::End => state.jump_bottom(),
        KeyCode::PageDown => state.move_cursor(10),
        KeyCode::PageUp => state.move_cursor(-10),
        KeyCode::Char(' ') => state.toggle_selection_at_cursor(),
        KeyCode::Char('a') => {
            state.show_hidden = !state.show_hidden;
            state.refilter();
        },
        KeyCode::Char('/') => {
            state.mode = Mode::Search;
        },
        KeyCode::Esc => {
            // Esc clears the active search filter from anywhere: the search input itself
            // also maps Esc to clear-and-exit, so there is a single muscle memory for
            // "drop the filter".
            if !state.query.as_str().is_empty() {
                state.query = String::new();
                assert(state@ =~= (Picker { query: Seq::empty(), ..old(state)@ }));
                state.refilter();
            }
        },
        KeyCode::Enter => {
            if state.can_confirm() {
                return SelectAction::EnterConfirm;
            }
        },
        _ => {},
    }
    SelectAction::Continue
}

/// What a key does in search mode.
pub fn handle_search_key(state: &mut PickerState, key: KeyEvent)
    requires
        old(state)@.wf(),
    ensures
        final(state)@ == old(state)@.search_key(key),
        final(state)@.wf(),
{
    match key.code {
        KeyCode::Esc => {
            state.query = String::new();
            assert(state.query@ =~= Seq::<char>::empty());
            state.refilter();
            state.mode = Mode::Select;
        },
        KeyCode::Enter => {
            state.mode = Mode::Select;
        },
        KeyCode::Backspace => {
            let v = to_chars(&state.query);
            if v.len() > 0 {
                state.query = collect(&v, 0, v.len() - 1);
                assert(state.query@ =~= old(state).query@.drop_last());
            }
            state.refilter();
        },
        KeyCode::Up => state.move_cursor(-1),
        KeyCode::Down => state.move_cursor(1),
        KeyCode::Char(c) => {
            // Control combinations other than Ctrl-C do nothing.
            if !key.control {
                state.query.push(c);
                state.refilter();
            }
        },
        _ => {},
    }
}

/// What a pressed key does, and how the picker ends if it does.
pub fn handle_key(state: &mut PickerState, key: KeyEvent) -> (r: Option<Outcome>)
    requires
        old(state)@.wf(),
    ensures
        (final(state)@, r) == old(state)@.pressed(key),
        final(state)@.wf(),
{
    if is_ctrl_c(&key) {
        return Some(Outcome::Cancel);
    }
    match state.mode {
        Mode::Select => match handle_select_key(state, key) {
            SelectAction::Continue => None,
            SelectAction::EnterConfirm => {
                state.mode = Mode::Confirm;
                None
            },
        },
        Mode::Search => {
            handle_search_key(state, key);
            None
        },
        Mode::Confirm => match handle_confirm_key(key) {
            ConfirmAction::Confirmed => Some(Outcome::Confirm),
            ConfirmAction::BackToSelect => {
                state.mode = Mode::Select;
                None
            },
        },
    }
}

// ── String helpers ──────────────────────────────────────────────────────────

/// The character that starts an escape sequence.
pub const ESCAPE: char = '\x1b';

/// The character ends a control sequence.
pub open spec fn ends_sequence(c: char) -> bool {
    '@' <= c <= '~'
}

/// A control sequence starts here.
pub open spec fn starts_sequence(s: Seq<char>) -> bool {
    s.len() >= 2 && s[0] == ESCAPE && s[1] == '['
}

/// The number of characters of `s` outside control sequences, where `inside` says whether
/// `s` begins within one.
pub open spec fn width_from(s: Seq<char>, inside: bool) -> nat
    decreases s.len(),
{
    if s.len() == 0 {
        0
    } else if inside {
        width_from(s.drop_first(), !ends_sequence(s[0]))
    } else if starts_sequence(s) {
        width_from(s.skip(2), true)
    } else {
        1 + width_from(s.drop_first(), false)
    }
}

/// The visible width of `s`: its number of characters outside control sequences.
pub open spec fn width(s: Seq<char>) -> nat {
    width_from(s, false)
}

/// The longest prefix of `s` with at most `max` characters outside control sequences,
/// with the control sequences that follow them.
pub open spec fn cut_from(s: Seq<char>, max: nat, inside: bool) -> Seq<char>
    decreases s.len(),
{
    if s.len() == 0 {
        Seq::empty()
    } else if inside {
        seq![s[0]] + cut_from(s.drop_first(), max, !ends_sequence(s[0]))
    } else if starts_sequence(s) {
        s.take(2) + cut_from(s.skip(2), max, true)
    } else if max == 0 {
        Seq::empty()
    } else {
        seq![s[0]] + cut_from(s.drop_first(), (max - 1) as nat, false)
    }
}

/// `s` cut to a visible width of `max`; nothing at all for a width of zero.
pub open spec fn cut(s: Seq<char>, max: nat) -> Seq<char> {
    if max == 0 {
        Seq::empty()
    } else {
        cut_from(s, max, false)
    }
}

/// Count the visible (printable) width of `s` in characters, ignoring CSI escape
/// sequences. Assumes characters in the visible part are width-1 (true for ASCII, which is
/// what a session line is made of).
pub fn visible_width(s: &str) -> (r: usize)
    ensures
        r == width(s@),
{
    let v = to_chars(s);
    let n = v.len();
    let mut count: usize = 0;
    let mut inside = false;
    let mut i: usize = 0;
    assert(v@.skip(0) =~= v@);
    while i < n
        invariant
            i <= n,
            n == v@.len(),
            count <= i,
            width(v@) == count + width_from(v@.skip(i as int), inside),
        decreases n - i,
    {
        let ghost rest = v@.skip(i as int);
        assert(rest.drop_first() =~= v@.skip(i + 1));
        assert(rest[0] == v@[i as int]);
        if inside {
            inside = !('@' <= v[i] && v[i] <= '~');
            i = i + 1;
        } else if v[i] == ESCAPE && n - i >= 2 && v[i + 1] == '[' {
            assert(rest[1] == v@[i + 1]);
            assert(rest.skip(2) =~= v@.skip(i + 2));
            inside = true;
            i = i + 2;
        } else {
            if n - i >= 2 {
                assert(rest[1] == v@[i + 1]);
            }
            count = count + 1;
            i = i + 1;
        }
    }
    count
}

/// Truncate `s` to at most `max_visible` printable characters while preserving any
/// embedded CSI escape sequences in full. This keeps colors intact when a long session
/// line has to be cropped to terminal width.
pub fn visible_truncate(s: &str, max_visible: usize) -> (r: String)
    ensures
        r@ == cut(s@, max_visible as nat),
{
    if max_visible == 0 {
        let r = String::new();
        assert(r@ =~= Seq::<char>::empty());
        return r;
    }
    let v = to_chars(s);
    let n = v.len();
    let mut out = String::new();
    let mut left: usize = max_visible;
    let mut inside = false;
    let mut i: usize = 0;
    let mut over = false;
    assert(v@.skip(0) =~= v@);
    assert(out@ + cut_from(v@, left as nat, false) =~= cut_from(v@, left as nat, false));
    while i < n && !over
        invariant
            i <= n,
            n == v@.len(),
            !over ==> cut(v@, max_visible as nat) == out@ + cut_from(
                v@.skip(i as int),
                left as nat,
                inside,
            ),
            over ==> cut(v@, max_visible as nat) == out@,
        decreases
            n - i,
            if over {
                0int
            } else {
                1int
            },
    {
        let ghost rest = v@.skip(i as int);
        let ghost before = out@;
        assert(rest.drop_first() =~= v@.skip(i + 1));
        assert(rest[0] == v@[i as int]);
        if inside {
            inside = !('@' <= v[i] && v[i] <= '~');
            out.push(v[i]);
            i = i + 1;
            assert(before + (seq![rest[0]] + cut_from(v@.skip(i as int), left as nat, inside))
                =~= out@ + cut_from(v@.skip(i as int), left as nat, inside));
        } else if v[i] == ESCAPE && n - i >= 2 && v[i + 1] == '[' {
            assert(rest[1] == v@[i + 1]);
            assert(rest.skip(2) =~= v@.skip(i + 2));
            out.push(v[i]);
            out.push(v[i + 1]);
            inside = true;
            i = i + 2;
            assert(before + (rest.take(2) + cut_from(v@.skip(i as int), left as nat, inside))
                =~= out@ + cut_from(v@.skip(i as int), left as nat, inside));
        } else {
            if n - i >= 2 {
                assert(rest[1] == v@[i + 1]);
            }
            if left == 0 {
                over = true;
                assert(out@ + Seq::<char>::empty() =~= out@);
            } else {
                out.push(v[i]);
                left = left - 1;
                i = i + 1;
                assert(before + (seq![rest[0]] + cut_from(v@.skip(i as int), left as nat, false))
                    =~= out@ + cut_from(v@.skip(i as int), left as nat, false));
            }
        }
    }
    assert(!over ==> out@ + cut_from(v@.skip(i as int), left as nat, inside) =~= out@);
    out
}

/// The sequence that ends all styles.
pub open spec fn reset_at(s: Seq<char>) -> bool {
    s.len() >= 4 && s[0] == ESCAPE && s[1] == '[' && s[2] == '0' && s[3] == 'm'
}

/// `s` with `bg` put after every reset.
pub open spec fn with_background(s: Seq<char>, bg: Seq<char>) -> Seq<char>
    decreases s.len(),
{
    if s.len() == 0 {
        Seq::empty()
    } else if reset_at(s) {
        s.take(4) + bg + with_background(s.skip(4), bg)
    } else {
        seq![s[0]] + with_background(s.drop_first(), bg)
    }
}

/// Inject `bg_seq` after every `\x1b[0m` reset in `s`. Used by the cursor row to ensure the
/// highlight background survives the per-field resets between colored chunks. The caller is
/// responsible for emitting `bg_seq` before printing the result and a reset after.
pub fn apply_background(s: &str, bg_seq: &str) -> (r: String)
    ensures
        r@ == with_background(s@, bg_seq@),
{
    let v = to_chars(s);
    let n = v.len();
    let mut out = String::new();
    let mut i: usize = 0;
    assert(v@.skip(0) =~= v@);
    assert(out@ + with_background(v@, bg_seq@) =~= with_background(v@, bg_seq@));
    while i < n
        invariant
            i <= n,
            n == v@.len(),
            v@ == s@,
            with_background(s@, bg_seq@) == out@ + with_background(v@.skip(i as int), bg_seq@),
        decreases n - i,
    {
        let ghost rest = v@.skip(i as int);
        let ghost before = out@;
        assert(rest[0] == v@[i as int]);
        assert(rest.drop_first() =~= v@.skip(i + 1));
        if n - i >= 4 && v[i] == ESCAPE && v[i + 1] == '[' && v[i + 2] == '0' && v[i + 3] == 'm' {
            assert(rest[1] == v@[i + 1] && rest[2] == v@[i + 2] && rest[3] == v@[i + 3]);
            assert(rest.skip(4) =~= v@.skip(i + 4));
            out.push(v[i]);
            out.push(v[i + 1]);
            out.push(v[i + 2]);
            out.push(v[i + 3]);
            assert(out@ =~= before + rest.take(4));
            out.append(bg_seq);
            i = i + 4;
            assert(before + (rest.take(4) + bg_seq@ + with_background(v@.skip(i as int), bg_seq@))
                =~= out@ + with_background(v@.skip(i as int), bg_seq@));
        } else {
            if n - i >= 4 {
                assert(rest[1] == v@[i + 1] && rest[2] == v@[i + 2] && rest[3] == v@[i + 3]);
            }
            out.push(v[i]);
            i = i + 1;
            assert(before + (seq![rest[0]] + with_background(v@.skip(i as int), bg_seq@)) =~= out@
                + with_background(v@.skip(i as int), bg_seq@));
        }
    }
    assert(out@ + with_background(v@.skip(i as int), bg_seq@) =~= out@);
    out
}

proof fn cut_keeps_first(s: Seq<char>, max: nat, inside: bool)
    ensures
        cut_from(s, max, inside).len() <= s.len(),
        cut_from(s, max, inside).len() > 0 ==> cut_from(s, max, inside)[0] == s[0],
    decreases s.len(),
{
    if s.len() > 0 {
        if inside {
            cut_keeps_first(s.drop_first(), max, !ends_sequence(s[0]));
        } else if starts_sequence(s) {
            cut_keeps_first(s.skip(2), max, true);
        } else if max > 0 {
            cut_keeps_first(s.drop_first(), (max - 1) as nat, false);
        }
    }
}

proof fn cut_has_width(s: Seq<char>, max: nat, inside: bool)
    ensures
        width_from(cut_from(s, max, inside), inside) == (if width_from(s, inside) <= max {
            width_from(s, inside)
        } else {
            max
        }),
    decreases s.len(),
{
    if s.len() > 0 {
        let out = cut_from(s, max, inside);
        if inside {
            let rest = cut_from(s.drop_first(), max, !ends_sequence(s[0]));
            cut_has_width(s.drop_first(), max, !ends_sequence(s[0]));
            assert(out.drop_first() =~= rest);
        } else if starts_sequence(s) {
            let rest = cut_from(s.skip(2), max, true);
            cut_has_width(s.skip(2), max, true);
            assert(out[0] == s[0] && out[1] == s[1]);
            assert(out.skip(2) =~= rest);
        } else if max > 0 {
            let rest = cut_from(s.drop_first(), (max - 1) as nat, false);
            cut_has_width(s.drop_first(), (max - 1) as nat, false);
            cut_keeps_first(s.drop_first(), (max - 1) as nat, false);
            assert(out.drop_first() =~= rest);
            if out.len() >= 2 {
                assert(out[1] == rest[0] && rest[0] == s[1]);
            }
            assert(!starts_sequence(out));
        }
    }
}

/// A truncated text is as wide as the text, but for what goes beyond the limit.
pub proof fn truncation_has_width(s: Seq<char>, max: nat)
    ensures
        width(cut(s, max)) == (if width(s) <= max {
            width(s)
        } else {
            max
        }),
{
    cut_has_width(s, max, false);
}

proof fn cut_from_is_prefix(s: Seq<char>, max: nat, inside: bool)
    ensures
        cut_from(s, max, inside).len() <= s.len(),
        cut_from(s, max, inside) == s.take(cut_from(s, max, inside).len() as int),
    decreases s.len(),
{
    let out = cut_from(s, max, inside);
    if s.len() > 0 {
        if inside {
            cut_from_is_prefix(s.drop_first(), max, !ends_sequence(s[0]));
            assert(out =~= s.take(out.len() as int));
        } else if starts_sequence(s) {
            cut_from_is_prefix(s.skip(2), max, true);
            assert(out =~= s.take(out.len() as int));
        } else if max > 0 {
            cut_from_is_prefix(s.drop_first(), (max - 1) as nat, false);
            assert(out =~= s.take(out.len() as int));
        } else {
            assert(out =~= s.take(0));
        }
    } else {
        assert(out =~= s.take(0));
    }
}

/// A truncated text is a beginning of the text; a text that is not too wide is kept whole.
pub proof fn truncation_is_prefix(s: Seq<char>, max: nat)
    ensures
        cut(s, max).len() <= s.len(),
        cut(s, max) == s.take(cut(s, max).len() as int),
        max > 0 && width(s) <= max ==> cut(s, max) == s,
{
    if max == 0 {
        assert(cut(s, max) =~= s.take(0));
    } else {
        cut_from_is_prefix(s, max, false);
        if width(s) <= max {
            narrow_is_kept(s, max, false);
        }
    }
}

proof fn narrow_is_kept(s: Seq<char>, max: nat, inside: bool)
    requires
        width_from(s, inside) <= max,
    ensures
        cut_from(s, max, inside) == s,
    decreases s.len(),
{
    if s.len() == 0 {
        assert(cut_from(s, max, inside) =~= s);
    } else if inside {
        narrow_is_kept(s.drop_first(), max, !ends_sequence(s[0]));
        assert(cut_from(s, max, inside) =~= s);
    } else if starts_sequence(s) {
        narrow_is_kept(s.skip(2), max, true);
        assert(cut_from(s, max, inside) =~= s);
    } else {
        narrow_is_kept(s.drop_first(), (max - 1) as nat, false);
        assert(cut_from(s, max, inside) =~= s);
    }
}

/// `bg` leaves the width of what follows it as it is.
pub open spec fn silent(bg: Seq<char>) -> bool {
    forall|t: Seq<char>| width_from(#[trigger] (bg + t), false) == width_from(t, false)
}

proof fn background_keeps_width_from(s: Seq<char>, bg: Seq<char>, inside: bool)
    requires
        silent(bg),
    ensures
        width_from(with_background(s, bg), inside) == width_from(s, inside),
    decreases s.len(),
{
    reveal_with_fuel(width_from, 5);
    if s.len() > 0 {
        let out = with_background(s, bg);
        if reset_at(s) {
            let rest = with_background(s.skip(4), bg);
            background_keeps_width_from(s.skip(4), bg, false);
            assert(width_from(bg + rest, false) == width_from(rest, false));
            assert(out[0] == s[0] && out[1] == s[1] && out[2] == s[2] && out[3] == s[3]);
            assert(out.skip(4) =~= bg + rest);
            assert(s.skip(2).drop_first().drop_first() =~= s.skip(4));
            assert(out.skip(2).drop_first().drop_first() =~= out.skip(4));
            assert(s.drop_first().drop_first() =~= s.skip(2));
            assert(out.drop_first().drop_first() =~= out.skip(2));
            assert(s.skip(2)[0] == '0' && s.skip(2).drop_first()[0] == 'm');
            assert(out.skip(2)[0] == '0' && out.skip(2).drop_first()[0] == 'm');
            assert(s.drop_first()[0] == '[' && out.drop_first()[0] == '[');
            assert(width_from(s, inside) == width_from(s.skip(4), false) + (if inside {
                2nat
            } else {
                0nat
            }));
            assert(width_from(out, inside) == width_from(out.skip(4), false) + (if inside {
                2nat
            } else {
                0nat
            }));
        } else {
            let rest = with_background(s.drop_first(), bg);
            assert(out[0] == s[0]);
            assert(out.drop_first() =~= rest);
            if inside {
                background_keeps_width_from(s.drop_first(), bg, !ends_sequence(s[0]));
            } else if starts_sequence(s) {
                let second = s.drop_first();
                assert(second[0] == '[');
                assert(rest == seq![second[0]] + with_background(second.drop_first(), bg));
                assert(out[1] == '[');
                assert(second.drop_first() =~= s.skip(2));
                assert(out.skip(2) =~= with_background(s.skip(2), bg));
                background_keeps_width_from(s.skip(2), bg, true);
            } else {
                background_keeps_width_from(s.drop_first(), bg, false);
                if out.len() >= 2 {
                    assert(out[1] == rest[0]);
                    if s.len() >= 2 {
                        assert(rest[0] == s.drop_first()[0]);
                    }
                }
                assert(!starts_sequence(out));
            }
        }
    }
}

/// The background sequence used to highlight the cursor row: "bright black", a subtle dark
/// grey that lets the per-field foreground colors read through.
pub const HIGHLIGHT_BG: &'static str = "\x1b[100m";

/// A sequence that sets colors or styles: digits and semicolons between an escape with a
/// bracket and an `m`.
pub open spec fn style_sequence(bg: Seq<char>) -> bool {
    &&& bg.len() >= 3
    &&& bg[0] == ESCAPE
    &&& bg[1] == '['
    &&& bg[bg.len() - 1] == 'm'
    &&& forall|i: int| 2 <= i < bg.len() - 1 ==> '0' <= #[trigger] bg[i] <= '9' || bg[i] == ';'
}

proof fn rest_of_style_is_silent(bg: Seq<char>, t: Seq<char>, i: int)
    requires
        style_sequence(bg),
        2 <= i < bg.len(),
    ensures
        width_from(bg.skip(i) + t, true) == width_from(t, false),
    decreases bg.len() - i,
{
    let s = bg.skip(i) + t;
    assert(s[0] == bg[i]);
    if i == bg.len() - 1 {
        assert(s.drop_first() =~= t);
    } else {
        assert(s.drop_first() =~= bg.skip(i + 1) + t);
        rest_of_style_is_silent(bg, t, i + 1);
    }
}

proof fn styles_are_silent(bg: Seq<char>)
    requires
        style_sequence(bg),
    ensures
        silent(bg),
{
    assert forall|t: Seq<char>| width_from(#[trigger] (bg + t), false) == width_from(t, false) by {
        let s = bg + t;
        assert(s[0] == ESCAPE && s[1] == '[');
        assert(s.skip(2) =~= bg.skip(2) + t);
        rest_of_style_is_silent(bg, t, 2);
    }
}

/// Putting a color or style after every reset does not change the visible width of a text.
pub proof fn background_keeps_width(s: Seq<char>, bg: Seq<char>)
    requires
        style_sequence(bg),
    ensures
        width(with_background(s, bg)) == width(s),
{
    styles_are_silent(bg);
    background_keeps_width_from(s, bg, false);
}

/// The highlight of the cursor row is a color.
pub proof fn highlight_is_a_style()
    ensures
        style_sequence(HIGHLIGHT_BG@),
{
    reveal_strlit("\x1b[100m");
    assert(HIGHLIGHT_BG@[2] == '1' && HIGHLIGHT_BG@[3] == '0' && HIGHLIGHT_BG@[4] == '0');
}

/// `s` with `bg` taken out after every reset that it follows.
pub open spec fn without_background(s: Seq<char>, bg: Seq<char>) -> Seq<char>
    decreases s.len(),
{
    if s.len() == 0 {
        Seq::empty()
    } else if reset_at(s) && has_prefix(s.skip(4), bg) {
        s.take(4) + without_background(s.skip(4 + bg.len() as int), bg)
    } else {
        seq![s[0]] + without_background(s.drop_first(), bg)
    }
}

proof fn background_adds_no_reset(s: Seq<char>, bg: Seq<char>)
    requires
        s.len() > 0,
        !reset_at(s),
    ensures
        !reset_at(with_background(s, bg)),
{
    reveal_with_fuel(with_background, 5);
    let out = with_background(s, bg);
    if reset_at(out) {
        let a = s.drop_first();
        assert(out.drop_first() =~= with_background(a, bg));
        assert(out[1] == with_background(a, bg)[0]);
        assert(a.len() > 0 && a[0] == '[');
        let b = a.drop_first();
        assert(with_background(a, bg).drop_first() =~= with_background(b, bg));
        assert(out[2] == with_background(b, bg)[0]);
        assert(b.len() > 0 && b[0] == '0');
        let c = b.drop_first();
        assert(with_background(b, bg).drop_first() =~= with_background(c, bg));
        assert(out[3] == with_background(c, bg)[0]);
        assert(c.len() > 0 && c[0] == 'm');
        assert(s[0] == ESCAPE && s[1] == a[0] && s[2] == b[0] && s[3] == c[0]);
    }
}

/// Taking out what was put after every reset gives the text back.
pub proof fn background_can_be_taken_out(s: Seq<char>, bg: Seq<char>)
    ensures
        without_background(with_background(s, bg), bg) == s,
    decreases s.len(),
{
    let out = with_background(s, bg);
    if s.len() == 0 {
        assert(without_background(out, bg) =~= s);
    } else if reset_at(s) {
        let rest = with_background(s.skip(4), bg);
        background_can_be_taken_out(s.skip(4), bg);
        assert(out[0] == s[0] && out[1] == s[1] && out[2] == s[2] && out[3] == s[3]);
        assert(out.skip(4) =~= bg + rest);
        assert(out.skip(4).subrange(0, bg.len() as int) =~= bg);
        assert(out.skip(4 + bg.len() as int) =~= rest);
        assert(out.take(4) =~= s.take(4));
        assert(s =~= s.take(4) + s.skip(4));
    } else {
        background_adds_no_reset(s, bg);
        background_can_be_taken_out(s.drop_first(), bg);
        assert(out[0] == s[0]);
        assert(out.drop_first() =~= with_background(s.drop_first(), bg));
        assert(s =~= seq![s[0]] + s.drop_first());
    }
}

// ── Rendering ───────────────────────────────────────────────────────────────

/// One row of the list: the row of the cursor on the highlight background, or any other
/// row with the blanks that follow it after a reset.
#[derive(Debug)]
pub enum Row {
    Cursor { text: String },
    Plain { text: String, pad: String },
}

/// What stands between the title and the footer.
#[derive(Debug)]
pub enum Body {
    Message(String),
    Rows(Vec<Row>),
}

/// The style of the footer; `Prompt` is bold and reversed.
#[derive(Clone, Copy, Debug, PartialEq, Eq, Structural)]
pub enum FooterStyle {
    Plain,
    Dim,
    Prompt,
}

/// What the picker shows: the title in row 0, the body from row 1, the footer in the row
/// `footer_row`, and a caret in a column of the footer if there is one.
#[derive(Debug)]
pub struct Frame {
    pub title: String,
    pub body: Body,
    pub footer_style: FooterStyle,
    pub footer: String,
    pub footer_row: usize,
    pub caret: Option<usize>,
}

/// Reserve 1 row for the title and 1 row for the footer.
pub fn viewport_height(rows: usize) -> (r: usize)
    ensures
        r == (if rows <= 2 {
            1
        } else {
            rows - 2
        }),
{
    if rows <= 2 {
        1
    } else {
        rows - 2
    }
}

/// `a - b`, or zero if that is negative.
pub open spec fn less(a: int, b: int) -> int {
    if a <= b {
        0
    } else {
        a - b
    }
}

/// `n` blanks.
pub open spec fn blanks(n: int) -> Seq<char> {
    Seq::new(n as nat, |i: int| ' ')
}

fn spaces(n: usize) -> (r: String)
    ensures
        r@ == blanks(n as int),
{
    let mut out = String::new();
    let mut i: usize = 0;
    while i < n
        invariant
            i <= n,
            out@ == blanks(i as int),
        decreases n - i,
    {
        out.push(' ');
        i = i + 1;
    }
    out
}

impl Picker {
    /// What stands before an item: an arrow at the cursor, and the mark of the item.
    pub open spec fn row_prefix(self, i: int) -> Seq<char> {
        (if i == self.cursor {
            ">"@
        } else {
            " "@
        }) + " "@ + (if self.selected[self.filtered[i] as int] {
            "[x]"@
        } else {
            "[ ]"@
        }) + " "@
    }

    /// The item in place `i` of the list, cut to what the prefix leaves of `cols` columns.
    pub open spec fn row_body(self, i: int, cols: int) -> Seq<char> {
        cut(
            self.items[self.filtered[i] as int].display@,
            less(cols, self.row_prefix(i).len() as int) as nat,
        )
    }

    /// The blanks that fill a row up to `cols` columns.
    pub open spec fn row_pad(self, i: int, cols: int) -> Seq<char> {
        blanks(
            less(cols, (self.row_prefix(i).len() + width(self.row_body(i, cols))) as int),
        )
    }

    /// `row` shows the place `i` of the list in `cols` columns.
    pub open spec fn is_row(self, i: int, cols: int, row: Row) -> bool {
        let (prefix, body, blank) = (
            self.row_prefix(i),
            self.row_body(i, cols),
            self.row_pad(i, cols),
        );
        if i == self.cursor {
            row matches Row::Cursor { text } && text@ == HIGHLIGHT_BG@ + with_background(
                prefix + body + blank,
                HIGHLIGHT_BG@,
            )
        } else {
            row matches Row::Plain { text, pad } && text@ == prefix + body && pad@ == blank
        }
    }

    /// What stands in an empty list.
    pub open spec fn empty_message(self) -> Seq<char> {
        if self.query.len() == 0 {
            "(no items)"@
        } else {
            "No matches for '"@ + self.query + "'"@
        }
    }

    /// How many rows of the list a viewport shows.
    pub open spec fn rows_shown(self, viewport: int) -> int {
        if less(self.filtered.len() as int, self.offset) <= viewport {
            less(self.filtered.len() as int, self.offset)
        } else {
            viewport
        }
    }

    /// `body` shows the part of the list in the viewport, or that the list is empty.
    pub open spec fn is_body(self, cols: int, viewport: int, body: Body) -> bool {
        if self.filtered.len() == 0 {
            body matches Body::Message(text) && text@ == cut(self.empty_message(), cols as nat)
        } else {
            &&& body matches Body::Rows(rows)
            &&& rows@.len() == self.rows_shown(viewport)
            &&& forall|i: int|
                0 <= i < rows@.len() ==> self.is_row(self.offset + i, cols, #[trigger] rows@[i])
        }
    }

    /// The text of the footer before it is cut.
    pub open spec fn footer_text(self) -> Seq<char> {
        match self.mode {
            Mode::Search => "/"@ + self.query,
            Mode::Select => {
                let count = decimal(count_true(self.selected)) + " selected"@;
                let keys = "j/k:nav  space:select  enter:confirm  /:search  esc:clear  ctrl-c:cancel"@;
                joined(
                    if self.query.len() == 0 {
                        seq![count, keys]
                    } else {
                        seq![count, "filter: "@ + self.query, keys]
                    },
                    "  |  "@,
                )
            },
            Mode::Confirm => "Remove "@ + decimal(self.pending()) + " "@ + (if self.pending() == 1 {
                "session"@
            } else {
                "sessions"@
            }) + "? Press [y] to confirm, any other key to go back, ctrl-c to cancel"@,
        }
    }

    /// The style of the footer.
    pub open spec fn footer_style(self) -> FooterStyle {
        match self.mode {
            Mode::Search => FooterStyle::Plain,
            Mode::Select => FooterStyle::Dim,
            Mode::Confirm => FooterStyle::Prompt,
        }
    }

    /// The column of the caret: behind the query in search mode, else none.
    pub open spec fn caret(self, cols: int) -> Option<int> {
        match self.mode {
            Mode::Search => Some(
                if 1 + self.query.len() <= less(cols, 1) {
                    1 + self.query.len() as int
                } else {
                    less(cols, 1)
                },
            ),
            _ => None,
        }
    }
}

fn render_row(state: &PickerState, i: usize, cols: usize) -> (r: Row)
    requires
        state@.wf(),
        i < state.filtered@.len(),
    ensures
        state@.is_row(i as int, cols as int, r),
{
    assert(state@.filtered[i as int] < state@.items.len());
    let at = state.filtered[i];
    let is_cursor = i == state.cursor;
    let arrow = if is_cursor {
        ">"
    } else {
        " "
    };
    let mark = if state.selected[at] {
        "[x]"
    } else {
        "[ ]"
    };
    let prefix = cat2(&cat3(arrow, " ", mark), " ");
    let taken = to_chars(&prefix).len();
    let budget: usize = if cols <= taken {
        0
    } else {
        cols - taken
    };
    let body = visible_truncate(&state.items[at].display, budget);
    let shown = visible_width(&body);
    proof {
        truncation_has_width(state@.items[at as int].display@, budget as nat);
    }
    let pad = spaces(
        if cols <= taken || cols - taken <= shown {
            0
        } else {
            cols - taken - shown
        },
    );
    if is_cursor {
        let raw = cat3(&prefix, &body, &pad);
        Row::Cursor { text: cat2(HIGHLIGHT_BG, &apply_background(&raw, HIGHLIGHT_BG)) }
    } else {
        Row::Plain { text: cat2(&prefix, &body), pad }
    }
}

/// The text and the style of the footer.
pub fn render_footer(state: &PickerState, cols: usize) -> (r: (FooterStyle, String))
    ensures
        r.0 == state@.footer_style(),
        r.1@ == cut(state@.footer_text(), cols as nat),
{
    match state.mode {
        Mode::Search => (
            FooterStyle::Plain,
            visible_truncate(&cat2("/", &state.query), cols),
        ),
        Mode::Select => {
            let mut parts: Vec<String> = Vec::new();
            parts.push(cat2(&to_decimal(state.selected_count() as u64), " selected"));
            if !state.query.as_str().is_empty() {
                parts.push(cat2("filter: ", &state.query));
            }
            parts.push(
                "j/k:nav  space:select  enter:confirm  /:search  esc:clear  ctrl-c:cancel".to_string(),
            );
            proof {
                let count = decimal(count_true(state.selected@)) + " selected"@;
                let keys = "j/k:nav  space:select  enter:confirm  /:search  esc:clear  ctrl-c:cancel"@;
                if state.query@.len() == 0 {
                    assert(texts(parts@) =~= seq![count, keys]);
                } else {
                    assert(texts(parts@) =~= seq![count, "filter: "@ + state.query@, keys]);
                }
            }
            (FooterStyle::Dim, visible_truncate(&join(&parts, "  |  "), cols))
        },
        Mode::Confirm => {
            let count = pending_remove_count(state);
            let noun = if count == 1 {
                "session"
            } else {
                "sessions"
            };
            let prompt = cat5(
                "Remove ",
                &to_decimal(count as u64),
                " ",
                noun,
                "? Press [y] to confirm, any other key to go back, ctrl-c to cancel",
            );
            (FooterStyle::Prompt, visible_truncate(&prompt, cols))
        },
    }
}

/// What the picker shows on a terminal of `cols` columns and `rows` rows, of which
/// `viewport` are for the list.
pub fn render(state: &PickerState, cols: usize, rows: usize, viewport: usize) -> (r: Frame)
    requires
        state@.wf(),
    ensures
        r.title@ == cut(state.title@, cols as nat),
        state@.is_body(cols as int, viewport as int, r.body),
        r.footer_style == state@.footer_style(),
        r.footer@ == cut(state@.footer_text(), cols as nat),
        r.footer_row == less(rows as int, 1),
        match r.caret {
            Some(col) => state@.caret(cols as int) == Some(col as int),
            None => state@.caret(cols as int) is None,
        },
{
    let title = visible_truncate(&state.title, cols);
    let n = state.filtered.len();
    let body = if n == 0 {
        let text = if state.query.as_str().is_empty() {
            "(no items)".to_string()
        } else {
            cat3("No matches for '", &state.query, "'")
        };
        Body::Message(visible_truncate(&text, cols))
    } else {
        let left: usize = if n <= state.offset {
            0
        } else {
            n - state.offset
        };
        let count: usize = if left <= viewport {
            left
        } else {
            viewport
        };
        let mut list: Vec<Row> = Vec::new();
        let mut i: usize = 0;
        while i < count
            invariant
                i <= count,
                count > 0 ==> state.offset + count <= n,
                n == state.filtered@.len(),
                state@.wf(),
                list@.len() == i,
                forall|j: int|
                    0 <= j < i ==> state@.is_row(
                        state@.offset + j,
                        cols as int,
                        #[trigger] list@[j],
                    ),
            decreases count - i,
        {
            list.push(render_row(state, state.offset + i, cols));
            i = i + 1;
        }
        Body::Rows(list)
    };
    let (footer_style, footer) = render_footer(state, cols);
    let limit: usize = if cols == 0 {
        0
    } else {
        cols - 1
    };
    let caret = match state.mode {
        Mode::Search => {
            let len = to_chars(&state.query).len();
            Some(
                if len >= limit {
                    limit
                } else {
                    len + 1
                },
            )
        },
        _ => None,
    };
    let footer_row: usize = if rows == 0 {
        0
    } else {
        rows - 1
    };
    Frame { title, body, footer_style, footer, footer_row, caret }
}

// ── Laws ────────────────────────────────────────────────────────────────────

proof fn place_is_in_list(items: Seq<Item>, filtered: Seq<usize>, key: Seq<char>, from: int)
    requires
        0 <= from,
    ensures
        0 <= place_of(items, filtered, key, from),
        place_of(items, filtered, key, from) < filtered.len() || place_of(
            items,
            filtered,
            key,
            from,
        ) == 0,
    decreases filtered.len() - from,
{
    if from < filtered.len() && items[filtered[from] as int].key@ != key {
        place_is_in_list(items, filtered, key, from + 1);
    }
}

proof fn matching_is_sound(items: Seq<Item>, query: Seq<char>, show_hidden: bool)
    requires
        items.len() <= usize::MAX,
    ensures
        forall|j: int|
            0 <= j < matching(items, query, show_hidden).len() ==> (#[trigger] matching(
                items,
                query,
                show_hidden,
            )[j]) < items.len() && matches_query(
                items[matching(items, query, show_hidden)[j] as int],
                query,
                show_hidden,
            ),
        forall|j: int, k: int|
            0 <= j < k < matching(items, query, show_hidden).len() ==> matching(
                items,
                query,
                show_hidden,
            )[j] < matching(items, query, show_hidden)[k],
    decreases items.len(),
{
    if items.len() > 0 {
        matching_is_sound(items.drop_last(), query, show_hidden);
        let before = matching(items.drop_last(), query, show_hidden);
        let all = matching(items, query, show_hidden);
        assert forall|j: int| 0 <= j < all.len() implies (#[trigger] all[j]) < items.len()
            && matches_query(items[all[j] as int], query, show_hidden) by {
            if j < before.len() {
                assert(before[j] < items.drop_last().len());
                assert(items.drop_last()[before[j] as int] == items[all[j] as int]);
            }
        }
        assert forall|j: int, k: int| 0 <= j < k < all.len() implies all[j] < all[k] by {
            if k < before.len() {
                assert(before[j] < before[k]);
            } else {
                assert(before[j] < items.drop_last().len());
            }
        }
    }
}

proof fn matching_is_complete(items: Seq<Item>, query: Seq<char>, show_hidden: bool, i: int)
    requires
        items.len() <= usize::MAX,
        0 <= i < items.len(),
        matches_query(items[i], query, show_hidden),
    ensures
        matching(items, query, show_hidden).contains(i as usize),
    decreases items.len(),
{
    let all = matching(items, query, show_hidden);
    if i == items.len() - 1 {
        assert(all.last() == i as usize);
        assert(all[all.len() - 1] == i as usize);
    } else {
        matching_is_complete(items.drop_last(), query, show_hidden, i);
        let before = matching(items.drop_last(), query, show_hidden);
        let k = before.index_of(i as usize);
        assert(all[k] == i as usize);
    }
}

/// An item is in the list exactly if it matches the query and is not hidden, unless hidden
/// items are shown; the list keeps the order of the items.
pub proof fn list_holds_the_matching_items(
    items: Seq<Item>,
    query: Seq<char>,
    show_hidden: bool,
    i: int,
)
    requires
        items.len() <= usize::MAX,
        0 <= i < items.len(),
    ensures
        matching(items, query, show_hidden).contains(i as usize) <==> matches_query(
            items[i],
            query,
            show_hidden,
        ),
        forall|j: int, k: int|
            0 <= j < k < matching(items, query, show_hidden).len() ==> matching(
                items,
                query,
                show_hidden,
            )[j] < matching(items, query, show_hidden)[k],
{
    matching_is_sound(items, query, show_hidden);
    let all = matching(items, query, show_hidden);
    if all.contains(i as usize) {
        let k = all.index_of(i as usize);
        assert(all[k] == i as usize);
    }
    if matches_query(items[i], query, show_hidden) {
        matching_is_complete(items, query, show_hidden, i);
    }
}

/// Every key leaves a picker in order: the marks fit the items, the list is what the query
/// asks for, and the cursor is on an item of the list or at the top of an empty one.
pub proof fn keys_keep_the_picker_in_order(p: Picker, key: KeyEvent)
    requires
        p.wf(),
        p.placed(),
        p.up_to_date(),
        p.items.len() <= usize::MAX,
    ensures
        p.pressed(key).0.wf(),
        p.pressed(key).0.placed(),
        p.pressed(key).0.up_to_date(),
        p.pressed(key).0.items == p.items,
{
    let q = p.pressed(key).0;
    matching_is_sound(q.items, q.query, q.show_hidden);
    if p.cursor < p.filtered.len() {
        place_is_in_list(q.items, q.filtered, p.items[p.filtered[p.cursor] as int].key@, 0);
    }
}

/// Selections are preserved across filter changes and movement: only the space bar in
/// select mode changes them, and it changes the mark of the highlighted item alone.
pub proof fn only_space_selects(p: Picker, key: KeyEvent)
    requires
        p.wf(),
        p.placed(),
    ensures
        !(p.mode is Select && key.code == KeyCode::Char(' ')) ==> p.pressed(key).0.selected
            == p.selected,
        forall|i: int|
            0 <= i < p.selected.len() && !(p.cursor < p.filtered.len() && i
                == p.filtered[p.cursor]) ==> #[trigger] p.pressed(key).0.selected[i]
                == p.selected[i],
{
}

/// The picker ends with a confirmation exactly where `y` answers the prompt, and is
/// cancelled exactly by Ctrl-C. In particular Enter never ends it.
pub proof fn only_y_confirms(p: Picker, key: KeyEvent)
    ensures
        p.pressed(key).1 == Some(Outcome::Confirm) <==> p.mode is Confirm && !ctrl_c(key) && (
        key.code == KeyCode::Char('y') || key.code == KeyCode::Char('Y')),
        p.pressed(key).1 == Some(Outcome::Cancel) <==> ctrl_c(key),
        key.code == KeyCode::Enter ==> p.pressed(key).1 is None,
{
}

/// The prompt is reached only by Enter in select mode with something to confirm, and any
/// key but `y` and Ctrl-C leads back from it to select mode with everything else unchanged.
pub proof fn prompt_is_left_unless_confirmed(p: Picker, key: KeyEvent)
    ensures
        p.mode !is Confirm && p.pressed(key).0.mode is Confirm ==> p.mode is Select && key.code
            == KeyCode::Enter && p.confirmable(),
        p.mode is Confirm && p.pressed(key).1 is None ==> p.pressed(key).0 == (Picker {
            mode: Mode::Select,
            ..p
        }),
{
}

proof fn chosen_counts(items: Seq<Item>, selected: Seq<bool>)
    requires
        items.len() <= selected.len(),
    ensures
        chosen(items, selected).len() == count_true(selected.take(items.len() as int)),
    decreases items.len(),
{
    if items.len() > 0 {
        chosen_counts(items.drop_last(), selected);
        assert(selected.take(items.len() as int).drop_last() =~= selected.take(items.len() - 1));
    }
}

/// The number in the prompt is the number of sessions that confirming removes, and it is
/// not zero where there is something to confirm.
pub proof fn prompt_counts_what_is_confirmed(p: Picker)
    requires
        p.wf(),
        p.placed(),
    ensures
        p.confirmed().len() == p.pending(),
        p.confirmable() <==> p.pending() > 0,
{
    chosen_counts(p.items, p.selected);
    assert(p.selected.take(p.items.len() as int) =~= p.selected);
}

/// After scrolling, the row of the cursor is in the viewport.
pub proof fn cursor_is_visible(p: Picker, viewport: int)
    requires
        viewport > 0,
        p.placed(),
        p.filtered.len() > 0,
    ensures
        p.scrolled(viewport).offset <= p.cursor < p.scrolled(viewport).offset + viewport,
{
}

/// The parts of a row together are as wide as the terminal, unless that is too narrow for
/// the marks.
pub proof fn rows_fill_the_terminal(p: Picker, i: int, cols: int)
    requires
        p.row_prefix(i).len() <= cols,
    ensures
        p.row_prefix(i).len() + width(p.row_body(i, cols)) + p.row_pad(i, cols).len() == cols,
{
    truncation_has_width(
        p.items[p.filtered[i] as int].display@,
        less(cols, p.row_prefix(i).len() as int) as nat,
    );
}

} // verus!
