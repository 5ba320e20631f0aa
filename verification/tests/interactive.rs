use csm::interactive::{
    apply_background, handle_confirm_key, handle_key, handle_search_key, handle_select_key,
    is_ctrl_c, pending_remove_count, render, render_footer, viewport_height, visible_truncate,
    visible_width, Body, ConfirmAction, FooterStyle, Item, KeyCode, KeyEvent, Mode, Outcome,
    PickerState, Row, SelectAction,
};

fn item(key: &str, search: &str) -> Item {
    Item {
        key: key.to_string(),
        display: key.to_string(),
        search_text: search.to_string(),
        hidden: false,
    }
}

fn build(keys: &[(&str, &str)]) -> PickerState {
    let items = keys.iter().map(|(k, s)| item(k, s)).collect();
    PickerState::new(items, "test".to_string())
}

#[test]
fn fresh_state_starts_at_top_with_no_selection() {
    let s = build(&[("a", "aa"), ("b", "bb"), ("c", "cc")]);
    assert_eq!(s.cursor, 0);
    assert_eq!(s.offset, 0);
    assert_eq!(s.selected_count(), 0);
    assert_eq!(s.filtered, vec![0, 1, 2]);
}

#[test]
fn cursor_clamps_at_bounds() {
    let mut s = build(&[("a", ""), ("b", ""), ("c", "")]);
    s.move_cursor(-5);
    assert_eq!(s.cursor, 0);
    s.move_cursor(99);
    assert_eq!(s.cursor, 2);
    s.move_cursor(99);
    assert_eq!(s.cursor, 2);
}

#[test]
fn jump_top_and_bottom() {
    let mut s = build(&[("a", ""), ("b", ""), ("c", "")]);
    s.jump_bottom();
    assert_eq!(s.cursor, 2);
    s.jump_top();
    assert_eq!(s.cursor, 0);
}

#[test]
fn jump_bottom_on_empty_filter_does_not_panic() {
    let mut s = build(&[("a", "alpha")]);
    s.query = "zzz".into();
    s.refilter();
    assert!(s.filtered.is_empty());
    s.jump_bottom();
    assert_eq!(s.cursor, 0);
}

#[test]
fn filter_is_case_insensitive_substring() {
    let mut s = build(&[("a", "Alpha"), ("b", "Bravo"), ("c", "alphabet")]);
    s.query = "ALPHA".into();
    s.refilter();
    assert_eq!(s.filtered, vec![0, 2]);
}

#[test]
fn refilter_keeps_cursor_on_same_item_when_visible() {
    let mut s = build(&[("a", "alpha"), ("b", "bravo"), ("c", "alphabet")]);
    s.cursor = 2; // "alphabet"
    s.query = "alpha".into();
    s.refilter();
    // filtered now [0, 2], cursor should land on filtered index of item 2 (=> 1).
    assert_eq!(s.filtered, vec![0, 2]);
    assert_eq!(s.cursor, 1);
}

#[test]
fn refilter_clamps_cursor_when_item_disappears() {
    let mut s = build(&[("a", "alpha"), ("b", "bravo"), ("c", "alphabet")]);
    s.cursor = 1; // "bravo"
    s.query = "alpha".into();
    s.refilter();
    assert_eq!(s.filtered, vec![0, 2]);
    assert_eq!(s.cursor, 0);
}

#[test]
fn toggle_selection_marks_underlying_item() {
    let mut s = build(&[("a", ""), ("b", ""), ("c", "")]);
    s.cursor = 1;
    s.toggle_selection_at_cursor();
    assert!(s.selected[1]);
    assert_eq!(s.selected_count(), 1);
    s.toggle_selection_at_cursor();
    assert!(!s.selected[1]);
}

#[test]
fn toggle_with_empty_filter_is_noop() {
    let mut s = build(&[("a", "alpha")]);
    s.query = "zzz".into();
    s.refilter();
    s.toggle_selection_at_cursor();
    assert_eq!(s.selected_count(), 0);
}

#[test]
fn confirmed_keys_returns_selected_in_input_order() {
    let mut s = build(&[("a", ""), ("b", ""), ("c", ""), ("d", "")]);
    s.selected[2] = true;
    s.selected[0] = true;
    assert_eq!(s.confirmed_keys(), vec!["a".to_string(), "c".to_string()]);
}

#[test]
fn confirmed_keys_falls_back_to_cursor_when_nothing_selected() {
    let mut s = build(&[("a", ""), ("b", ""), ("c", "")]);
    s.cursor = 1;
    assert_eq!(s.confirmed_keys(), vec!["b".to_string()]);
}

#[test]
fn confirmed_keys_returns_hidden_selections_too() {
    // Select an item, then filter so it's not visible. Selection should
    // still be honored on confirm.
    let mut s = build(&[("a", "alpha"), ("b", "bravo")]);
    s.cursor = 1;
    s.toggle_selection_at_cursor(); // select "b"
    assert!(s.selected[1]);
    s.query = "alpha".into();
    s.refilter();
    assert_eq!(s.filtered, vec![0]);
    // confirmed_keys returns the hidden "b" — not the cursor item.
    assert_eq!(s.confirmed_keys(), vec!["b".to_string()]);
}

#[test]
fn confirmed_keys_empty_when_no_selection_and_no_visible_item() {
    let mut s = build(&[("a", "alpha")]);
    s.query = "zzz".into();
    s.refilter();
    assert!(s.confirmed_keys().is_empty());
    assert!(!s.can_confirm());
}

#[test]
fn ensure_cursor_visible_scrolls_offset() {
    let mut s = build(&[
        ("a", ""), ("b", ""), ("c", ""), ("d", ""), ("e", ""),
    ]);
    // Viewport of 2: cursor at 4 should set offset to 3.
    s.cursor = 4;
    s.ensure_cursor_visible(2);
    assert_eq!(s.offset, 3);
    // Scrolling up to cursor 0 should set offset to 0.
    s.cursor = 0;
    s.ensure_cursor_visible(2);
    assert_eq!(s.offset, 0);
}

#[test]
fn truncate_handles_multibyte_chars() {
    // Each emoji is multi-byte; truncate by char count, not byte count.
    let s = "ᎯᎰᏂᏃᏄ";
    assert_eq!(visible_truncate(s, 3).chars().count(), 3);
}

// ── ANSI helpers ────────────────────────────────────────────────────────

#[test]
fn visible_width_ignores_csi() {
    assert_eq!(visible_width("\x1b[31mhello\x1b[0m"), 5);
    assert_eq!(visible_width("hi"), 2);
    assert_eq!(visible_width(""), 0);
}

#[test]
fn visible_truncate_preserves_escape_sequences() {
    let s = "\x1b[31mhello\x1b[0m world";
    let out = visible_truncate(s, 7);
    assert_eq!(visible_width(&out), 7);
    // Color codes survived.
    assert!(out.contains("\x1b[31m"));
    assert!(out.contains("\x1b[0m"));
}

#[test]
fn visible_truncate_zero_budget() {
    assert_eq!(visible_truncate("\x1b[31mhi", 0), "");
}

#[test]
fn apply_background_inserts_after_each_reset() {
    // After every \x1b[0m the bg sequence is re-emitted so the highlight
    // bg sticks across inline resets in the colored row.
    let bg = "\x1b[100m";
    let s = "\x1b[31mhi\x1b[0m there \x1b[32my\x1b[0m";
    let out = apply_background(s, bg);
    assert_eq!(out, "\x1b[31mhi\x1b[0m\x1b[100m there \x1b[32my\x1b[0m\x1b[100m");
}

#[test]
fn apply_background_passthrough_when_no_resets() {
    assert_eq!(apply_background("plain", "\x1b[100m"), "plain");
    assert_eq!(apply_background("", "\x1b[100m"), "");
}

#[test]
fn apply_background_does_not_affect_visible_width() {
    let bg = "\x1b[100m";
    let s = "\x1b[31mhello\x1b[0m world";
    let with_bg = apply_background(s, bg);
    assert_eq!(visible_width(&with_bg), visible_width(s));
}

// ── State transitions for new behaviour ──────────────────────────────────

fn key(code: KeyCode) -> KeyEvent {
    KeyEvent { code, control: false }
}

fn ctrl_key(code: KeyCode) -> KeyEvent {
    KeyEvent { code, control: true }
}

#[test]
fn esc_in_select_mode_clears_query() {
    let mut s = build(&[("a", "alpha"), ("b", "bravo")]);
    s.query = "alp".into();
    s.refilter();
    assert_eq!(s.filtered.len(), 1);
    let action = handle_select_key(&mut s, key(KeyCode::Esc));
    assert!(matches!(action, SelectAction::Continue));
    assert_eq!(s.mode, Mode::Select);
    assert!(s.query.is_empty());
    assert_eq!(s.filtered.len(), 2);
}

#[test]
fn esc_in_select_mode_with_empty_query_is_noop() {
    let mut s = build(&[("a", "")]);
    let action = handle_select_key(&mut s, key(KeyCode::Esc));
    assert!(matches!(action, SelectAction::Continue));
    assert_eq!(s.mode, Mode::Select);
}

#[test]
fn esc_in_search_mode_still_clears_and_returns_to_select() {
    let mut s = build(&[("a", "alpha"), ("b", "bravo")]);
    s.mode = Mode::Search;
    s.query = "alp".into();
    s.refilter();
    handle_search_key(&mut s, key(KeyCode::Esc));
    assert_eq!(s.mode, Mode::Select);
    assert!(s.query.is_empty());
    assert_eq!(s.filtered.len(), 2);
}

#[test]
fn enter_in_select_mode_transitions_to_confirm() {
    let mut s = build(&[("a", ""), ("b", "")]);
    let action = handle_select_key(&mut s, key(KeyCode::Enter));
    assert!(matches!(action, SelectAction::EnterConfirm));
}

#[test]
fn enter_in_select_mode_does_nothing_when_not_confirmable() {
    let mut s = build(&[("a", "alpha")]);
    s.query = "zzz".into();
    s.refilter();
    // No matches and no selections — Enter should NOT transition.
    let action = handle_select_key(&mut s, key(KeyCode::Enter));
    assert!(matches!(action, SelectAction::Continue));
}

#[test]
fn confirm_y_confirms() {
    assert!(matches!(
        handle_confirm_key(key(KeyCode::Char('y'))),
        ConfirmAction::Confirmed
    ));
    assert!(matches!(
        handle_confirm_key(key(KeyCode::Char('Y'))),
        ConfirmAction::Confirmed
    ));
}

#[test]
fn confirm_other_keys_bounce_back() {
    // The whole point of the dialog is that a stray Enter or N does NOT
    // confirm — it goes back to select.
    for c in [
        key(KeyCode::Enter),
        key(KeyCode::Char('n')),
        key(KeyCode::Char('N')),
        key(KeyCode::Esc),
        key(KeyCode::Char(' ')),
        key(KeyCode::Char('j')),
    ] {
        assert!(matches!(handle_confirm_key(c), ConfirmAction::BackToSelect));
    }
}

#[test]
fn ctrl_c_is_detected() {
    assert!(is_ctrl_c(&ctrl_key(KeyCode::Char('c'))));
    assert!(is_ctrl_c(&ctrl_key(KeyCode::Char('C'))));
    assert!(!is_ctrl_c(&key(KeyCode::Char('c'))));
    assert!(!is_ctrl_c(&ctrl_key(KeyCode::Char('x'))));
}

#[test]
fn pending_remove_count_reflects_state() {
    let mut s = build(&[("a", ""), ("b", ""), ("c", "")]);
    assert_eq!(pending_remove_count(&s), 1); // cursor fallback
    s.selected[0] = true;
    s.selected[2] = true;
    assert_eq!(pending_remove_count(&s), 2);
    // Filter to nothing with no selections cleared - selections still count.
    s.query = "zzz".into();
    s.refilter();
    assert_eq!(pending_remove_count(&s), 2);
    // Now clear selections AND filter.
    s.selected = vec![false; 3];
    assert_eq!(pending_remove_count(&s), 0);
}

// ── Behaviour of the whole picker ───────────────────────────────────────────

fn hidden_item(key: &str) -> Item {
    Item {
        key: key.to_string(),
        display: key.to_string(),
        search_text: key.to_string(),
        hidden: true,
    }
}

#[test]
fn hidden_items_are_toggled_with_a() {
    let mut s = PickerState::new(
        vec![item("a", "a"), hidden_item("b"), item("c", "c")],
        "t".to_string(),
    );
    assert_eq!(s.filtered, vec![0, 2]);
    s.cursor = 1;
    handle_select_key(&mut s, key(KeyCode::Char('a')));
    assert_eq!(s.filtered, vec![0, 1, 2]);
    assert_eq!(s.cursor, 2);
    s.cursor = 1;
    s.toggle_selection_at_cursor();
    handle_select_key(&mut s, key(KeyCode::Char('a')));
    assert_eq!(s.filtered, vec![0, 2]);
    assert_eq!(s.cursor, 0);
    assert_eq!(s.confirmed_keys(), vec!["b".to_string()]);
}

#[test]
fn keys_move_the_cursor() {
    let keys: Vec<String> = (0..25).map(|i| i.to_string()).collect();
    let items = keys.iter().map(|k| item(k, k)).collect();
    let mut s = PickerState::new(items, "t".to_string());
    for (code, at) in [
        (KeyCode::Char('j'), 1),
        (KeyCode::Down, 2),
        (KeyCode::Char('k'), 1),
        (KeyCode::Up, 0),
        (KeyCode::Up, 0),
        (KeyCode::PageDown, 10),
        (KeyCode::PageDown, 20),
        (KeyCode::PageDown, 24),
        (KeyCode::PageUp, 14),
        (KeyCode::Char('g'), 0),
        (KeyCode::Char('G'), 24),
        (KeyCode::Home, 0),
        (KeyCode::End, 24),
        (KeyCode::Other, 24),
    ] {
        assert_eq!(handle_key(&mut s, key(code)), None);
        assert_eq!(s.cursor, at, "{code:?}");
    }
    s.move_cursor(isize::MIN);
    assert_eq!(s.cursor, 0);
    s.move_cursor(isize::MAX);
    assert_eq!(s.cursor, 24);
}

#[test]
fn search_confirm_and_removal() {
    let mut s = build(&[("a", "alpha"), ("b", "bravo"), ("c", "beta")]);
    for (code, outcome) in [
        (KeyCode::Char('/'), None),
        (KeyCode::Char('b'), None),
        (KeyCode::Char('x'), None),
        (KeyCode::Backspace, None),
        (KeyCode::Enter, None),
    ] {
        assert_eq!(handle_key(&mut s, key(code)), outcome);
    }
    assert_eq!(s.mode, Mode::Select);
    assert_eq!(s.query, "b");
    assert_eq!(s.filtered, vec![1, 2]);
    // A second Enter asks, a third one goes back.
    assert_eq!(handle_key(&mut s, key(KeyCode::Enter)), None);
    assert_eq!(s.mode, Mode::Confirm);
    assert_eq!(handle_key(&mut s, key(KeyCode::Enter)), None);
    assert_eq!(s.mode, Mode::Select);
    handle_key(&mut s, key(KeyCode::Char(' ')));
    handle_key(&mut s, key(KeyCode::Esc));
    assert_eq!(s.filtered.len(), 3);
    handle_key(&mut s, key(KeyCode::Enter));
    assert_eq!(handle_key(&mut s, key(KeyCode::Char('y'))), Some(Outcome::Confirm));
    assert_eq!(s.confirmed_keys(), vec!["b".to_string()]);
    assert_eq!(pending_remove_count(&s), s.confirmed_keys().len());
}

#[test]
fn ctrl_c_cancels_in_every_mode() {
    for mode in [Mode::Select, Mode::Search, Mode::Confirm] {
        let mut s = build(&[("a", "")]);
        s.mode = mode;
        assert_eq!(handle_key(&mut s, ctrl_key(KeyCode::Char('c'))), Some(Outcome::Cancel));
    }
}

#[test]
fn control_keys_do_not_type() {
    let mut s = build(&[("a", "alpha")]);
    s.mode = Mode::Search;
    handle_search_key(&mut s, ctrl_key(KeyCode::Char('x')));
    assert!(s.query.is_empty());
    handle_search_key(&mut s, key(KeyCode::Backspace));
    assert!(s.query.is_empty());
    handle_search_key(&mut s, key(KeyCode::Other));
    assert_eq!(s.mode, Mode::Search);
}

#[test]
fn filter_compares_unicode_in_lower_case() {
    let mut s = build(&[("a", "\u{c4}PFEL"), ("b", "apfel")]);
    s.query = "\u{e4}p".into();
    s.refilter();
    assert_eq!(s.filtered, vec![0]);
}

// ── Rendering ───────────────────────────────────────────────────────────────

#[test]
fn viewport_leaves_room_for_title_and_footer() {
    assert_eq!(viewport_height(24), 22);
    assert_eq!(viewport_height(3), 1);
    assert_eq!(viewport_height(2), 1);
    assert_eq!(viewport_height(0), 1);
}

#[test]
fn frame_shows_marks_and_cursor() {
    let mut s = build(&[("alpha", "alpha"), ("bravo", "bravo")]);
    s.selected[1] = true;
    let frame = render(&s, 12, 5, 3);
    assert_eq!(frame.title, "test");
    assert_eq!(frame.footer_row, 4);
    assert_eq!(frame.footer_style, FooterStyle::Dim);
    assert_eq!(frame.caret, None);
    match frame.body {
        Body::Rows(rows) => {
            assert_eq!(rows.len(), 2);
            assert!(matches!(
                &rows[0],
                Row::Cursor { text } if text == "\x1b[100m> [ ] alpha "
            ));
            assert!(matches!(
                &rows[1],
                Row::Plain { text, pad } if text == "  [x] bravo" && pad == " "
            ));
        }
        Body::Message(_) => panic!("rows expected"),
    }
}

#[test]
fn frame_keeps_highlight_over_resets_and_cuts_rows() {
    let mut s = build(&[("k", "k")]);
    s.items[0].display = "\x1b[1mabcdef\x1b[0m tail".to_string();
    let frame = render(&s, 10, 4, 2);
    match frame.body {
        Body::Rows(rows) => assert!(matches!(
            &rows[0],
            Row::Cursor { text } if text == "\x1b[100m> [ ] \x1b[1mabcd"
        )),
        Body::Message(_) => panic!("rows expected"),
    }
    let frame = render(&s, 20, 4, 2);
    match frame.body {
        Body::Rows(rows) => assert!(matches!(
            &rows[0],
            Row::Cursor { text }
                if text == "\x1b[100m> [ ] \x1b[1mabcdef\x1b[0m\x1b[100m tail   "
        )),
        Body::Message(_) => panic!("rows expected"),
    }
    // Too narrow for anything but the marks.
    let frame = render(&s, 3, 4, 2);
    match frame.body {
        Body::Rows(rows) => assert!(matches!(
            &rows[0],
            Row::Cursor { text } if text == "\x1b[100m> [ ] "
        )),
        Body::Message(_) => panic!("rows expected"),
    }
}

#[test]
fn frame_scrolls() {
    let mut s = build(&[("a", ""), ("b", ""), ("c", ""), ("d", "")]);
    s.cursor = 3;
    s.ensure_cursor_visible(2);
    match render(&s, 20, 4, 2).body {
        Body::Rows(rows) => {
            assert_eq!(rows.len(), 2);
            assert!(matches!(&rows[0], Row::Plain { text, .. } if text == "  [ ] c"));
            assert!(matches!(&rows[1], Row::Cursor { .. }));
        }
        Body::Message(_) => panic!("rows expected"),
    }
}

#[test]
fn empty_lists_say_so() {
    let mut s = build(&[("a", "alpha")]);
    s.query = "zzz".into();
    s.refilter();
    assert!(matches!(
        render(&s, 40, 4, 2).body,
        Body::Message(text) if text == "No matches for 'zzz'"
    ));
    let s = PickerState::new(vec![hidden_item("h")], "t".to_string());
    assert!(matches!(render(&s, 4, 4, 2).body, Body::Message(text) if text == "(no "));
}

#[test]
fn footers_are_exact() {
    let mut s = build(&[("a", "alpha"), ("b", "bravo")]);
    let keys = "j/k:nav  space:select  enter:confirm  /:search  esc:clear  ctrl-c:cancel";
    assert_eq!(render_footer(&s, 200).1, format!("0 selected  |  {keys}"));
    s.query = "al".into();
    s.selected[0] = true;
    assert_eq!(render_footer(&s, 200).1, format!("1 selected  |  filter: al  |  {keys}"));
    s.mode = Mode::Confirm;
    let (style, text) = render_footer(&s, 200);
    assert_eq!(style, FooterStyle::Prompt);
    assert_eq!(
        text,
        "Remove 1 session? Press [y] to confirm, any other key to go back, ctrl-c to cancel"
    );
    s.selected[1] = true;
    assert!(render_footer(&s, 200).1.starts_with("Remove 2 sessions?"));
    s.mode = Mode::Search;
    let (style, text) = render_footer(&s, 2);
    assert_eq!(style, FooterStyle::Plain);
    assert_eq!(text, "/a");
    assert_eq!(render(&s, 80, 24, 22).caret, Some(3));
    assert_eq!(render(&s, 2, 24, 22).caret, Some(1));
    assert_eq!(render(&s, 0, 0, 1).caret, Some(0));
    assert_eq!(render(&s, 0, 0, 1).footer_row, 0);
}

#[test]
fn truncation_keeps_what_follows_the_last_character() {
    assert_eq!(visible_truncate("ab\x1b[0mc", 2), "ab\x1b[0m");
    assert_eq!(visible_truncate("a\x1bb", 2), "a\x1b");
    assert_eq!(visible_truncate("\x1b[3", 1), "\x1b[3");
    assert_eq!(visible_width("\x1b"), 1);
    assert_eq!(visible_width("\x1b[\x1b[0m"), 2);
    assert_eq!(
        visible_width(&apply_background("\x1b[\x1b[0mx", "\x1b[100m")),
        visible_width("\x1b[\x1b[0mx")
    );
}

#[test]
fn any_style_can_be_put_in_and_taken_out() {
    let text = "\x1b[0ma\x1b[1mb\x1b[0m\x1b[0mc\x1b[100m";
    for bg in ["\x1b[100m", "\x1b[1;31m", "\x1b[m", "\x1b[48;5;236m"] {
        let with_bg = apply_background(text, bg);
        assert_eq!(visible_width(&with_bg), visible_width(text));
        assert_eq!(with_bg.replace(&format!("\x1b[0m{bg}"), "\x1b[0m"), text);
    }
}
