use chrono::{Duration, Utc};
use csm::clock::{self, Moment};
use csm::display::{
    age_label, format_session_line, format_session_line_at, format_shortcode, relative_time,
    relative_time_at, short_uuid, shortest_unique_prefixes, shortest_unique_prefixes_within,
    status_rank, uuid_hex,
};
use csm::interactive::visible_width;

#[test]
fn uuid_hex_strips_hyphens() {
    assert_eq!(
        uuid_hex("12345678-1234-1234-1234-123456789abc"),
        "1234567812341234123412345678 9abc".replace(' ', "")
    );
    assert_eq!(uuid_hex(""), "");
    assert_eq!(uuid_hex("nodashes"), "nodashes");
}

#[test]
fn short_uuid_returns_8_hex_chars() {
    assert_eq!(short_uuid("abcdef01-2345-6789-abcd-ef0123456789"), "abcdef01");
    // Shorter input shouldn't panic
    assert_eq!(short_uuid("abc"), "abc");
    assert_eq!(short_uuid(""), "");
}

#[test]
fn shortest_unique_prefixes_basic() {
    let ids: Vec<String> = ["abcd", "abef", "wxyz"].iter().map(|s| s.to_string()).collect();
    assert_eq!(shortest_unique_prefixes(&ids), vec![3, 3, 1]);
}

#[test]
fn shortest_unique_prefixes_single() {
    let ids = vec!["abcd".to_string()];
    assert_eq!(shortest_unique_prefixes(&ids), vec![1]);
}

#[test]
fn shortest_unique_prefixes_empty_list() {
    let ids: Vec<String> = vec![];
    assert!(shortest_unique_prefixes(&ids).is_empty());
}

#[test]
fn shortest_unique_prefixes_identical_returns_full_len() {
    let ids = vec!["abcd".to_string(), "abcd".to_string()];
    // No prefix is unique; falls back to full length.
    assert_eq!(shortest_unique_prefixes(&ids), vec![4, 4]);
}

#[test]
fn shortest_unique_prefixes_one_is_prefix_of_other() {
    let ids = vec!["abc".to_string(), "abcd".to_string()];
    // "abc" is never unique on its own (the other starts with it),
    // so it falls back to full length. "abcd" is unique at len 4.
    assert_eq!(shortest_unique_prefixes(&ids), vec![3, 4]);
}

#[test]
fn shortest_unique_prefixes_within_uses_full_universe() {
    // Visible IDs look unambiguous at len 1 ("a" vs "w"), but the hidden
    // entry "abff" in the universe forces "abcd" to need a longer prefix.
    let visible = vec!["abcd".to_string(), "wxyz".to_string()];
    let universe = vec!["abcd".to_string(), "abff".to_string(), "wxyz".to_string()];
    assert_eq!(shortest_unique_prefixes_within(&visible, &universe), vec![3, 1]);
}

#[test]
fn relative_time_buckets() {
    let fmt = "%Y-%m-%d %H:%M:%S";
    let now = Utc::now().naive_utc();
    let cases = [
        (Duration::seconds(10), "now"),
        (Duration::seconds(120), "2m"),
        (Duration::hours(3), "3h"),
        (Duration::days(2), "2d"),
        (Duration::days(14), "2w"),
        (Duration::days(60), "2mo"),
    ];
    for (delta, expected) in cases {
        let ts = (now - delta).format(fmt).to_string();
        assert_eq!(relative_time(&ts), expected, "delta={delta:?}");
    }
}

#[test]
fn relative_time_invalid_returns_input() {
    assert_eq!(relative_time("not a timestamp"), "not a timestamp");
}

#[test]
fn status_rank_ordering() {
    assert!(status_rank("running") < status_rank("exited"));
    assert!(status_rank("exited") < status_rank("stopped"));
    assert!(status_rank("stopped") < status_rank("removed"));
    assert!(status_rank("removed") < status_rank("anything else"));
}

#[test]
fn format_shortcode_no_color_truncates_to_8() {
    let hex = "abcdef0123456789";
    let s = format_shortcode(hex, 3, false);
    assert_eq!(s, "abcdef01");
}

#[test]
fn format_shortcode_clamps_unique_len() {
    let hex = "abcdef0123456789";
    // unique_len greater than display window should not panic.
    let s = format_shortcode(hex, 99, false);
    assert_eq!(s, "abcdef01");
}

#[test]
fn format_shortcode_color_contains_ansi() {
    let s = format_shortcode("abcdef0123", 3, true);
    assert!(s.contains("\x1b["));
    assert!(s.contains("abc"));
    assert!(s.contains("def01"));
}

#[test]
fn format_session_line_no_color_layout() {
    let line = format_session_line(
        "abcd1234",
        "myname",
        "myrepo",
        "tk/branch",
        "running",
        "1970-01-01 00:00:00",
        false,
    );
    assert!(line.starts_with("abcd1234 myname myrepo tk/branch running ["));
    assert!(line.ends_with(']'));
    // No ANSI escapes when color is off.
    assert!(!line.contains("\x1b["));
}

#[test]
fn shortcode_color_is_exact() {
    assert_eq!(
        format_shortcode("abcdef0123", 3, true),
        "\x1b[1m\x1b[35mabc\x1b[0m\x1b[2m\x1b[35mdef01\x1b[0m"
    );
    assert_eq!(
        format_shortcode("abc", 99, true),
        "\x1b[1m\x1b[35mabc\x1b[0m\x1b[2m\x1b[35m\x1b[0m"
    );
}

#[test]
fn age_labels_at_the_bounds() {
    let cases = [
        (-5, "now"),
        (0, "now"),
        (59, "now"),
        (60, "1m"),
        (3599, "59m"),
        (3600, "1h"),
        (86399, "23h"),
        (86400, "1d"),
        (604799, "6d"),
        (604800, "1w"),
        (2591999, "4w"),
        (2592000, "1mo"),
    ];
    for (secs, expected) in cases {
        assert_eq!(age_label(secs), expected);
    }
    assert_eq!(age_label(i64::MAX), format!("{}mo", i64::MAX / 2_592_000));
    assert_eq!(age_label(i64::MIN), "now");
}

#[test]
fn session_line_in_color_is_exact() {
    let at = Moment { seconds: 1_000_000, nanos: 0 };
    let line = format_session_line_at(
        "S",
        "n",
        "r",
        "b",
        "exited",
        "1970-01-12 13:45:40",
        true,
        at,
    );
    assert_eq!(
        line,
        "S \x1b[1mn\x1b[0m \x1b[36mr\x1b[0m \x1b[35mb\x1b[0m \x1b[33mexited\x1b[0m \x1b[2m[1m]\x1b[0m"
    );
    let other = format_session_line_at("S", "n", "r", "b", "x", "never", true, at);
    assert!(other.ends_with("\x1b[2mx\x1b[0m \x1b[2m[never]\x1b[0m"));
    let running = format_session_line_at("S", "n", "r", "b", "running", "never", true, at);
    assert!(running.contains("\x1b[32mrunning\x1b[0m"));
}

#[test]
fn relative_time_at_counts_whole_seconds() {
    // 1970-01-12 13:46:40 is 1_000_000 seconds after the start of 1970.
    let stamp = "1970-01-12 13:46:40";
    assert_eq!(relative_time_at(stamp, Moment { seconds: 1_000_059, nanos: 0 }), "now");
    assert_eq!(relative_time_at(stamp, Moment { seconds: 1_000_060, nanos: 0 }), "1m");
    assert_eq!(relative_time_at(stamp, Moment { seconds: 999_000, nanos: 0 }), "now");
}

#[test]
fn timestamps_are_written_and_read_back() {
    let at = Moment { seconds: 1_000_000, nanos: 5 };
    assert_eq!(clock::stamp_at(at), "1970-01-12 13:46:40");
    assert_eq!(
        clock::age_at(&clock::stamp_at(at), Moment { seconds: 1_000_100, nanos: 0 }),
        Some(100)
    );
    assert_eq!(clock::age_at("1970-01-12", at), None);
    let now = clock::now();
    assert!(now.is_valid() && now.seconds > 1_700_000_000);
    assert_eq!(clock::now_str().len(), 19);
    assert_eq!(clock::age_at(&clock::stamp_at(now), now), Some(0));
}

#[test]
fn seconds_are_rounded_towards_zero() {
    let stamp = "1970-01-12 13:46:40";
    assert_eq!(clock::age_at(stamp, Moment { seconds: 1_000_001, nanos: 999_999_999 }), Some(1));
    assert_eq!(clock::age_at(stamp, Moment { seconds: 999_999, nanos: 1 }), Some(0));
    assert_eq!(clock::age_at(stamp, Moment { seconds: 999_998, nanos: 1 }), Some(-1));
}

#[test]
fn moments_outside_the_range_are_not_valid() {
    assert!(Moment { seconds: 59, nanos: 1_500_000_000 }.is_valid());
    assert!(Moment { seconds: -1, nanos: 1_500_000_000 }.is_valid());
    assert!(!Moment { seconds: 58, nanos: 1_500_000_000 }.is_valid());
    assert!(!Moment { seconds: -2, nanos: 1_500_000_000 }.is_valid());
    assert!(!Moment { seconds: 0, nanos: 2_000_000_000 }.is_valid());
    assert!(!Moment { seconds: i64::MAX, nanos: 0 }.is_valid());
}

#[test]
fn shortcodes_of_other_texts_do_not_panic() {
    assert_eq!(short_uuid("ééééé"), "éééé");
    assert_eq!(short_uuid("abcdefgé"), "abcdefg");
    assert_eq!(format_shortcode("aéb", 2, false), "aéb");
    assert_eq!(
        shortest_unique_prefixes(&vec!["é".to_string(), "è".to_string()]),
        vec![2, 2]
    );
}

/// The characters of `text` outside control sequences.
fn shown(text: &str) -> String {
    let mut out = String::new();
    let mut inside = false;
    for c in text.chars() {
        if inside {
            inside = !('@'..='~').contains(&c) || c == '[';
        } else if c == '\u{1b}' {
            inside = true;
        } else {
            out.push(c);
        }
    }
    out
}

#[test]
fn colors_change_nothing_that_shows() {
    let at = Moment { seconds: 1_767_225_600, nanos: 0 };
    for unique_len in 0..10 {
        let code = format_shortcode("abcdef0123456789", unique_len, true);
        let bare = format_shortcode("abcdef0123456789", unique_len, false);
        assert_eq!(shown(&code), bare);
        assert_eq!(visible_width(&code), 8);
        for status in ["running", "exited", "stopped", "removed"] {
            let line = |code: &str, color: bool| {
                let stamp = "2025-12-31 00:00:00";
                format_session_line_at(code, "feat", "repo", "main", status, stamp, color, at)
            };
            assert_eq!(shown(&line(&code, true)), line(&bare, false));
            assert_eq!(visible_width(&line(&code, true)), line(&bare, false).len());
        }
    }
}

#[test]
fn more_ids_never_shorten_a_prefix() {
    let ids: Vec<String> = ["abcd", "abef", "xyz"].iter().map(|s| s.to_string()).collect();
    let mut more = ids.clone();
    more.insert(0, "abcf".to_string());
    more.push("x".to_string());
    let few = shortest_unique_prefixes_within(&ids, &ids);
    let many = shortest_unique_prefixes_within(&ids, &more);
    assert_eq!(few, vec![3, 3, 1]);
    assert_eq!(many, vec![4, 3, 2]);
}

#[test]
fn hyphens_are_stripped_once_and_for_all() {
    for text in ["", "-", "12345678-1234-1234-1234-123456789abc", "a--b-"] {
        assert_eq!(uuid_hex(&uuid_hex(text)), uuid_hex(text));
    }
}
