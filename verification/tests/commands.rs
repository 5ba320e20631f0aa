use chrono::Utc;
use csm::clock::{self, Moment};
use csm::codespace::{RemoteState, RemoteZellijState, RepoInfo};
use csm::commands::list::{
    hex_ids, interactive_remove_candidates, known_uuids, list, ListInput, NO_SESSIONS,
};
use csm::commands::refresh::refreshed_row;
use csm::commands::remove::pick_title;
use csm::commands::run::{confirm, resume_prompt};
use csm::commands::sessions::resolve_among;
use csm::commands::states::{
    branch_is_local, cache_snapshot_matches, cache_updated_within, cache_updated_within_at,
    cached_codespace_states, days_since, days_since_at, session_display_branch,
    session_display_status, session_repo_label, use_session_cache,
};
use csm::commands::{
    apply_change, base_name, codespace_details, new_row, numbered_name, renamed_row, validate_name,
    CacheWord, NameBase, NewSession, Notice, Observation, RefreshUpdate, RenameDetail, RowChange,
    BACKEND_CODESPACE, BACKEND_LOCAL, STATUS_ACTIVE, STATUS_REMOVED,
};
use csm::entity::session::Model;
use csm::failure::Failure;
use csm::git::Dir;
use csm::zellij::State;

fn cached_codespace_session() -> Model {
    Model {
        name: "example".to_string(),
        branch: "main".to_string(),
        copilot_uuid: "abcdef01-2345-6789-abcd-ef0123456789".to_string(),
        source_repo: "octo/repo".to_string(),
        worktree_path: String::new(),
        backend: BACKEND_CODESPACE.to_string(),
        codespace_name: Some("studious-space-123".to_string()),
        remote_workdir: Some("/workspaces/repo".to_string()),
        github_login: Some("octocat".to_string()),
        cached_codespace_state: Some("available".to_string()),
        cached_codespace_branch: Some("feature".to_string()),
        cached_zellij_state: Some("running".to_string()),
        codespace_state_updated_at: Some("2026-07-28 14:00:00".to_string()),
        status: STATUS_ACTIVE.to_string(),
        last_used_at: "2026-07-28 14:00:00".to_string(),
    }
}

fn local_session(name: &str, uuid: &str, used: &str) -> Model {
    Model {
        name: name.to_string(),
        branch: format!("tylerkrop/{name}"),
        copilot_uuid: uuid.to_string(),
        source_repo: "/src/repo".to_string(),
        worktree_path: "/w".to_string(),
        backend: BACKEND_LOCAL.to_string(),
        codespace_name: None,
        remote_workdir: None,
        github_login: None,
        cached_codespace_state: None,
        cached_codespace_branch: None,
        cached_zellij_state: None,
        codespace_state_updated_at: None,
        status: STATUS_ACTIVE.to_string(),
        last_used_at: used.to_string(),
    }
}

#[test]
fn validate_name_accepts_valid() {
    assert!(validate_name("abc").is_ok());
    assert!(validate_name("abc-123").is_ok());
    assert!(validate_name("abc_123").is_ok());
    assert!(validate_name("a").is_ok());
}

#[test]
fn validate_name_rejects_empty() {
    assert!(validate_name("").is_err());
}

#[test]
fn validate_name_rejects_special_chars() {
    for bad in ["a b", "a/b", "a.b", "a\\b", "a;b", "a$b"] {
        assert!(validate_name(bad).is_err(), "expected '{bad}' to be rejected");
    }
}

#[test]
fn session_names_may_be_in_any_script() {
    assert!(validate_name("\u{e9}t\u{e9}").is_ok());
    assert_eq!(validate_name("\u{2603}"), Err(Failure::NameCharacters));
    assert_eq!(validate_name(""), Err(Failure::EmptyName));
}

#[test]
fn cached_codespace_status_needs_no_remote_query() {
    let session = cached_codespace_session();
    let sessions = vec![session.clone()];
    let local_zellij = State::from_sessions(Vec::new());
    let states = cached_codespace_states(&sessions, &local_zellij);

    assert_eq!(
        session_display_status(&session, &local_zellij, &states).unwrap(),
        "running/available"
    );
    assert_eq!(session_display_branch(&session, &None, &states).unwrap(), "feature");
    assert_eq!(states.current_login, None);
}

#[test]
fn uncached_codespace_status_is_unknown() {
    let mut session = cached_codespace_session();
    session.cached_codespace_state = None;
    session.cached_zellij_state = None;
    let sessions = vec![session.clone()];
    let local_zellij = State::from_sessions(Vec::new());
    let states = cached_codespace_states(&sessions, &local_zellij);

    assert_eq!(
        session_display_status(&session, &local_zellij, &states).unwrap(),
        "unknown/unknown"
    );
}

#[test]
fn recent_connecting_codespace_displays_as_running() {
    let mut session = cached_codespace_session();
    session.cached_zellij_state = Some("connecting".to_string());
    session.codespace_state_updated_at = Some(clock::now_str());
    let sessions = vec![session.clone()];
    let local_zellij = State::from_sessions(Vec::new());
    let states = cached_codespace_states(&sessions, &local_zellij);

    assert!(cache_updated_within(&session, 60));
    assert_eq!(
        session_display_status(&session, &local_zellij, &states).unwrap(),
        "running/available"
    );
}

#[test]
fn days_since_computes_whole_days() {
    let fmt = "%Y-%m-%d %H:%M:%S";
    let now = Utc::now().naive_utc();
    let three_days_ago = (now - chrono::Duration::days(3)).format(fmt).to_string();
    assert_eq!(days_since(&three_days_ago), Some(3));

    let now_ts = now.format(fmt).to_string();
    assert_eq!(days_since(&now_ts), Some(0));

    assert_eq!(days_since("not a timestamp"), None);
}

#[test]
fn days_are_rounded_towards_zero() {
    let at = Moment { seconds: 1_000_000, nanos: 0 };
    assert_eq!(days_since_at("1970-01-11 13:46:41", at), Some(0));
    assert_eq!(days_since_at("1970-01-11 13:46:40", at), Some(1));
    assert_eq!(days_since_at("1970-01-13 13:46:39", at), Some(0));
    assert_eq!(days_since_at("1970-01-14 13:46:40", at), Some(-2));
}

#[test]
fn cache_age_is_inclusive_and_never_negative() {
    let mut session = cached_codespace_session();
    session.codespace_state_updated_at = Some("1970-01-12 13:46:40".to_string());
    let at = |seconds| Moment { seconds, nanos: 0 };
    assert!(cache_updated_within_at(&session, 60, at(1_000_060)));
    assert!(!cache_updated_within_at(&session, 60, at(1_000_061)));
    assert!(!cache_updated_within_at(&session, 60, at(999_999)));
    session.codespace_state_updated_at = Some("soon".to_string());
    assert!(!cache_updated_within_at(&session, 60, at(1_000_000)));
    session.codespace_state_updated_at = None;
    assert!(!cache_updated_within_at(&session, 60, at(1_000_000)));
}

#[test]
fn details_of_codespace_sessions_are_checked() {
    let good = cached_codespace_session();
    let details = codespace_details(&good).unwrap();
    assert_eq!(details.name, "studious-space-123");
    assert_eq!(details.workdir, "/workspaces/repo");
    assert_eq!(details.github_login, "octocat");
    let broken = |change: fn(&mut Model)| {
        let mut session = cached_codespace_session();
        change(&mut session);
        codespace_details(&session).unwrap_err().message()
    };
    assert_eq!(
        broken(|s| s.codespace_name = None),
        "Codespace session is missing its Codespace name"
    );
    assert_eq!(
        broken(|s| s.remote_workdir = None),
        "Codespace session is missing its remote workspace"
    );
    assert_eq!(
        broken(|s| s.github_login = None),
        "Codespace session is missing its GitHub account"
    );
    assert_eq!(
        broken(|s| s.codespace_name = Some("a b".to_string())),
        "Invalid Codespace name: a b"
    );
    assert_eq!(
        broken(|s| s.remote_workdir = Some("/tmp".to_string())),
        "Invalid Codespace workspace path: /tmp"
    );
}

#[test]
fn statuses_of_codespace_sessions() {
    let none = State::from_sessions(Vec::new());
    let status = |change: fn(&mut Model), local: &State, login: Option<&str>| {
        let mut session = cached_codespace_session();
        change(&mut session);
        let mut states = cached_codespace_states(&vec![session.clone()], local);
        states.current_login = login.map(|l| l.to_string());
        session_display_status(&session, local, &states).unwrap()
    };
    let running = State::from_sessions(vec![("abcdef01".to_string(), true)]);
    let exited = State::from_sessions(vec![("abcdef01".to_string(), false)]);
    assert_eq!(status(|_| {}, &none, Some("octocat")), "running/available");
    assert_eq!(status(|_| {}, &none, Some("other")), "running/account:octocat");
    assert_eq!(
        status(|s| s.cached_zellij_state = Some("missing".to_string()), &none, Some("other")),
        "unknown/account:octocat"
    );
    assert_eq!(
        status(|s| s.cached_zellij_state = Some("exited".to_string()), &none, Some("other")),
        "exited/account:octocat"
    );
    assert_eq!(
        status(|s| s.cached_zellij_state = Some("missing".to_string()), &none, None),
        "stopped/available"
    );
    assert_eq!(
        status(|s| s.cached_zellij_state = Some("legacy".to_string()), &none, None),
        "running/available"
    );
    assert_eq!(status(|s| s.cached_zellij_state = None, &exited, None), "exited/available");
    assert_eq!(
        status(|s| s.cached_zellij_state = Some("missing".to_string()), &running, None),
        "running/available"
    );
    assert_eq!(
        status(
            |s| {
                s.cached_zellij_state = None;
                s.cached_codespace_state = Some("Shutdown".to_string());
            },
            &none,
            None
        ),
        "stopped/shutdown"
    );
    assert_eq!(status(|s| s.status = "removed".to_string(), &none, None), "removed");
}

#[test]
fn other_accounts_see_the_created_branch() {
    let session = cached_codespace_session();
    let none = State::from_sessions(Vec::new());
    let mut states = cached_codespace_states(&vec![session.clone()], &none);
    states.current_login = Some("other".to_string());
    assert_eq!(session_display_branch(&session, &None, &states).unwrap(), "main");
    states.current_login = Some("octocat".to_string());
    assert_eq!(session_display_branch(&session, &None, &states).unwrap(), "feature");
}

#[test]
fn local_sessions_show_their_checked_out_branch() {
    let mut session = local_session("a", "u", "t");
    let none = State::from_sessions(Vec::new());
    let states = cached_codespace_states(&vec![], &none);
    let current = Some("topic".to_string());
    assert!(branch_is_local(&session));
    assert_eq!(session_display_branch(&session, &current, &states).unwrap(), "topic");
    assert_eq!(session_display_branch(&session, &None, &states).unwrap(), "tylerkrop/a");
    assert_eq!(session_repo_label(&session).unwrap(), "repo");
    session.status = STATUS_REMOVED.to_string();
    assert!(!branch_is_local(&session));
    assert_eq!(session_display_branch(&session, &current, &states).unwrap(), "tylerkrop/a");
    assert_eq!(session_repo_label(&cached_codespace_session()).unwrap(), "repo@cs");
    session.backend = "moon".to_string();
    let unknown = "Session 'a' has unknown backend 'moon'";
    assert_eq!(session_repo_label(&session).unwrap_err().message(), unknown);
    assert_eq!(
        session_display_branch(&session, &None, &states).unwrap_err().message(),
        unknown
    );
    session.status = STATUS_ACTIVE.to_string();
    assert_eq!(
        session_display_status(&session, &none, &states).unwrap_err().message(),
        unknown
    );
}

#[test]
fn stored_cache_replaces_what_is_known() {
    let session = cached_codespace_session();
    let none = State::from_sessions(Vec::new());
    let mut states = cached_codespace_states(&vec![session.clone()], &none);
    let mut other = session.clone();
    other.cached_codespace_state = None;
    other.cached_codespace_branch = None;
    other.cached_zellij_state = Some("?".to_string());
    assert!(cache_snapshot_matches(&session, &session.clone()));
    assert!(!cache_snapshot_matches(&session, &other));
    use_session_cache(&mut states, "studious-space-123", &other);
    assert_eq!(
        states.values.get("studious-space-123"),
        Some(&RemoteState { state: "unknown".to_string(), branch: None })
    );
    assert_eq!(states.zellij_values.get("studious-space-123"), None);
}

#[test]
fn changes_are_applied() {
    let row = cached_codespace_session();
    let now = "NOW";
    let touched = apply_change(row.clone(), &RowChange::Touch, now);
    assert_eq!(touched, Model { last_used_at: now.to_string(), ..row.clone() });
    let removed = apply_change(row.clone(), &RowChange::Remove, now);
    assert_eq!(removed, Model { status: "removed".to_string(), ..row.clone() });
    let back = apply_change(removed, &RowChange::Activate, now);
    assert_eq!(back, Model { last_used_at: now.to_string(), ..row.clone() });
    let stopped = apply_change(row.clone(), &RowChange::RemoveStopped, now);
    assert_eq!(
        stopped,
        Model {
            status: "removed".to_string(),
            cached_codespace_state: Some("shutdown".to_string()),
            cached_zellij_state: Some("missing".to_string()),
            codespace_state_updated_at: Some(now.to_string()),
            ..row.clone()
        }
    );
    let cached = apply_change(
        row.clone(),
        &RowChange::Cache {
            state: CacheWord::Observed("ShutDown".to_string()),
            zellij: RemoteZellijState::LegacyTmux,
        },
        now,
    );
    assert_eq!(
        cached,
        Model {
            cached_codespace_state: Some("shutdown".to_string()),
            cached_zellij_state: Some("legacy".to_string()),
            codespace_state_updated_at: Some(now.to_string()),
            ..row.clone()
        }
    );
    for (word, text) in [(CacheWord::Available, "available"), (CacheWord::Shutdown, "shutdown")] {
        let change = RowChange::Cache { state: word, zellij: RemoteZellijState::Missing };
        let after = apply_change(row.clone(), &change, now);
        assert_eq!(after.cached_codespace_state.as_deref(), Some(text));
    }
}

#[test]
fn stored_states_show_after_a_change() {
    let row = cached_codespace_session();
    let change = RowChange::Cache {
        state: CacheWord::Observed("Rebuilding".to_string()),
        zellij: RemoteZellijState::Exited,
    };
    let after = apply_change(row, &change, "NOW");
    let none = State::from_sessions(Vec::new());
    let states = cached_codespace_states(&vec![after.clone()], &none);
    assert_eq!(
        session_display_status(&after, &none, &states).unwrap(),
        "exited/rebuilding"
    );
}

#[test]
fn new_sessions_are_recorded() {
    let repo = RepoInfo {
        name_with_owner: "octo/repo".to_string(),
        default_branch: "main".to_string(),
    };
    let row = new_row(
        &NewSession::Local {
            name: "a-2".to_string(),
            branch: Some("a".to_string()),
            uuid: "abcdef01-2345-6789-abcd-ef0123456789".to_string(),
            source_repo: "/src/repo".to_string(),
            dir: Dir::Worktree {
                csm_dir: "/h/.csm".to_string(),
                repo_root: "/src/repo".to_string(),
                uuid: "abcdef01-2345-6789-abcd-ef0123456789".to_string(),
            },
        },
        "NOW",
    );
    assert_eq!(row.name, "a-2");
    assert_eq!(row.branch, "tylerkrop/a");
    assert_eq!(row.worktree_path, "/h/.csm/worktrees/repo/repo-abcdef01");
    assert_eq!(row.backend, "local");
    assert_eq!(row.status, "active");
    assert_eq!(row.last_used_at, "NOW");
    assert_eq!(row.codespace_name, None);
    let row = new_row(
        &NewSession::Local {
            name: "a".to_string(),
            branch: None,
            uuid: "u".to_string(),
            source_repo: "/s".to_string(),
            dir: Dir::At("/here".to_string()),
        },
        "NOW",
    );
    assert_eq!(row.branch, "");
    assert_eq!(row.worktree_path, "/here");
    let row = new_row(
        &NewSession::Codespace {
            name: "n".to_string(),
            uuid: "u".to_string(),
            repo: repo.clone(),
            codespace_name: "sp".to_string(),
            github_login: "me".to_string(),
        },
        "NOW",
    );
    assert_eq!(
        row,
        Model {
            name: "n".to_string(),
            branch: "main".to_string(),
            copilot_uuid: "u".to_string(),
            source_repo: "octo/repo".to_string(),
            worktree_path: String::new(),
            backend: "codespace".to_string(),
            codespace_name: Some("sp".to_string()),
            remote_workdir: Some("/workspaces/repo".to_string()),
            github_login: Some("me".to_string()),
            cached_codespace_state: Some("available".to_string()),
            cached_codespace_branch: Some("main".to_string()),
            cached_zellij_state: Some("missing".to_string()),
            codespace_state_updated_at: Some("NOW".to_string()),
            status: "active".to_string(),
            last_used_at: "NOW".to_string(),
        }
    );
    let recovery = new_row(
        &NewSession::Recovery {
            name: "n".to_string(),
            uuid: "u".to_string(),
            repo,
            codespace_name: "sp".to_string(),
            github_login: "me".to_string(),
        },
        "NOW",
    );
    assert_eq!(
        recovery,
        Model {
            cached_codespace_state: None,
            cached_zellij_state: None,
            codespace_state_updated_at: None,
            status: "removed".to_string(),
            ..row
        }
    );
}

#[test]
fn renamed_sessions_keep_everything_else() {
    let row = cached_codespace_session();
    assert_eq!(
        renamed_row(row.clone(), "other", "NOW"),
        Model { name: "other".to_string(), last_used_at: "NOW".to_string(), ..row }
    );
}

#[test]
fn refreshed_sessions_hold_what_was_seen() {
    let latest = cached_codespace_session();
    let update = RefreshUpdate {
        latest: latest.clone(),
        remote: Observation::Listed(RemoteState { state: "Shutdown".to_string(), branch: None }),
        zellij: RemoteZellijState::Missing,
    };
    let row = refreshed_row(&update, "NOW");
    assert_eq!(
        row,
        Model {
            cached_codespace_state: Some("shutdown".to_string()),
            cached_codespace_branch: None,
            cached_zellij_state: Some("missing".to_string()),
            codespace_state_updated_at: Some("NOW".to_string()),
            ..latest.clone()
        }
    );
    let update = RefreshUpdate {
        latest: latest.clone(),
        remote: Observation::Gone { branch: Some("b".to_string()) },
        zellij: RemoteZellijState::Connecting,
    };
    let row = refreshed_row(&update, "NOW");
    assert_eq!(row.cached_codespace_state.as_deref(), Some("missing"));
    assert_eq!(row.cached_codespace_branch.as_deref(), Some("b"));
    assert_eq!(row.codespace_state_updated_at, latest.codespace_state_updated_at);
}

#[test]
fn names_are_numbered() {
    assert_eq!(numbered_name("a", 1), "a");
    assert_eq!(numbered_name("a", 2), "a-2");
    assert_eq!(numbered_name("a", 10), "a-10");
    assert_eq!(base_name(&NameBase::Asked("x".to_string())), "x");
    assert_eq!(
        base_name(&NameBase::Cleanup {
            session_name: "x".to_string(),
            uuid: "abcdef01-2345-6789-abcd-ef0123456789".to_string(),
        }),
        "x-cleanup-abcdef01"
    );
}

#[test]
fn prefixes_resolve_sessions() {
    let rows = || {
        vec![
            local_session("one", "abcdef01-2345-6789-abcd-ef0123456789", "t"),
            local_session("two", "abff0000-2345-6789-abcd-ef0123456789", "t"),
        ]
    };
    assert_eq!(resolve_among("abc".to_string(), rows()).unwrap().name, "one");
    assert_eq!(resolve_among("abcdef012345".to_string(), rows()).unwrap().name, "one");
    assert_eq!(
        resolve_among("x".to_string(), rows()).unwrap_err().message(),
        "No session found matching 'x'"
    );
    assert_eq!(
        resolve_among("ab".to_string(), rows()).unwrap_err().message(),
        "Ambiguous identifier 'ab' matches 2 sessions: one, two. Use a longer prefix."
    );
}

fn input(sessions: Vec<Model>, local: Vec<(String, bool)>) -> ListInput {
    let local = State::from_sessions(local);
    let states = cached_codespace_states(&sessions, &local);
    let all_hex_ids = hex_ids(&sessions);
    let branches = sessions.iter().map(|_| None).collect();
    ListInput { sessions, branches, local, states, all_hex_ids }
}

#[test]
fn listing_is_sorted_by_status_then_use() {
    let mut removed = local_session("removed", "44444444-0000-4000-8000-000000000000", "2026-01-09 00:00:00");
    removed.status = STATUS_REMOVED.to_string();
    let mut remote = cached_codespace_session();
    remote.last_used_at = "2025-01-01 00:00:00".to_string();
    let sessions = vec![
        removed,
        local_session("stopped", "33333333-0000-4000-8000-000000000000", "2026-01-08 00:00:00"),
        local_session("old", "11111111-0000-4000-8000-000000000000", "2026-01-01 00:00:00"),
        local_session("new", "12222222-0000-4000-8000-000000000000", "2026-01-02 00:00:00"),
        local_session("same", "1f222222-0000-4000-8000-000000000000", "2026-01-02 00:00:00"),
        remote,
    ];
    let local = vec![
        ("11111111".to_string(), true),
        ("12222222".to_string(), true),
        ("1f222222".to_string(), true),
    ];
    let input = input(sessions, local);
    let at = Moment { seconds: 1_767_312_000, nanos: 0 };
    let listing = list(&input, false, at).unwrap();
    assert!(listing.failure.is_none());
    let names: Vec<&str> =
        listing.lines.iter().map(|l| l.split(' ').nth(1).unwrap()).collect();
    assert_eq!(names, vec!["new", "same", "old", "example", "stopped", "removed"]);
    assert_eq!(listing.lines[0], "12222222 new repo tylerkrop/new running [now]");
    assert_eq!(listing.lines[3], "abcdef01 example repo@cs feature running/available [12mo]");
    assert_eq!(NO_SESSIONS, "No sessions found.");
    assert_eq!(known_uuids(&input.sessions)[5], "abcdef01-2345-6789-abcd-ef0123456789");
}

#[test]
fn listing_stops_where_a_line_cannot_be_shown() {
    let mut odd = local_session("odd", "44444444-0000-4000-8000-000000000000", "2026-01-09 00:00:00");
    odd.status = STATUS_REMOVED.to_string();
    odd.backend = "moon".to_string();
    let fine = local_session("fine", "33333333-0000-4000-8000-000000000000", "2026-01-08 00:00:00");
    let at = Moment { seconds: 0, nanos: 0 };
    let two = input(vec![odd.clone(), fine.clone()], vec![]);
    let listing = list(&two, false, at).unwrap();
    assert_eq!(listing.lines.len(), 1);
    assert_eq!(
        listing.failure.unwrap().message(),
        "Session 'odd' has unknown backend 'moon'"
    );
    assert!(interactive_remove_candidates(&two, at).is_err());
    odd.status = STATUS_ACTIVE.to_string();
    let two = input(vec![fine, odd], vec![]);
    assert!(list(&two, false, at).is_err());
    assert!(interactive_remove_candidates(&two, at).is_err());
}

#[test]
fn candidates_are_searchable_and_removed_ones_hidden() {
    let mut removed = local_session("gone", "44444444-0000-4000-8000-000000000000", "2026-01-09 00:00:00");
    removed.status = STATUS_REMOVED.to_string();
    let sessions = vec![
        removed,
        local_session("live", "33333333-0000-4000-8000-000000000000", "2026-01-08 00:00:00"),
    ];
    let mut input = input(sessions, vec![("33333333".to_string(), true)]);
    input.branches[1] = Some("topic".to_string());
    let at = Moment { seconds: 0, nanos: 0 };
    let items = interactive_remove_candidates(&input, at).unwrap();
    assert_eq!(items.len(), 2);
    assert_eq!(items[0].key, "live");
    assert!(!items[0].hidden);
    assert_eq!(
        items[0].search_text,
        "live repo topic running 33333333000040008000000000000000"
    );
    assert_eq!(items[0].display, list(&input, true, at).unwrap().lines[0]);
    assert_eq!(items[1].key, "gone");
    assert!(items[1].hidden);
}

#[test]
fn shown_prefixes_find_their_sessions() {
    let rows = vec![
        local_session("a", "abcdef01-0000-4000-8000-000000000000", "t"),
        local_session("b", "abcd0001-0000-4000-8000-000000000000", "t"),
        local_session("c", "0bcd0001-0000-4000-8000-000000000000", "t"),
    ];
    let ids = hex_ids(&rows);
    let lens = csm::display::shortest_unique_prefixes(&ids);
    assert_eq!(lens, vec![5, 5, 1]);
    for i in 0..3 {
        let query = ids[i][..lens[i]].to_string();
        assert_eq!(resolve_among(query, rows.clone()).unwrap().name, rows[i].name);
    }
}

#[test]
fn prompts_and_notices() {
    for yes in ["y", "Y", "yes", " YES \n"] {
        assert!(confirm(yes), "{yes}");
    }
    for no in ["", "\n", "n", "no", "yess", "ye"] {
        assert!(!confirm(no), "{no}");
    }
    assert_eq!(
        resume_prompt("f"),
        "Branch 'tylerkrop/f' already exists and will be resumed in a new worktree. Continue?"
    );
    assert_eq!(pick_title(true), "Select sessions to PERMANENTLY destroy");
    assert_eq!(pick_title(false), "Select sessions to remove");
    assert_eq!(Notice::NothingToRemove.message(), "No sessions to remove");
    assert_eq!(Notice::RemovalCancelled.message(), "Removal cancelled");
    assert_eq!(Notice::NoMatch.message(), "No matching sessions to remove");
    assert_eq!(Notice::Pruned { count: 1 }.message(), "Pruned orphaned session files");
    assert_eq!(RenameDetail::StillRunning.text(), " (still running)");
    assert_eq!(RenameDetail::CodespaceAvailable.text(), " (Codespace available)");
    assert_eq!(RenameDetail::Nothing.text(), "");
}

#[test]
fn failures_are_worded() {
    let s = |t: &str| t.to_string();
    let cases = vec![
        (
            Failure::WrongAccount { current: s("a"), expected: s("b") },
            "Codespace belongs to GitHub account 'b', but gh is using 'a'. Run `gh auth switch --user b` first.",
        ),
        (
            Failure::CreatedNotFound { session_name: s("n"), uuid: s("abcdef01-2") },
            "gh codespace create succeeded, but csm could not find display name 'csm-abcdef01-n'. Locate it with `gh codespace list`.",
        ),
        (
            Failure::Unresolved {
                session_name: s("n"),
                uuid: s("abcdef01-2"),
                cause: Box::new(Failure::CommandNotRun { action: s("gh"), error: s("gone") }),
            },
            "Could not resolve the Codespace named 'csm-abcdef01-n'. Locate it with `gh codespace list`.: Failed to run gh: gone",
        ),
        (
            Failure::NotStarted { status: s("exit status: 1"), uuid: s("abcdef01-2") },
            "zellij exited with exit status: 1 before session 'abcdef01' started",
        ),
        (
            Failure::BranchTaken { name: s("n") },
            "Aborted: branch 'tylerkrop/n' already exists.",
        ),
        (
            Failure::Removed { name: s("n") },
            "Session 'n' has been removed. Use `csm restore n` to recover.",
        ),
        (
            Failure::AlreadyRunning { name: s("n") },
            "Session 'n' is already running. Use `csm attach n` to connect.",
        ),
        (
            Failure::NotRunning { name: s("n") },
            "Session 'n' is not running. Use `csm start n` first.",
        ),
        (
            Failure::Stopped { name: s("n") },
            "Session 'n' is stopped. Use `csm start n` first.",
        ),
        (
            Failure::NotRemoved { name: s("n"), status: s("active") },
            "Session 'n' is not removed (status: active). Use `csm attach` instead.",
        ),
        (Failure::StopFailures { count: 2 }, "Failed to stop 2 session(s)"),
        (
            Failure::ExpectedOne { uuid: s("u"), count: 0 },
            "Expected one session with UUID 'u', found 0",
        ),
        (
            Failure::DuplicateUuid { uuid: s("u"), count: 3 },
            "Found 3 sessions with duplicate UUID 'u'",
        ),
        (
            Failure::AddColumn { column: 1, cause: Box::new(Failure::SameName) },
            "Failed to add sessions.codespace_name: New name is the same as the old name",
        ),
        (Failure::InvalidUuid { uuid: s("") }, "Invalid UUID: : invalid length: found 0"),
        (
            Failure::WorktreeStaysWith { path: s("/w"), stderr: s("busy") },
            "Failed to remove worktree at /w: busy",
        ),
        (Failure::WorktreeStays { path: s("/w") }, "Failed to remove worktree at /w"),
        (Failure::Outside { message: s("x") }, "x"),
    ];
    for (failure, message) in cases {
        assert_eq!(failure.message(), message);
    }
    let failure = Failure::ZellijNotRun {
        cause: Box::new(Failure::NotInRepository { cause: Box::new(Failure::NotARepository) }),
    };
    assert_eq!(failure.summary(), "Failed to run zellij");
    assert_eq!(
        failure.message(),
        "Failed to run zellij: Codespace sessions must be created from a Git repository: Not inside a git repository"
    );
}
