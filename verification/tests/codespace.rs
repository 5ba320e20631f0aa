use csm::codespace::{
    check_auth, check_workdir, codespace_display_name, current_login, find_by_display_name,
    list_states, named_codespace_state, parse_login, parse_readiness, parse_remote_zellij_state,
    remote_config_path, remote_launcher_path, remote_layout_path, remote_workdir, repo_info,
    validate_name, validate_remote_workdir, verify_account, CodespaceIdentity, CodespaceListItem,
    RemoteState, RemoteZellijState, RepoInfo, MAX_DISPLAY_NAME_LEN,
};
use csm::failure::Failure;
use csm::flow::Event;
use csm::gh::{gh_args, gh_label, gh_reply, GhCall, LauncherMode, RemoteFile};
use csm::process::{checked_output, CommandOutput, Reply};

#[test]
fn parses_repository_default_branch() {
    let view: serde_json::Value = serde_json::from_str(
        r#"{"nameWithOwner":"octo/repo","defaultBranchRef":{"name":"main"}}"#,
    )
    .unwrap();
    let info = repo_info(
        view["nameWithOwner"].as_str().unwrap().to_string(),
        view["defaultBranchRef"]["name"].as_str().map(|s| s.to_string()),
    )
    .unwrap();
    assert_eq!(
        info,
        RepoInfo {
            name_with_owner: "octo/repo".to_string(),
            default_branch: "main".to_string(),
        }
    );
    assert!(matches!(repo_info("octo/repo".to_string(), None), Err(Failure::NoDefaultBranch)));
}

#[test]
fn display_name_contains_uuid_and_stays_within_limit() {
    assert_eq!(
        codespace_display_name("example", "abcdef01-2345-6789-abcd-ef0123456789"),
        "csm-abcdef01-example"
    );
    assert_eq!(
        codespace_display_name(
            "a-very-long-session-name-that-exceeds-the-limit",
            "abcdef01-2345-6789-abcd-ef0123456789"
        )
        .chars()
        .count(),
        MAX_DISPLAY_NAME_LEN
    );
}

#[test]
fn parses_safe_github_login() {
    assert_eq!(parse_login("octo-cat\n").unwrap(), "octo-cat");
    assert!(parse_login("").is_err());
    assert!(parse_login("unsafe login").is_err());
}

#[test]
fn verifies_codespace_account_owner() {
    assert!(verify_account("octocat", "octocat").is_ok());
    let error = verify_account("other", "octocat").unwrap_err().message();
    assert!(error.contains("gh auth switch --user octocat"));
}

#[test]
fn remote_launcher_uses_existing_tmp_directory() {
    assert_eq!(
        remote_launcher_path("studious-space-123").unwrap(),
        "/tmp/csm-studious-space-123-launch-codespace.sh"
    );
    assert!(remote_launcher_path("unsafe name").is_err());
}

#[test]
fn remote_zellij_paths_are_codespace_specific() {
    let uuid = "abcdef01-2345-6789-abcd-ef0123456789";
    assert_eq!(
        remote_layout_path("studious-space-123", uuid).unwrap(),
        "/tmp/csm-studious-space-123-abcdef01.kdl"
    );
    assert_eq!(
        remote_config_path("studious-space-123").unwrap(),
        "/tmp/csm-studious-space-123-config.kdl"
    );
}

#[test]
fn remote_paths_need_valid_names() {
    assert!(matches!(
        remote_layout_path("space", "nope"),
        Err(Failure::InvalidUuid { uuid }) if uuid == "nope"
    ));
    assert!(matches!(
        remote_layout_path("", "nope"),
        Err(Failure::InvalidCodespaceName { name }) if name.is_empty()
    ));
    assert!(remote_config_path("a/b").is_err());
}

#[test]
fn parses_remote_zellij_states() {
    assert_eq!(parse_remote_zellij_state("running\n").unwrap(), RemoteZellijState::Running);
    assert_eq!(parse_remote_zellij_state("exited\n").unwrap(), RemoteZellijState::Exited);
    assert_eq!(parse_remote_zellij_state("missing\n").unwrap(), RemoteZellijState::Missing);
    assert_eq!(parse_remote_zellij_state("legacy\n").unwrap(), RemoteZellijState::LegacyTmux);
    assert!(parse_remote_zellij_state("unknown\n").is_err());
}

#[test]
fn connecting_is_never_reported() {
    assert!(matches!(
        parse_remote_zellij_state(" connecting "),
        Err(Failure::UnexpectedZellijState { value }) if value == "connecting"
    ));
}

#[test]
fn derives_safe_remote_workdir() {
    assert_eq!(remote_workdir("octo/my.repo_name-1").unwrap(), "/workspaces/my.repo_name-1");
    assert!(remote_workdir("missing-owner").is_err());
    assert!(remote_workdir("octo/unsafe name").is_err());
    assert!(validate_remote_workdir("/tmp/repo").is_err());
}

#[test]
fn workdir_failures_name_what_is_wrong() {
    assert!(matches!(remote_workdir("missing-owner"), Err(Failure::RepoForm)));
    assert_eq!(
        remote_workdir("octo/unsafe name").unwrap_err().message(),
        "Invalid Codespace workspace path: /workspaces/unsafe name"
    );
    assert!(matches!(remote_workdir("octo/"), Err(Failure::UnsafeRepository { .. })));
    assert_eq!(remote_workdir("a/b/c").unwrap(), "/workspaces/c");
    assert!(check_workdir(&"octo/repo".to_string()).is_none());
    assert!(matches!(check_workdir(&"octo".to_string()), Some(Failure::RepoForm)));
    assert_eq!(
        validate_remote_workdir("/workspaces/").unwrap_err().message(),
        "Invalid Codespace workspace path: /workspaces/"
    );
    assert!(validate_remote_workdir("/workspaces/a/b").is_err());
    assert!(validate_remote_workdir("/workspaces/..").is_ok());
}

#[test]
fn codespace_names_have_no_hyphen_at_either_end() {
    for good in ["a", "A1", "a-b", "a--b", "9"] {
        assert!(validate_name(good).is_ok(), "{good}");
    }
    for bad in ["", "-", "-a", "a-", "a b", "a_b", "é", "a/b"] {
        assert!(matches!(
            validate_name(bad),
            Err(Failure::InvalidCodespaceName { name }) if name == bad
        ));
    }
}

#[test]
fn parses_codespace_states() {
    let listed: serde_json::Value = serde_json::from_str(
        r#"[{"name":"space-1","state":"Available","gitStatus":{"ref":"feature"}},
                {"name":"space-2","state":"Shutdown","gitStatus":null}]"#,
    )
    .unwrap();
    let items = listed
        .as_array()
        .unwrap()
        .iter()
        .map(|item| CodespaceListItem {
            name: item["name"].as_str().unwrap().to_string(),
            state: item["state"].as_str().unwrap().to_string(),
            branch: item["gitStatus"]["ref"].as_str().map(|s| s.to_string()),
        })
        .collect();
    let states = list_states(items);
    assert_eq!(
        states.get("space-1"),
        Some(&RemoteState {
            state: "Available".to_string(),
            branch: Some("feature".to_string()),
        })
    );
    assert_eq!(states.get("space-2").unwrap().branch, None);
    assert!(states.get("space-3").is_none());
}

#[test]
fn later_listed_codespace_replaces_the_earlier() {
    let item = |state: &str| CodespaceListItem {
        name: "s".to_string(),
        state: state.to_string(),
        branch: None,
    };
    let states = list_states(vec![item("Available"), item("Shutdown")]);
    assert_eq!(states.get("s").unwrap().state, "Shutdown");
}

#[test]
fn display_names_must_be_unique() {
    let id = |name: &str, display: &str| CodespaceIdentity {
        name: name.to_string(),
        display_name: display.to_string(),
    };
    let items = vec![id("a", "x"), id("b", "y"), id("c", "y")];
    assert_eq!(find_by_display_name(&items, "x"), Ok(Some("a".to_string())));
    assert_eq!(find_by_display_name(&items, "z"), Ok(None));
    assert_eq!(
        find_by_display_name(&items, "y").unwrap_err().message(),
        "Multiple Codespaces have display name 'y'"
    );
}

fn output(success: bool, stdout: &[u8], stderr: &[u8]) -> Reply {
    Reply::Finished(CommandOutput {
        success,
        status: "exit status: 7".to_string(),
        stdout: stdout.to_vec(),
        stderr: stderr.to_vec(),
    })
}

fn not_run() -> Reply {
    Reply::NotRun { error: "No such file or directory (os error 2)".to_string() }
}

#[test]
fn command_output_is_checked() {
    assert_eq!(checked_output(output(true, "h\u{e9}\n".as_bytes(), b"w"), "act"), Ok("h\u{e9}\n".to_string()));
    let cases = [
        (not_run(), "Failed to run act: No such file or directory (os error 2)"),
        (output(false, b"x", b""), "act failed with exit status: 7"),
        (output(false, b"x", b"  \n"), "act failed with exit status: 7"),
        (output(false, b"x", b" boom \n"), "act failed: boom"),
        (output(false, b"x", &[0xff, b'a']), "act failed: \u{fffd}a"),
        (output(true, &[0xff], b""), "act returned invalid UTF-8: invalid utf-8 sequence of 1 bytes from index 0"),
    ];
    for (reply, message) in cases {
        assert_eq!(checked_output(reply, "act").unwrap_err().message(), message);
    }
}

#[test]
fn account_answers_are_read() {
    assert!(check_auth(output(true, b"", b"")).is_ok());
    assert_eq!(
        check_auth(output(false, b"", b"no")).unwrap_err().message(),
        "gh auth status failed: no"
    );
    assert_eq!(current_login(output(true, b"octocat\n", b"")), Ok("octocat".to_string()));
    assert_eq!(current_login(output(true, b"a b", b"")), Err(Failure::InvalidLogin));
    assert_eq!(
        current_login(not_run()).unwrap_err().message(),
        "Failed to run gh api user: No such file or directory (os error 2)"
    );
}

#[test]
fn codespace_state_answers_are_read() {
    assert_eq!(
        named_codespace_state("s", output(true, b"Available\n", b"")),
        Ok(Some("Available".to_string()))
    );
    assert_eq!(named_codespace_state("s", output(false, b"", b"gh: Not Found (HTTP 404)")), Ok(None));
    let cases = [
        (not_run(), "Failed to query Codespace state: No such file or directory (os error 2)"),
        (output(true, &[0xff], b""), "Codespace state returned invalid UTF-8: invalid utf-8 sequence of 1 bytes from index 0"),
        (output(true, b" \n", b""), "Codespace 's' returned an empty state"),
        (output(false, b"", b""), "Failed to query Codespace 's' with exit status: 7"),
        (output(false, b"", b" HTTP 500 "), "Failed to query Codespace 's': HTTP 500"),
    ];
    for (reply, message) in cases {
        assert_eq!(named_codespace_state("s", reply).unwrap_err().message(), message);
    }
}

#[test]
fn readiness_is_read() {
    assert_eq!(parse_readiness("ready\n"), Ok(true));
    assert_eq!(parse_readiness("not-ready"), Ok(false));
    assert_eq!(
        parse_readiness("maybe\n").unwrap_err().message(),
        "Unexpected remote Zellij readiness: maybe"
    );
}

#[test]
fn stored_words_are_read_back() {
    for state in [
        RemoteZellijState::Connecting,
        RemoteZellijState::Running,
        RemoteZellijState::Exited,
        RemoteZellijState::Missing,
        RemoteZellijState::LegacyTmux,
    ] {
        assert_eq!(RemoteZellijState::from_cached(state.as_str()), Some(state));
    }
    assert_eq!(RemoteZellijState::from_cached("Running"), None);
}

const UUID: &str = "abcdef01-2345-6789-abcd-ef0123456789";

fn s(text: &str) -> String {
    text.to_string()
}

#[test]
fn gh_command_lines_are_exact() {
    let repo = RepoInfo { name_with_owner: s("octo/repo"), default_branch: s("main") };
    let cases: Vec<(GhCall, &str)> = vec![
        (GhCall::AuthStatus, "auth status --active --hostname github.com"),
        (GhCall::Login, "api --hostname github.com user --jq .login"),
        (GhCall::RepoView { root: s("/r") }, "repo view --json nameWithOwner,defaultBranchRef"),
        (
            GhCall::FindCreated { session_name: s("n"), uuid: s(UUID) },
            "codespace list --limit 1000 --json name,displayName",
        ),
        (GhCall::ListStates, "codespace list --limit 1000 --json name,state,gitStatus"),
        (
            GhCall::Create { repo, session_name: s("n"), uuid: s(UUID) },
            "codespace create --repo octo/repo --branch main --display-name csm-abcdef01-n -s",
        ),
        (
            GhCall::Copy { name: s("sp"), source: s("/f"), file: RemoteFile::Launcher },
            "codespace cp --expand --codespace sp /f remote:/tmp/csm-sp-launch-codespace.sh",
        ),
        (
            GhCall::Copy { name: s("sp"), source: s("/f"), file: RemoteFile::Layout { uuid: s(UUID) } },
            "codespace cp --expand --codespace sp /f remote:/tmp/csm-sp-abcdef01.kdl",
        ),
        (
            GhCall::Copy { name: s("sp"), source: s("/f"), file: RemoteFile::Config },
            "codespace cp --expand --codespace sp /f remote:/tmp/csm-sp-config.kdl",
        ),
        (
            GhCall::Check { name: s("sp"), workdir: s("/workspaces/w"), uuid: s(UUID), resume: true },
            "codespace ssh --codespace sp -- sh /tmp/csm-sp-launch-codespace.sh --check /workspaces/w /tmp/csm-sp-abcdef01.kdl /tmp/csm-sp-config.kdl abcdef01-2345-6789-abcd-ef0123456789 true",
        ),
        (
            GhCall::Launcher { name: s("sp"), uuid: s(UUID), mode: LauncherMode::State },
            "codespace ssh --codespace sp -- sh /tmp/csm-sp-launch-codespace.sh --state abcdef01-2345-6789-abcd-ef0123456789",
        ),
        (
            GhCall::Launcher { name: s("sp"), uuid: s("u"), mode: LauncherMode::Ready },
            "codespace ssh --codespace sp -- sh /tmp/csm-sp-launch-codespace.sh --ready u",
        ),
        (
            GhCall::Launcher { name: s("sp"), uuid: s("u"), mode: LauncherMode::ClearReady },
            "codespace ssh --codespace sp -- sh /tmp/csm-sp-launch-codespace.sh --clear-ready u",
        ),
        (
            GhCall::Launcher { name: s("sp"), uuid: s("u"), mode: LauncherMode::Cleanup },
            "codespace ssh --codespace sp -- sh /tmp/csm-sp-launch-codespace.sh --cleanup u",
        ),
        (
            GhCall::Connect { name: s("sp"), workdir: s("/workspaces/w"), uuid: s("u"), attach_only: true },
            "codespace ssh --codespace sp -- -tt sh /tmp/csm-sp-launch-codespace.sh --attach u /workspaces/w /tmp/csm-sp-config.kdl",
        ),
        (
            GhCall::Connect { name: s("sp"), workdir: s("/workspaces/w"), uuid: s(UUID), attach_only: false },
            "codespace ssh --codespace sp -- -tt sh /tmp/csm-sp-launch-codespace.sh --connect abcdef01-2345-6789-abcd-ef0123456789 /workspaces/w /tmp/csm-sp-abcdef01.kdl /tmp/csm-sp-config.kdl",
        ),
        (GhCall::State { name: s("sp") }, "api --hostname github.com user/codespaces/sp --jq .state"),
        (GhCall::Stop { name: s("sp") }, "codespace stop --codespace sp"),
        (GhCall::Delete { name: s("sp") }, "codespace delete --codespace sp --force"),
    ];
    for (call, line) in cases {
        assert_eq!(gh_args(&call).join(" "), line);
    }
}

#[test]
fn gh_answers_are_read() {
    let done = |event: Event| matches!(event, Event::Done);
    assert!(done(gh_reply(&GhCall::Stop { name: s("sp") }, output(true, b"", b""))));
    assert!(done(gh_reply(&GhCall::AuthStatus, output(true, b"", b""))));
    assert!(done(gh_reply(
        &GhCall::Check { name: s("sp"), workdir: s("w"), uuid: s("u"), resume: false },
        output(true, &[0xff], b"")
    )));
    assert!(matches!(
        gh_reply(&GhCall::Login, output(true, b"me\n", b"")),
        Event::Text(login) if login == "me"
    ));
    assert!(matches!(
        gh_reply(&GhCall::ListStates, output(true, b"[]", b"")),
        Event::Text(json) if json == "[]"
    ));
    let ask = |mode: LauncherMode| GhCall::Launcher { name: s("sp"), uuid: s("u"), mode };
    assert!(matches!(
        gh_reply(&ask(LauncherMode::State), output(true, b"exited\n", b"")),
        Event::Remote(RemoteZellijState::Exited)
    ));
    assert!(matches!(
        gh_reply(&ask(LauncherMode::Ready), output(true, b"ready\n", b"")),
        Event::Flag(true)
    ));
    assert!(done(gh_reply(&ask(LauncherMode::Cleanup), output(true, b"?", b""))));
    assert!(matches!(
        gh_reply(&GhCall::State { name: s("sp") }, output(false, b"", b"HTTP 404")),
        Event::MaybeText(None)
    ));
    assert!(matches!(
        gh_reply(
            &GhCall::Connect { name: s("sp"), workdir: s("w"), uuid: s("u"), attach_only: true },
            output(false, b"", b"")
        ),
        Event::Exit { success: false, status } if status == "exit status: 7"
    ));
    let failed = |event: Event| match event {
        Event::Failed(f) => f.message(),
        _ => panic!("no failure"),
    };
    assert_eq!(
        failed(gh_reply(
            &GhCall::Connect { name: s("sp"), workdir: s("w"), uuid: s("u"), attach_only: true },
            not_run()
        )),
        "Failed to connect to remote Zellij: No such file or directory (os error 2)"
    );
    assert_eq!(
        failed(gh_reply(
            &GhCall::Check { name: s("sp"), workdir: s("w"), uuid: s("u"), resume: false },
            output(false, b"", b"x")
        )),
        "Codespace preflight failed with exit status: 7"
    );
    assert_eq!(
        failed(gh_reply(&ask(LauncherMode::State), output(false, b"", b"x"))),
        "Remote Zellij state query failed: x"
    );
    assert_eq!(gh_label(&ask(LauncherMode::ClearReady)), "Remote Zellij readiness reset");
}
