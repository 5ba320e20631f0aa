use csm::failure::Failure;
use csm::git::Dir;
use csm::process::{CommandOutput, Reply};
use csm::zellij::{
    self, cleanup_session_files, codespace_layout_kdl, ensure_codespace_launcher,
    ensure_codespace_layout, ensure_config, ensure_launcher, ensure_layout, is_orphan,
    is_still_listed, layout_kdl, parse_list_sessions, prune_dir, prune_orphans, session_exists,
    session_file_keys, validate_uuid, zellij_args, LocalCommand, State, CODESPACE_LAUNCHER_SCRIPT, CONFIG_KDL,
    LAUNCHER_SCRIPT,
};

#[test]
fn parse_empty_output() {
    assert!(parse_list_sessions("").is_empty());
    assert!(parse_list_sessions("\n\n").is_empty());
}

#[test]
fn parse_running_and_exited() {
    let out = "\
abc12345 [Created 2m ago]\n\
def67890 [Created 5m ago] (EXITED - attach to resume)\n\
fed09876 [Created 1h ago]\n";
    let parsed = parse_list_sessions(out);
    assert_eq!(parsed.len(), 3);
    assert_eq!(parsed[0], ("abc12345".to_string(), true));
    assert_eq!(parsed[1], ("def67890".to_string(), false));
    assert_eq!(parsed[2], ("fed09876".to_string(), true));
}

#[test]
fn parse_skips_blank_lines() {
    let out = "abc\n\n   \ndef\n";
    let parsed = parse_list_sessions(out);
    assert_eq!(parsed, vec![("abc".to_string(), true), ("def".to_string(), true)]);
}

#[test]
fn state_helpers() {
    let s = State::from_sessions(vec![("a".to_string(), true), ("b".to_string(), false)]);
    assert!(s.is_running("a"));
    assert!(!s.is_running("b"));
    assert!(s.is_listed("a"));
    assert!(s.is_listed("b"));
    assert!(!s.is_listed("c"));
    assert_eq!(s.display_status("a"), "running");
    assert_eq!(s.display_status("b"), "exited");
    assert_eq!(s.display_status("c"), "stopped");
}

#[test]
fn layout_includes_git_tab_conditionally() {
    let launcher = "/home/u/.csm/launch-copilot.sh";
    let uuid = "11111111-1111-1111-1111-111111111111";
    let with_git = layout_kdl(launcher, uuid, true);
    assert!(with_git.contains("command=\"gitui\""));
    assert!(with_git.contains("name=\"git\""));
    assert!(with_git.contains("command=\"nvim\""));

    let without_git = layout_kdl(launcher, uuid, false);
    assert!(!without_git.contains("gitui"));
    assert!(!without_git.contains("name=\"git\""));
    assert!(without_git.contains("command=\"nvim\""));
    assert!(without_git.contains("name=\"ai\""));
}

#[test]
fn ai_tab_runs_launcher_with_uuid() {
    let launcher = "/home/u/.csm/launch-copilot.sh";
    let uuid = "abcdef01-2345-6789-abcd-ef0123456789";
    let layout = layout_kdl(launcher, uuid, true);
    assert!(layout.contains(&format!("pane command=\"{launcher}\"")));
    assert!(layout.contains(&format!("args \"{uuid}\"")));
    assert!(layout.contains("name=\"ai\" focus=true"));
}

#[test]
fn layout_is_exact() {
    assert_eq!(
        layout_kdl("L", "U", true),
        r#"layout {
    default_tab_template {
        pane size=1 borderless=true {
            plugin location="tab-bar"
        }
        children
        pane size=1 borderless=true {
            plugin location="status-bar"
        }
    }
    tab name="ai" focus=true {
        pane command="L" {
            args "U"
        }
    }
    tab name="git" {
        pane command="gitui"
    }
    tab name="edit" {
        pane command="nvim"
    }
}
"#
    );
}

#[test]
fn codespace_layout_has_one_ssh_tab() {
    let uuid = "abcdef01-2345-6789-abcd-ef0123456789";
    let layout =
        codespace_layout_kdl(uuid, "studious-space-123", "/workspaces/example-repo").unwrap();
    assert!(layout.contains("pane command=\"gh\""));
    assert!(layout.contains("\"codespace\" \"ssh\""));
    assert!(layout.contains("\"-tt\" \"sh\" \"/tmp/csm-studious-space-123-launch-codespace.sh\""));
    assert!(layout.contains("tab name=\"cs\" focus=true"));
    assert!(!layout.contains("tab name=\"ai\""));
    assert!(layout.contains(&format!("\"--connect\" \"{uuid}\"")));
    assert!(layout.contains("\"/workspaces/example-repo\""));
    assert_eq!(layout.matches("tab name=").count(), 1);
    assert!(!layout.contains("gitui"));
    assert!(!layout.contains("nvim"));
}

#[test]
fn codespace_layout_is_exact() {
    assert_eq!(
        codespace_layout_kdl("U", "space", "/workspaces/w").unwrap(),
        r#"layout {
    default_tab_template {
        pane size=1 borderless=true {
            plugin location="tab-bar"
        }
        children
        pane size=1 borderless=true {
            plugin location="status-bar"
        }
    }
    tab name="cs" focus=true {
        pane command="gh" {
            args "codespace" "ssh" "--codespace" "space" "--" "-tt" "sh" "/tmp/csm-space-launch-codespace.sh" "--connect" "U" "/workspaces/w"
        }
    }
}
"#
    );
}

#[test]
fn codespace_launcher_manages_tmux_and_copilot_session() {
    assert!(CODESPACE_LAUNCHER_SCRIPT.contains("tmux new-session"));
    assert!(CODESPACE_LAUNCHER_SCRIPT.contains("tmux attach-session"));
    assert!(CODESPACE_LAUNCHER_SCRIPT.contains("tmux new-window"));
    assert!(CODESPACE_LAUNCHER_SCRIPT.contains("apt-get install -y tmux"));
    assert!(CODESPACE_LAUNCHER_SCRIPT.contains("sudo -n"));
    assert!(CODESPACE_LAUNCHER_SCRIPT.contains("https://gh.io/copilot-install"));
    assert!(CODESPACE_LAUNCHER_SCRIPT.contains("$HOME/.local/bin:$PATH"));
    assert!(CODESPACE_LAUNCHER_SCRIPT.contains("--session-id=\"$uuid\""));
    assert!(CODESPACE_LAUNCHER_SCRIPT.contains("--resume=\"$uuid\""));
    assert!(!CODESPACE_LAUNCHER_SCRIPT.contains("--name="));
    assert!(CODESPACE_LAUNCHER_SCRIPT.contains("markers/$uuid"));
    assert!(CODESPACE_LAUNCHER_SCRIPT.contains("launcher=\"$0\""));
}

#[test]
fn launcher_script_selects_session_id_then_resume() {
    assert!(LAUNCHER_SCRIPT.contains("--session-id=\"$uuid\""));
    assert!(LAUNCHER_SCRIPT.contains("--resume=\"$uuid\""));
    assert!(!LAUNCHER_SCRIPT.contains("--name="));
    assert!(LAUNCHER_SCRIPT.contains("markers/${uuid}"));
}

#[test]
fn scripts_have_their_file_names() {
    assert_eq!(ensure_launcher().file_name, "launch-copilot.sh");
    assert_eq!(ensure_launcher().contents, LAUNCHER_SCRIPT);
    assert_eq!(ensure_codespace_launcher().file_name, "launch-codespace.sh");
    assert_eq!(ensure_codespace_launcher().contents, CODESPACE_LAUNCHER_SCRIPT);
    assert_eq!(ensure_config().file_name, "config.kdl");
    assert_eq!(ensure_config().contents, CONFIG_KDL);
    assert_eq!(CONFIG_KDL, "simplified_ui true\npane_frames false\n");
}

#[test]
fn validate_uuid_rejects_non_uuid() {
    for bad in [
        "",
        "----",
        "deadbeef",
        "; rm -rf / #",
        "12345678-1234-1234-1234-12345678",
        "not-a-uuid-at-all-really-no",
    ] {
        assert!(validate_uuid(bad).is_err(), "expected '{bad}' to be rejected");
    }
    assert!(validate_uuid("abcdef01-2345-6789-abcd-ef0123456789").is_ok());
}

#[test]
fn session_file_keys_include_uuid_and_shortcode() {
    let uuid = "85963f9a-c04e-4a05-b50d-5c32a0424114";
    let keys = session_file_keys(&vec![uuid.to_string()]);
    assert!(keys.contains(uuid), "full-uuid layout/marker must be kept");
    assert!(keys.contains("85963f9a"), "old shortcode-named layout must be kept");
    assert!(!keys.contains("3a3ae29d"), "unrelated shortcode is orphaned");
    assert!(!keys.contains("deadbeef-dead-dead-dead-deaddeaddead"));
}

fn prune(names: &[String], ext: Option<&str>, known: &[&str]) -> Vec<String> {
    let keep = session_file_keys(&known.iter().map(|s| s.to_string()).collect());
    prune_dir(&names.to_vec(), ext, &keep)
}

#[test]
fn prune_dir_removes_only_orphans() {
    let uuid = "85963f9a-c04e-4a05-b50d-5c32a0424114";
    let files = vec![
        format!("{uuid}.kdl"),        // known full uuid -> keep
        "85963f9a.kdl".to_string(),   // known shortcode -> keep
        "3a3ae29d.kdl".to_string(),   // orphan shortcode -> remove
        "notes.txt".to_string(),      // wrong extension -> ignore
    ];
    assert_eq!(prune(&files, Some("kdl"), &[uuid]), vec!["3a3ae29d.kdl".to_string()]);
}

#[test]
fn prune_dir_matches_markers_without_extension() {
    let uuid = "85963f9a-c04e-4a05-b50d-5c32a0424114";
    let orphan = "11111111-2222-3333-4444-555555555555";
    let files = vec![uuid.to_string(), orphan.to_string()];
    assert_eq!(prune(&files, None, &[uuid]), vec![orphan.to_string()]);
}

#[test]
fn orphans_are_looked_for_in_both_directories() {
    let s = |t: &str| t.to_string();
    let uuid = "85963f9a-c04e-4a05-b50d-5c32a0424114";
    let layouts = vec![s("3a3ae29d.kdl"), format!("{uuid}.kdl"), s("3a3ae29d.txt")];
    let markers = vec![s("85963f9a"), s("3a3ae29d"), s(uuid)];
    let (old_layouts, old_markers) = prune_orphans(&layouts, &markers, &vec![s(uuid)]);
    assert_eq!(old_layouts, vec!["3a3ae29d.kdl"]);
    assert_eq!(old_markers, vec!["3a3ae29d"]);
}

#[test]
fn sessions_are_stopped_by_shortcode() {
    let uuid = "85963f9a-c04e-4a05-b50d-5c32a0424114";
    assert_eq!(zellij::stop(uuid), vec!["kill-session", "85963f9a"]);
    assert_eq!(zellij::list_args(), vec!["list-sessions", "-n"]);
    assert_eq!(zellij::list_names_args(), vec!["list-sessions", "-s"]);
    assert_eq!(zellij::cleanup(uuid), vec!["delete-session", "85963f9a"]);
    assert_eq!(zellij::ensure_marker(uuid).unwrap(), uuid);
    assert_eq!(zellij::ensure_marker("x").unwrap_err().message(), "Invalid UUID: x: invalid character: found `x` at 0");
}

#[test]
fn stems_and_extensions_are_those_of_paths() {
    for name in [
        "a.kdl", "a.b.kdl", ".kdl", "..kdl", "kdl", "a.", ".a.kdl", "a.KDL", "é.kdl", "a b.kdl",
    ] {
        let path = std::path::Path::new(name);
        let stem = path.file_stem().unwrap().to_str().unwrap().to_string();
        let ext = path.extension().map(|e| e.to_str().unwrap().to_string());
        let keep_stem = session_file_keys(&vec![stem]);
        let keep_none = session_file_keys(&vec![]);
        assert!(!is_orphan(name, None, &keep_stem), "{name}");
        assert!(is_orphan(name, None, &keep_none), "{name}");
        assert_eq!(is_orphan(name, Some("kdl"), &keep_none), ext.as_deref() == Some("kdl"), "{name}");
    }
}

#[test]
fn session_files_are_named_after_the_uuid() {
    let uuid = "abcdef01-2345-6789-abcd-ef0123456789";
    let file = ensure_layout(uuid, "/l", false).unwrap();
    assert_eq!(file.file_name, format!("{uuid}.kdl"));
    assert_eq!(file.contents, layout_kdl("/l", uuid, false));
    assert!(matches!(ensure_layout("x", "/l", false), Err(Failure::InvalidUuid { uuid }) if uuid == "x"));
    let file = ensure_codespace_layout(uuid, "space", "/workspaces/w").unwrap();
    assert_eq!(file.file_name, format!("{uuid}.kdl"));
    assert_eq!(file.contents, codespace_layout_kdl(uuid, "space", "/workspaces/w").unwrap());
    assert!(matches!(
        ensure_codespace_layout("x", "space", "/workspaces/w"),
        Err(Failure::InvalidUuid { .. })
    ));
    assert!(matches!(
        ensure_codespace_layout(uuid, "-space", "/workspaces/w"),
        Err(Failure::InvalidCodespaceName { .. })
    ));
    assert!(matches!(
        ensure_codespace_layout(uuid, "space", "/workspace/w"),
        Err(Failure::InvalidWorkdir { .. })
    ));
    assert!(codespace_layout_kdl(uuid, "bad name", "/workspaces/w").is_err());
    assert_eq!(
        cleanup_session_files(uuid),
        Some((uuid.to_string(), format!("{uuid}.kdl")))
    );
    assert_eq!(cleanup_session_files("../../etc"), None);
}

fn reply(stdout: &str, success: bool) -> Reply {
    Reply::Finished(CommandOutput {
        success,
        status: "exit status: 0".to_string(),
        stdout: stdout.as_bytes().to_vec(),
        stderr: vec![],
    })
}

#[test]
fn answers_of_zellij_are_read() {
    let state = State::query(&reply("abc [x]\ndef (EXITED)\n", false));
    assert!(state.is_running("abc"));
    assert!(state.is_listed("def") && !state.is_running("def"));
    assert!(!State::query(&Reply::NotRun { error: String::new() }).is_listed("abc"));
    let uuid = "abcdef01-2345-6789-abcd-ef0123456789";
    assert!(is_still_listed(&reply("x\r\n  abcdef01 \n", true), uuid));
    assert!(!is_still_listed(&reply("abcdef012\n", true), uuid));
    assert!(!is_still_listed(&Reply::NotRun { error: String::new() }, uuid));
    assert!(session_exists("a\nb", "b"));
    assert!(!session_exists("", "b"));
}

#[test]
fn running_session_exists_even_behind_an_exited_one() {
    let s = State::from_sessions(vec![("a".to_string(), false), ("a".to_string(), true)]);
    assert!(s.is_running("a") && s.is_listed("a"));
    assert_eq!(s.display_status("a"), "exited");
}

#[test]
fn client_command_lines() {
    let uuid = "abcdef01-2345-6789-abcd-ef0123456789".to_string();
    assert_eq!(
        zellij_args(&LocalCommand::Launch {
            config: "/c".to_string(),
            layout: "/l".to_string(),
            uuid: uuid.clone(),
            dir: Dir::At("/w".to_string()),
        }),
        vec!["--config", "/c", "-s", "abcdef01", "-n", "/l"]
    );
    assert_eq!(zellij_args(&LocalCommand::Attach { uuid }), vec!["attach", "abcdef01"]);
}

#[test]
fn layouts_differ_in_the_git_block() {
    for (launcher, uuid) in [("/l", "u"), ("", ""), ("git", "/git/name=")] {
        let with_git = layout_kdl(launcher, uuid, true);
        let without_git = layout_kdl(launcher, uuid, false);
        assert_eq!(with_git.replace(zellij::GIT_TAB, ""), without_git);
        assert!(!without_git.contains("gitui") && !without_git.contains("name=\"git\""));
        assert!(without_git.contains(&format!("pane command=\"{launcher}\"")));
        assert!(without_git.contains(&format!("args \"{uuid}\"")));
    }
}

#[test]
fn statuses_tell_sessions_apart() {
    let sessions = vec![("one".to_string(), true), ("two".to_string(), false)];
    let state = State::from_sessions(sessions);
    assert_eq!(state.display_status("one"), "running");
    assert_eq!(state.display_status("two"), "exited");
    assert_eq!(state.display_status("three"), "stopped");
    assert!(state.is_running("one") && state.is_listed("one"));
    assert!(!state.is_running("two") && state.is_listed("two"));
    assert!(!state.is_listed("three"));
}
