use csm::failure::Failure;
use csm::git::{
    branch_exists, branch_exists_args, branch_for, branch_name, create_worktree,
    create_worktree_args, current_branch, dir_path, join_path, path_starts_with, removal_complaint,
    repo_name, repo_root, worktree_path, BranchRef, Dir,
};
use csm::process::{CommandOutput, Reply};
use std::path::Path;

const UUID: &str = "abcdef01-2345-6789-abcd-ef0123456789";

#[test]
fn repository_names() {
    let cases = [
        ("/home/u/repo", "repo"),
        ("/home/u/repo/", "repo"),
        ("/home/u/repo/.", "repo"),
        ("octo/repo", "repo"),
        ("repo", "repo"),
        ("", "unknown"),
        ("/", "unknown"),
        (".", "unknown"),
        ("..", "unknown"),
        ("/a/..", "unknown"),
        ("a\\b", "unknown"),
        ("/a/.git", ".git"),
    ];
    for (path, name) in cases {
        assert_eq!(repo_name(path), name, "{path}");
    }
}

#[test]
fn repository_names_are_the_last_components() {
    for path in ["/", "", "a", "a/b/", "./a", "a/./.", "..", "a/..", "//x//y//", "/.hidden", "..."] {
        let expected = Path::new(path)
            .file_name()
            .map(|n| n.to_str().unwrap().to_string())
            .unwrap_or("unknown".to_string());
        assert_eq!(repo_name(path), expected, "{path}");
    }
}

#[test]
fn paths_start_with_components() {
    let paths = [
        "", "/", ".", "./", "./a", "a", "a/", "a/b", "/a", "/a/", "/a/b", "//a//b", "/a/./b", "/ab",
        "/a/..", "a/../b", "..", "/home/u/.csm", "/home/u/.csm/worktrees/r/r-1",
    ];
    for path in paths {
        for base in paths {
            assert_eq!(
                path_starts_with(path, base),
                Path::new(path).starts_with(base),
                "{path} {base}"
            );
        }
    }
}

#[test]
fn paths_are_joined() {
    for base in ["", "/", "/a", "a/", "a"] {
        for part in ["b", "b/c", "/b", ""] {
            assert_eq!(
                join_path(base, part),
                Path::new(base).join(part).to_str().unwrap(),
                "{base} {part}"
            );
        }
    }
}

#[test]
fn worktrees_are_under_the_data_directory() {
    let path = worktree_path("/home/u/.csm", "/home/u/src/repo", UUID);
    assert_eq!(path, "/home/u/.csm/worktrees/repo/repo-abcdef01");
    assert!(path_starts_with(&path, "/home/u/.csm"));
    let odd = worktree_path("/home/u/.csm/", "/", "/../..");
    assert_eq!(odd, "/home/u/.csm/worktrees/unknown/unknown-/../..");
    assert!(path_starts_with(&odd, "/home/u/.csm"));
    let dir = Dir::Worktree {
        csm_dir: "/c".to_string(),
        repo_root: "/r/x".to_string(),
        uuid: UUID.to_string(),
    };
    assert_eq!(dir_path(&dir), "/c/worktrees/x/x-abcdef01");
    assert_eq!(dir_path(&Dir::At("/w".to_string())), "/w");
}

#[test]
fn branches_have_a_prefix() {
    assert_eq!(branch_for("feature"), "tylerkrop/feature");
    assert_eq!(branch_name(&BranchRef::For { name: "f".to_string() }), "tylerkrop/f");
    assert_eq!(branch_name(&BranchRef::Named("main".to_string())), "main");
}

#[test]
fn git_command_lines() {
    let branch = BranchRef::For { name: "f".to_string() };
    let named = BranchRef::Named("b".to_string());
    let dir = Dir::At("/w".to_string());
    assert_eq!(
        branch_exists_args(&branch, &None),
        vec!["rev-parse", "--verify", "tylerkrop/f"]
    );
    assert_eq!(
        branch_exists_args(&named, &Some("/r".to_string())),
        vec!["-C", "/r", "rev-parse", "--verify", "b"]
    );
    assert_eq!(
        create_worktree_args(&dir, &branch, true, &None),
        vec!["worktree", "add", "-b", "tylerkrop/f", "/w"]
    );
    assert_eq!(
        create_worktree_args(&dir, &named, false, &Some("/r".to_string())),
        vec!["-C", "/r", "worktree", "add", "/w", "b"]
    );
}

fn output(success: bool, stdout: &[u8], stderr: &[u8]) -> Reply {
    Reply::Finished(CommandOutput {
        success,
        status: "exit status: 1".to_string(),
        stdout: stdout.to_vec(),
        stderr: stderr.to_vec(),
    })
}

fn not_run() -> Reply {
    Reply::NotRun { error: "No such file or directory (os error 2)".to_string() }
}

#[test]
fn git_answers_are_read() {
    assert_eq!(repo_root(output(true, b"/r \n", b"")), Ok("/r".to_string()));
    for (reply, message) in [
        (output(false, b"/r\n", b""), "Not inside a git repository"),
        (output(true, &[0xff], b""), "invalid utf-8 sequence of 1 bytes from index 0"),
        (not_run(), "Failed to run git: No such file or directory (os error 2)"),
    ] {
        assert_eq!(repo_root(reply).unwrap_err().message(), message);
    }
    assert!(branch_exists(&output(true, b"", b"")));
    assert!(!branch_exists(&output(false, b"", b"")));
    assert!(!branch_exists(&not_run()));
    assert_eq!(current_branch(&output(true, b"main\n", b"")), Some("main".to_string()));
    assert_eq!(current_branch(&output(true, &[b'a', 0xff], b"")), Some("a\u{fffd}".to_string()));
    assert_eq!(current_branch(&output(false, b"main\n", b"")), None);
    assert_eq!(current_branch(&not_run()), None);
    assert!(create_worktree(&output(true, b"", b"")).is_ok());
    assert_eq!(
        create_worktree(&not_run()).unwrap_err().message(),
        "Failed to create worktree: No such file or directory (os error 2)"
    );
    assert_eq!(
        create_worktree(&output(false, b"", b"bad\n")).unwrap_err().message(),
        "git worktree add failed: bad\n"
    );
    assert_eq!(removal_complaint(&output(true, b"", b"x")), None);
    assert_eq!(removal_complaint(&output(false, b"", b" x ")), Some("x".to_string()));
    assert_eq!(removal_complaint(&not_run()), Some(String::new()));
}

#[test]
fn worktree_commands_are_scoped() {
    let dir = csm::git::Dir::At("/w".to_string());
    assert_eq!(
        csm::git::remove_worktree_args("/r", &dir),
        vec!["-C", "/r", "worktree", "remove", "/w", "--force"]
    );
    assert_eq!(csm::git::repo_root_args(), vec!["rev-parse", "--show-toplevel"]);
    assert_eq!(
        csm::git::is_git_repo_args(&dir),
        vec!["-C", "/w", "rev-parse", "--is-inside-work-tree"]
    );
    assert_eq!(csm::git::pull_args(&dir), vec!["-C", "/w", "pull"]);
    assert_eq!(csm::git::delete_branch_args("/r", "b"), vec!["-C", "/r", "branch", "-D", "b"]);
    assert_eq!(csm::git::prune_worktrees_args("/r"), vec!["-C", "/r", "worktree", "prune"]);
    assert_eq!(
        csm::git::current_branch_args("/w"),
        vec!["-C", "/w", "symbolic-ref", "--short", "HEAD"]
    );
}
