//! Repositories, branches and worktrees: the paths and branch names that sessions use,
//! the `git` command lines that act on them, and how `git`'s answers are read.

use vstd::prelude::*;

use crate::display::{short_text, short_uuid};
use crate::failure::Failure;
use crate::process::{complaint, decode, lossy, lossy_text, utf8_complaint, Reply};
use crate::text::{cat2, cat3, same, texts, to_chars, trim, trimmed};
use vstd::utf8::{decode_utf8, valid_utf8};

verus! {

/// The prefix of every branch that is created for a session.
pub const BRANCH_PREFIX: &'static str = "tylerkrop";

// ── Paths ───────────────────────────────────────────────────────────────────

/// The pieces of `s` between slashes.
pub open spec fn pieces(s: Seq<char>) -> Seq<Seq<char>>
    decreases s.len(),
{
    if s.len() == 0 {
        seq![Seq::empty()]
    } else {
        let before = pieces(s.drop_last());
        if s.last() == '/' {
            before.push(Seq::empty())
        } else {
            before.drop_last().push(before.last().push(s.last()))
        }
    }
}

/// A piece that names something: not empty and not `.`.
pub open spec fn names_something(p: Seq<char>) -> bool {
    p.len() > 0 && p != seq!['.']
}

/// What a path starts from: the root, the current directory where it is written as `.`,
/// or nothing.
pub open spec fn origin(s: Seq<char>) -> Seq<Seq<char>> {
    if s.len() > 0 && s[0] == '/' {
        seq![seq!['/']]
    } else if s.len() > 0 && s[0] == '.' && (s.len() == 1 || s[1] == '/') {
        seq![seq!['.']]
    } else {
        Seq::empty()
    }
}

/// The components of a path: what it starts from, then its pieces without the empty ones
/// and the `.` ones.
pub open spec fn components(s: Seq<char>) -> Seq<Seq<char>> {
    origin(s) + pieces(s).filter(|p: Seq<char>| names_something(p))
}

/// The last component of a path, if it is the name of a file or a directory.
pub open spec fn file_name(s: Seq<char>) -> Option<Seq<char>> {
    let c = components(s);
    if c.len() == 0 || c.last() == seq!['/'] || c.last() == seq!['.'] || c.last() == seq!['.', '.'] {
        None
    } else {
        Some(c.last())
    }
}

/// `base` is a sequence of leading components of `path`.
pub open spec fn lies_under(path: Seq<char>, base: Seq<char>) -> bool {
    let c = components(path);
    let b = components(base);
    b.len() <= c.len() && c.take(b.len() as int) == b
}

fn split_path(s: &str) -> (r: Vec<String>)
    ensures
        texts(r@) == components(s@),
{
    let v = to_chars(s);
    let n = v.len();
    let mut out: Vec<String> = Vec::new();
    if n > 0 && v[0] == '/' {
        let mut root = String::new();
        root.push('/');
        assert(root@ =~= seq!['/']);
        out.push(root);
    } else if n > 0 && v[0] == '.' && (n == 1 || v[1] == '/') {
        let mut dot = String::new();
        dot.push('.');
        assert(dot@ =~= seq!['.']);
        out.push(dot);
    }
    assert(texts(out@) =~= origin(s@));
    let ghost keep = |p: Seq<char>| names_something(p);
    let ghost mut done: Seq<Seq<char>> = Seq::empty();
    let mut piece = String::new();
    let mut i: usize = 0;
    proof {
        reveal(Seq::filter);
        assert(v@.take(0).len() == 0);
        assert(pieces(v@.take(0)) =~= done.push(piece@));
        assert(texts(out@) =~= origin(s@) + done.filter(keep));
    }
    while i < n
        invariant
            i <= n,
            n == v@.len(),
            v@ == s@,
            keep == (|p: Seq<char>| names_something(p)),
            pieces(v@.take(i as int)) == done.push(piece@),
            texts(out@) == origin(s@) + done.filter(keep),
        decreases n - i,
    {
        let ghost before = out@;
        let ghost old_piece = piece@;
        assert(v@.take(i + 1).drop_last() =~= v@.take(i as int));
        assert(v@.take(i + 1).last() == v@[i as int]);
        if v[i] == '/' {
            let named = !piece.as_str().is_empty() && !same(&piece, ".");
            proof {
                reveal_strlit(".");
                assert("."@ =~= seq!['.']);
                reveal(Seq::filter);
                assert(done.push(old_piece).drop_last() =~= done);
            }
            if named {
                out.push(piece);
                assert(texts(out@) =~= texts(before).push(old_piece));
            }
            piece = String::new();
            proof {
                done = done.push(old_piece);
                assert(piece@ =~= Seq::empty());
                assert(texts(out@) =~= origin(s@) + done.filter(keep));
            }
        } else {
            piece.push(v[i]);
            proof {
                assert(done.push(old_piece).drop_last() =~= done);
            }
        }
        i = i + 1;
    }
    proof {
        reveal_strlit(".");
        assert("."@ =~= seq!['.']);
        assert(v@.take(i as int) =~= s@);
        reveal(Seq::filter);
        assert(done.push(piece@).drop_last() =~= done);
    }
    let ghost before = out@;
    let ghost last = piece@;
    if !piece.as_str().is_empty() && !same(&piece, ".") {
        out.push(piece);
        assert(texts(out@) =~= texts(before).push(last));
    }
    assert(texts(out@) =~= components(s@));
    out
}

/// The name of a repository: the last component of its path, or `unknown` if that is
/// missing or unsafe.
pub open spec fn repo_label(source_repo: Seq<char>) -> Seq<char> {
    match file_name(source_repo) {
        Some(name) => if name.contains('\\') {
            "unknown"@
        } else {
            name
        },
        None => "unknown"@,
    }
}

/// Extract the repository name from its path. Falls back to "unknown" if the path's final
/// component is missing or unsafe (e.g., `.`, `..`, or contains a path separator).
pub fn repo_name(source_repo: &str) -> (r: String)
    ensures
        r@ == repo_label(source_repo@),
{
    let mut parts = split_path(source_repo);
    proof {
        reveal_strlit("/");
        reveal_strlit(".");
        reveal_strlit("..");
        assert("/"@ =~= seq!['/']);
        assert("."@ =~= seq!['.']);
        assert(".."@ =~= seq!['.', '.']);
    }
    let ghost c = components(source_repo@);
    let ghost list = parts@;
    assert(texts(list).len() == list.len());
    match parts.pop() {
        None => "unknown".to_string(),
        Some(name) => {
            assert(c.last() == texts(list).last());
            if same(&name, "/") || same(&name, ".") || same(&name, "..") {
                return "unknown".to_string();
            }
            let v = to_chars(&name);
            let mut i: usize = 0;
            while i < v.len()
                invariant
                    i <= v@.len(),
                    v@ == name@,
                    forall|j: int| 0 <= j < i ==> v@[j] != '\\',
                    repo_label(source_repo@) == (if name@.contains('\\') {
                        "unknown"@
                    } else {
                        name@
                    }),
                decreases v@.len() - i,
            {
                if v[i] == '\\' {
                    assert(name@[i as int] == '\\');
                    return "unknown".to_string();
                }
                i = i + 1;
            }
            name
        },
    }
}

/// Whether `base` leads to `path`, component by component.
pub fn path_starts_with(path: &str, base: &str) -> (r: bool)
    ensures
        r == lies_under(path@, base@),
{
    let c = split_path(path);
    let b = split_path(base);
    let n = b.len();
    assert(texts(c@).len() == c@.len() && texts(b@).len() == b@.len());
    if n > c.len() {
        return false;
    }
    let mut i: usize = 0;
    while i < n
        invariant
            i <= n,
            n == b@.len(),
            n <= c@.len(),
            texts(c@) == components(path@),
            texts(b@) == components(base@),
            forall|j: int| 0 <= j < i ==> c@[j]@ == b@[j]@,
        decreases n - i,
    {
        if !same(&c[i], &b[i]) {
            proof {
                assert(texts(c@)[i as int] != texts(b@)[i as int]);
                assert(components(path@).take(n as int)[i as int] != components(base@)[i as int]);
            }
            return false;
        }
        i = i + 1;
    }
    assert(components(path@).take(n as int) =~= components(base@)) by {
        assert forall|j: int| 0 <= j < n implies components(path@).take(n as int)[j]
            == components(base@)[j] by {
            assert(texts(c@)[j] == c@[j]@ && texts(b@)[j] == b@[j]@);
        }
    }
    true
}

/// `part` appended to the path `base`; an absolute part replaces it.
pub open spec fn join_text(base: Seq<char>, part: Seq<char>) -> Seq<char> {
    if part.len() > 0 && part[0] == '/' {
        part
    } else if base.len() == 0 || base.last() == '/' {
        base + part
    } else {
        base + "/"@ + part
    }
}

/// Append `part` to the path `base`.
pub fn join_path(base: &str, part: &str) -> (r: String)
    ensures
        r@ == join_text(base@, part@),
{
    let b = to_chars(base);
    let p = to_chars(part);
    if p.len() > 0 && p[0] == '/' {
        part.to_string()
    } else if b.len() == 0 || b[b.len() - 1] == '/' {
        cat2(base, part)
    } else {
        cat3(base, "/", part)
    }
}

/// Where the worktree of a session lies: under the data directory, in a directory named
/// after the repository, named after the repository and the session's shortcode.
pub open spec fn worktree_text(csm_dir: Seq<char>, repo_root: Seq<char>, uuid: Seq<char>) -> Seq<
    char,
> {
    let label = repo_label(repo_root);
    join_text(join_text(join_text(csm_dir, "worktrees"@), label), label + "-"@ + short_text(uuid))
}

/// The path of the worktree of a session.
pub fn worktree_path(csm_dir: &str, repo_root: &str, uuid: &str) -> (r: String)
    ensures
        r@ == worktree_text(csm_dir@, repo_root@, uuid@),
{
    let label = repo_name(repo_root);
    let short = short_uuid(uuid);
    let parent = join_path(&join_path(csm_dir, "worktrees"), &label);
    join_path(&parent, &cat3(&label, "-", &short))
}

/// The branch that a session called `name` gets.
pub open spec fn branch_text(name: Seq<char>) -> Seq<char> {
    BRANCH_PREFIX@ + "/"@ + name
}

/// The branch for a session called `name`.
pub fn branch_for(name: &str) -> (r: String)
    ensures
        r@ == branch_text(name@),
{
    cat3(BRANCH_PREFIX, "/", name)
}

/// A branch, given by the session name it is made from or in full.
#[derive(Debug)]
pub enum BranchRef {
    For { name: String },
    Named(String),
}

/// The full name of a branch.
pub open spec fn ref_text(branch: BranchRef) -> Seq<char> {
    match branch {
        BranchRef::For { name } => branch_text(name@),
        BranchRef::Named(text) => text@,
    }
}

/// The full name of a branch.
pub fn branch_name(branch: &BranchRef) -> (r: String)
    ensures
        r@ == ref_text(*branch),
{
    match branch {
        BranchRef::For { name } => branch_for(name),
        BranchRef::Named(text) => text.clone(),
    }
}

/// A directory, given in full or by what the path of a worktree is made from.
#[derive(Debug)]
pub enum Dir {
    At(String),
    Worktree { csm_dir: String, repo_root: String, uuid: String },
}

/// The path of a directory.
pub open spec fn dir_text(dir: Dir) -> Seq<char> {
    match dir {
        Dir::At(path) => path@,
        Dir::Worktree { csm_dir, repo_root, uuid } => worktree_text(csm_dir@, repo_root@, uuid@),
    }
}

/// The path of a directory.
pub fn dir_path(dir: &Dir) -> (r: String)
    ensures
        r@ == dir_text(*dir),
{
    match dir {
        Dir::At(path) => path.clone(),
        Dir::Worktree { csm_dir, repo_root, uuid } => worktree_path(csm_dir, repo_root, uuid),
    }
}

impl Clone for Dir {
    fn clone(&self) -> (r: Self)
        ensures
            r == *self,
    {
        match self {
            Dir::At(path) => Dir::At(path.clone()),
            Dir::Worktree { csm_dir, repo_root, uuid } => Dir::Worktree {
                csm_dir: csm_dir.clone(),
                repo_root: repo_root.clone(),
                uuid: uuid.clone(),
            },
        }
    }
}

// ── Command lines ───────────────────────────────────────────────────────────

/// The arguments that make `git` work in a repository, where one is given.
pub open spec fn scope(repo: Option<String>) -> Seq<Seq<char>> {
    match repo {
        Some(path) => seq!["-C"@, path@],
        None => Seq::empty(),
    }
}

fn scope_args(repo: &Option<String>) -> (r: Vec<String>)
    ensures
        texts(r@) == scope(*repo),
{
    let mut args: Vec<String> = Vec::new();
    match repo {
        Some(path) => {
            args.push("-C".to_string());
            args.push(path.clone());
        },
        None => {},
    }
    assert(texts(args@) =~= scope(*repo));
    args
}

/// The arguments of `git` that tell whether a branch exists.
pub fn branch_exists_args(branch: &BranchRef, source_repo: &Option<String>) -> (r: Vec<String>)
    ensures
        texts(r@) == scope(*source_repo) + seq!["rev-parse"@, "--verify"@, ref_text(*branch)],
{
    let mut args = scope_args(source_repo);
    let ghost before = args@;
    args.push("rev-parse".to_string());
    args.push("--verify".to_string());
    args.push(branch_name(branch));
    assert(texts(args@) =~= texts(before) + seq!["rev-parse"@, "--verify"@, ref_text(*branch)]);
    args
}

/// The arguments of `git` that create a worktree, with a new branch where `new_branch` is
/// set.
pub fn create_worktree_args(
    dir: &Dir,
    branch: &BranchRef,
    new_branch: bool,
    source_repo: &Option<String>,
) -> (r: Vec<String>)
    ensures
        texts(r@) == scope(*source_repo) + seq!["worktree"@, "add"@] + (if new_branch {
            seq!["-b"@, ref_text(*branch), dir_text(*dir)]
        } else {
            seq![dir_text(*dir), ref_text(*branch)]
        }),
{
    let mut args = scope_args(source_repo);
    let ghost before = args@;
    args.push("worktree".to_string());
    args.push("add".to_string());
    let path = dir_path(dir);
    let name = branch_name(branch);
    if new_branch {
        args.push("-b".to_string());
        args.push(name);
        args.push(path);
        assert(texts(args@) =~= texts(before) + seq!["worktree"@, "add"@] + seq![
            "-b"@,
            ref_text(*branch),
            dir_text(*dir),
        ]);
    } else {
        args.push(path);
        args.push(name);
        assert(texts(args@) =~= texts(before) + seq!["worktree"@, "add"@] + seq![
            dir_text(*dir),
            ref_text(*branch),
        ]);
    }
    args
}

/// The arguments of `git` that name the root of the current repository.
pub fn repo_root_args() -> (r: Vec<String>)
    ensures
        texts(r@) == seq!["rev-parse"@, "--show-toplevel"@],
{
    let mut args: Vec<String> = Vec::new();
    args.push("rev-parse".to_string());
    args.push("--show-toplevel".to_string());
    assert(texts(args@) =~= seq!["rev-parse"@, "--show-toplevel"@]);
    args
}

/// The arguments of `git` that tell whether a directory is in a repository.
pub fn is_git_repo_args(dir: &Dir) -> (r: Vec<String>)
    ensures
        texts(r@) == seq!["-C"@, dir_text(*dir), "rev-parse"@, "--is-inside-work-tree"@],
{
    let mut args: Vec<String> = Vec::new();
    args.push("-C".to_string());
    args.push(dir_path(dir));
    args.push("rev-parse".to_string());
    args.push("--is-inside-work-tree".to_string());
    assert(texts(args@) =~= seq!["-C"@, dir_text(*dir), "rev-parse"@, "--is-inside-work-tree"@]);
    args
}

/// The arguments of `git` that pull the latest changes.
pub fn pull_args(dir: &Dir) -> (r: Vec<String>)
    ensures
        texts(r@) == seq!["-C"@, dir_text(*dir), "pull"@],
{
    let mut args: Vec<String> = Vec::new();
    args.push("-C".to_string());
    args.push(dir_path(dir));
    args.push("pull".to_string());
    assert(texts(args@) =~= seq!["-C"@, dir_text(*dir), "pull"@]);
    args
}

/// The arguments of `git` that name the branch a directory is on. They work even on
/// branches without commits.
pub fn current_branch_args(path: &str) -> (r: Vec<String>)
    ensures
        texts(r@) == seq!["-C"@, path@, "symbolic-ref"@, "--short"@, "HEAD"@],
{
    let mut args: Vec<String> = Vec::new();
    args.push("-C".to_string());
    args.push(path.to_string());
    args.push("symbolic-ref".to_string());
    args.push("--short".to_string());
    args.push("HEAD".to_string());
    assert(texts(args@) =~= seq!["-C"@, path@, "symbolic-ref"@, "--short"@, "HEAD"@]);
    args
}

/// The arguments of `git` that remove a worktree.
pub fn remove_worktree_args(source_repo: &str, dir: &Dir) -> (r: Vec<String>)
    ensures
        texts(r@) == seq![
            "-C"@,
            source_repo@,
            "worktree"@,
            "remove"@,
            dir_text(*dir),
            "--force"@,
        ],
{
    let mut args: Vec<String> = Vec::new();
    args.push("-C".to_string());
    args.push(source_repo.to_string());
    args.push("worktree".to_string());
    args.push("remove".to_string());
    args.push(dir_path(dir));
    args.push("--force".to_string());
    assert(texts(args@) =~= seq![
        "-C"@,
        source_repo@,
        "worktree"@,
        "remove"@,
        dir_text(*dir),
        "--force"@,
    ]);
    args
}

/// The arguments of `git` that delete a branch.
pub fn delete_branch_args(source_repo: &str, branch: &str) -> (r: Vec<String>)
    ensures
        texts(r@) == seq!["-C"@, source_repo@, "branch"@, "-D"@, branch@],
{
    let mut args: Vec<String> = Vec::new();
    args.push("-C".to_string());
    args.push(source_repo.to_string());
    args.push("branch".to_string());
    args.push("-D".to_string());
    args.push(branch.to_string());
    assert(texts(args@) =~= seq!["-C"@, source_repo@, "branch"@, "-D"@, branch@]);
    args
}

/// The arguments of `git` that forget worktrees whose directories are gone.
pub fn prune_worktrees_args(source_repo: &str) -> (r: Vec<String>)
    ensures
        texts(r@) == seq!["-C"@, source_repo@, "worktree"@, "prune"@],
{
    let mut args: Vec<String> = Vec::new();
    args.push("-C".to_string());
    args.push(source_repo.to_string());
    args.push("worktree".to_string());
    args.push("prune".to_string());
    assert(texts(args@) =~= seq!["-C"@, source_repo@, "worktree"@, "prune"@]);
    args
}

// ── Answers ─────────────────────────────────────────────────────────────────

/// The root of the current repository, read from the answer of `git rev-parse`.
pub fn repo_root(reply: Reply) -> (r: Result<String, Failure>)
    ensures
        match reply {
            Reply::NotRun { error } => r matches Err(Failure::CommandNotRun { action, error: e })
                && action@ == "git"@ && e == error,
            Reply::Finished(o) => if !o.success {
                r == Err::<String, Failure>(Failure::NotARepository)
            } else if valid_utf8(o.stdout@) {
                r matches Ok(root) && root@ == trimmed(decode_utf8(o.stdout@))
            } else {
                r matches Err(Failure::NotText { error }) && error@ == utf8_complaint(o.stdout@)
            },
        },
{
    match reply {
        Reply::NotRun { error } => Err(
            Failure::CommandNotRun { action: "git".to_string(), error },
        ),
        Reply::Finished(output) => {
            if !output.success {
                return Err(Failure::NotARepository);
            }
            match decode(output.stdout) {
                Ok(text) => Ok(trim(&text)),
                Err(error) => Err(Failure::NotText { error }),
            }
        },
    }
}

/// Whether `git` found what it was asked to verify.
pub fn branch_exists(reply: &Reply) -> (r: bool)
    ensures
        r == (reply matches Reply::Finished(o) && o.success),
{
    match reply {
        Reply::Finished(output) => output.success,
        Reply::NotRun { .. } => false,
    }
}

/// The current branch of a worktree, read from the answer of `git symbolic-ref`. None if
/// `git` failed.
pub fn current_branch(reply: &Reply) -> (r: Option<String>)
    ensures
        match r {
            Some(branch) => {
                &&& reply matches Reply::Finished(o)
                &&& o.success
                &&& branch@ == trimmed(lossy_text(o.stdout@))
            },
            None => !(reply matches Reply::Finished(o) && o.success),
        },
{
    match reply {
        Reply::Finished(output) => {
            if output.success {
                Some(trim(&lossy(&output.stdout)))
            } else {
                None
            }
        },
        Reply::NotRun { .. } => None,
    }
}

/// Whether `git worktree add` created the worktree, and else why not.
pub fn create_worktree(reply: &Reply) -> (r: Result<(), Failure>)
    ensures
        match *reply {
            Reply::NotRun { error } => r == Err::<(), Failure>(Failure::WorktreeNotRun { error }),
            Reply::Finished(o) => if o.success {
                r is Ok
            } else {
                r matches Err(Failure::WorktreeNotAdded { stderr }) && stderr@ == lossy_text(
                    o.stderr@,
                )
            },
        },
{
    match reply {
        Reply::NotRun { error } => Err(Failure::WorktreeNotRun { error: error.clone() }),
        Reply::Finished(output) => {
            if output.success {
                Ok(())
            } else {
                Err(Failure::WorktreeNotAdded { stderr: lossy(&output.stderr) })
            }
        },
    }
}

/// Nothing if `git worktree remove` succeeded, and else what it complained about.
pub fn removal_complaint(reply: &Reply) -> (r: Option<String>)
    ensures
        match *reply {
            Reply::NotRun { .. } => r matches Some(t) && t@ == Seq::<char>::empty(),
            Reply::Finished(o) => if o.success {
                r is None
            } else {
                r matches Some(t) && t@ == complaint(o)
            },
        },
{
    match reply {
        Reply::NotRun { .. } => {
            let nothing = String::new();
            assert(nothing@ =~= Seq::<char>::empty());
            Some(nothing)
        },
        Reply::Finished(output) => {
            if output.success {
                None
            } else {
                Some(trim(&lossy(&output.stderr)))
            }
        },
    }
}

} // verus!
