//! Whole commands, run against a small world in memory.

use csm::clock::Moment;
use csm::codespace::{operations, RemoteState, RemoteZellijState, RepoInfo};
use csm::commands::list::{hex_ids, interactive_remove_candidates, ListInput};
use csm::commands::states::cached_codespace_states;
use csm::commands::{
    apply_change, attach, local, new_row, refresh, remote, remove, rename, renamed_row, restore,
    run, sessions, start, stop, CodespaceDetails, Notice,
};
use csm::db;
use csm::entity::session::Model;
use csm::failure::Failure;
use csm::flow::{Effect, Event, Flow};
use csm::gh::{GhCall, LauncherMode};
use csm::git::{branch_name, dir_path};
use csm::names::{NameMap, NameSet};
use csm::remark::{Narrated, Remark, Topic};
use csm::zellij::{LocalCommand, State};

const UUID: &str = "abcdef01-2345-4789-abcd-ef0123456789";
const OTHER: &str = "12345678-2345-4789-abcd-ef0123456789";

/// A remark that was made.
#[derive(Debug)]
struct Told {
    topic: Topic,
    name: Option<String>,
    uuid: Option<String>,
    codespace: Option<String>,
    repository: Option<String>,
    detail: Option<String>,
    error: Option<String>,
    delete_error: Option<String>,
}

fn note(remark: &Remark) -> Told {
    Told {
        topic: remark.topic,
        name: remark.name.cloned(),
        uuid: remark.uuid.cloned(),
        codespace: remark.codespace.cloned(),
        repository: remark.repository.cloned(),
        detail: remark.detail.cloned(),
        error: remark.error.or(remark.fault.as_ref()).map(|f| f.message()),
        delete_error: remark.delete_error.map(|f| f.message()),
    }
}

/// What the flows work on.
struct World {
    rows: Vec<Model>,
    saved: Vec<Model>,
    columns: Vec<String>,
    zellij: Vec<(String, bool)>,
    /// What the client leaves behind: nothing, or a session that runs or has exited.
    client_leaves: Option<bool>,
    client_succeeds: bool,
    stubborn: bool,
    repo: Option<String>,
    branch: Option<String>,
    branches: Vec<String>,
    dirs: Vec<String>,
    agrees: bool,
    login: String,
    /// The Codespaces, with the display name, state and branch of each.
    codespaces: Vec<(String, String, String)>,
    remote: RemoteZellijState,
    remote_after: RemoteZellijState,
    ready: bool,
    ssh_succeeds: bool,
    picked: Option<Vec<String>>,
    ids: Vec<String>,
    at: Moment,
    /// The kinds of work that fail.
    fails: Vec<&'static str>,
    /// The kinds of work that were done, and the notices that were given.
    log: Vec<String>,
    /// The remarks that were made.
    told: Vec<Told>,
}

fn world() -> World {
    World {
        rows: Vec::new(),
        saved: Vec::new(),
        columns: Vec::new(),
        zellij: Vec::new(),
        client_leaves: Some(true),
        client_succeeds: true,
        stubborn: false,
        repo: Some("/src/repo".to_string()),
        branch: Some("main".to_string()),
        branches: Vec::new(),
        dirs: Vec::new(),
        agrees: true,
        login: "octocat".to_string(),
        codespaces: Vec::new(),
        remote: RemoteZellijState::Missing,
        remote_after: RemoteZellijState::Running,
        ready: true,
        ssh_succeeds: true,
        picked: None,
        ids: vec![UUID.to_string()],
        at: Moment { seconds: 1_767_225_600, nanos: 0 },
        fails: Vec::new(),
        log: Vec::new(),
        told: Vec::new(),
    }
}

fn local_row(name: &str, uuid: &str) -> Model {
    Model {
        name: name.to_string(),
        branch: format!("tylerkrop/{name}"),
        copilot_uuid: uuid.to_string(),
        source_repo: "/src/repo".to_string(),
        worktree_path: format!("/home/me/.csm/worktrees/repo/repo-{}", &uuid[..8]),
        backend: "local".to_string(),
        codespace_name: None,
        remote_workdir: None,
        github_login: None,
        cached_codespace_state: None,
        cached_codespace_branch: None,
        cached_zellij_state: None,
        codespace_state_updated_at: None,
        status: "active".to_string(),
        last_used_at: "2025-12-01 00:00:00".to_string(),
    }
}

fn remote_row(name: &str, uuid: &str) -> Model {
    Model {
        branch: "main".to_string(),
        source_repo: "octo/repo".to_string(),
        worktree_path: String::new(),
        backend: "codespace".to_string(),
        codespace_name: Some("space".to_string()),
        remote_workdir: Some("/workspaces/repo".to_string()),
        github_login: Some("octocat".to_string()),
        ..local_row(name, uuid)
    }
}

fn outside<T>() -> Result<T, Failure> {
    Err(Failure::Outside { message: "outside".to_string() })
}

impl World {
    fn with_space(mut self, state: &str) -> World {
        self.codespaces.push(("space".to_string(), state.to_string(), "main".to_string()));
        self
    }

    fn space_state(&self) -> String {
        self.codespaces[0].1.clone()
    }

    fn row(&self, name: &str) -> &Model {
        self.rows.iter().find(|r| r.name == name).unwrap()
    }

    fn names(&self) -> Vec<&str> {
        self.rows.iter().map(|r| r.name.as_str()).collect()
    }

    fn did(&self, what: &str) -> bool {
        self.log.iter().any(|l| l == what)
    }

    /// The remark on a topic, which was made once.
    fn remark(&self, topic: Topic) -> &Told {
        let about: Vec<&Told> = self.told.iter().filter(|told| told.topic == topic).collect();
        assert_eq!(about.len(), 1, "{:?}", self.told);
        about[0]
    }

    /// The topics of the warnings, in their order.
    fn warnings(&self) -> Vec<Topic> {
        self.told.iter().map(|told| told.topic).filter(|topic| topic.is_warning()).collect()
    }

    fn drive<F: Flow>(&mut self, begin: (F, Effect)) -> Event {
        self.run(begin, |_, _, _| ())
    }

    fn narrate<F: Narrated>(&mut self, begin: (F, Effect)) -> Event {
        self.run(begin, |world, flow, event| {
            for remark in flow.remarks(event) {
                world.told.push(note(&remark));
            }
        })
    }

    fn run<F: Flow>(
        &mut self,
        begin: (F, Effect),
        observe: fn(&mut World, &F, &Event),
    ) -> Event {
        let (mut flow, mut effect) = begin;
        loop {
            if let Effect::Finish(outcome) = effect {
                return outcome;
            }
            let event = self.perform(effect);
            observe(self, &flow, &event);
            let (next, wanted) = flow.next(event);
            flow = next;
            effect = wanted;
        }
    }

    /// Run a flow that ends well.
    fn works<F: Flow>(&mut self, begin: (F, Effect)) {
        match self.drive(begin) {
            Event::Done => {}
            other => panic!("unexpected outcome: {other:?}"),
        }
    }

    /// Run a flow that fails, and give its message.
    fn fails_with<F: Flow>(&mut self, begin: (F, Effect)) -> String {
        match self.drive(begin) {
            Event::Failed(failure) => failure.message(),
            other => panic!("unexpected outcome: {other:?}"),
        }
    }

    fn perform(&mut self, effect: Effect) -> Event {
        let text = match &effect {
            Effect::Gh(call) => format!("{call:?}"),
            Effect::Report(notice) => notice.message().to_string(),
            other => format!("{other:?}"),
        };
        let kind = match &effect {
            Effect::Report(_) => text,
            _ => text.split(|c: char| !c.is_alphanumeric()).next().unwrap().to_string(),
        };
        self.log.push(kind.clone());
        if let Effect::Report(Notice::Renamed { detail, .. }) = &effect {
            self.log.push(detail.text().to_string());
        }
        if self.fails.iter().any(|f| *f == kind) {
            return Event::Failed(outside::<()>().unwrap_err());
        }
        let now = csm::clock::stamp_at(self.at);
        match effect {
            Effect::FindByName { name } => {
                Event::Row(self.rows.iter().find(|r| r.name == name).cloned())
            }
            Effect::FindByUuid { uuid } => {
                Event::Row(self.rows.iter().find(|r| r.copilot_uuid == uuid).cloned())
            }
            Effect::FindAllByUuid { uuid } => Event::Rows(
                self.rows.iter().filter(|r| r.copilot_uuid == uuid).cloned().collect(),
            ),
            Effect::AllSessions => Event::Rows(self.rows.clone()),
            Effect::ActiveSessions => Event::Rows(
                self.rows.iter().filter(|r| r.status != "removed").cloned().collect(),
            ),
            Effect::Update { row, change } => {
                let changed = apply_change(row, &change, &now);
                for r in self.rows.iter_mut() {
                    if r.name == changed.name {
                        *r = changed.clone();
                    }
                }
                Event::Done
            }
            Effect::Insert(new) => {
                let row = new_row(&new, &now);
                self.rows.push(row.clone());
                Event::Row(Some(row))
            }
            Effect::InsertRenamed { row, name } => {
                self.rows.push(renamed_row(row, &name, &now));
                Event::Done
            }
            Effect::DeleteByName { name } => {
                self.rows.retain(|r| r.name != name);
                Event::Done
            }
            Effect::DeleteRow { name, uuid } => {
                let before = self.rows.len();
                self.rows.retain(|r| r.name != name || r.copilot_uuid != uuid);
                Event::Count((before - self.rows.len()) as u64)
            }
            Effect::DeleteByUuid { uuid } => {
                let before = self.rows.len();
                self.rows.retain(|r| r.copilot_uuid != uuid);
                Event::Count((before - self.rows.len()) as u64)
            }
            Effect::RefreshRow(update) => {
                let row = refresh::refreshed_row(&update, &now);
                let mut count = 0;
                for r in self.rows.iter_mut() {
                    if *r == update.latest {
                        *r = row.clone();
                        count += 1;
                    }
                }
                Event::Count(count)
            }
            Effect::Begin => {
                self.saved = self.rows.clone();
                Event::Done
            }
            Effect::Commit => Event::Done,
            Effect::Rollback => {
                self.rows = self.saved.clone();
                Event::Done
            }
            Effect::SessionColumns => {
                let mut columns = NameSet::new();
                for c in &self.columns {
                    columns.insert(c.clone());
                }
                Event::Columns(columns)
            }
            Effect::AddColumn { column } => {
                self.columns.push(db::column_name(column).to_string());
                Event::Done
            }
            Effect::QueryZellij => Event::Zellij(State::from_sessions(self.zellij.clone())),
            Effect::CleanupZellij { uuid } => {
                if !self.stubborn {
                    self.zellij.retain(|(n, running)| *running || *n != uuid[..8]);
                }
                Event::Done
            }
            Effect::KillZellij { uuid } => {
                for (n, running) in self.zellij.iter_mut() {
                    if *n == uuid[..8] {
                        *running = false;
                    }
                }
                Event::Done
            }
            Effect::ZellijListed { uuid } => {
                Event::Flag(self.zellij.iter().any(|(n, _)| *n == uuid[..8]))
            }
            Effect::Client(command) => {
                let uuid = match command {
                    LocalCommand::Launch { uuid, .. } => uuid,
                    LocalCommand::Attach { uuid } => uuid,
                };
                self.zellij.retain(|(n, _)| *n != uuid[..8]);
                if let Some(running) = self.client_leaves {
                    self.zellij.push((uuid[..8].to_string(), running));
                }
                let success = self.client_succeeds;
                let status = if success { "exit status: 0" } else { "exit status: 1" };
                Event::Exit { success, status: status.to_string() }
            }
            Effect::WriteLauncher
            | Effect::WriteCodespaceLauncher
            | Effect::WriteConfig
            | Effect::WriteLayout { .. }
            | Effect::WriteCodespaceLayout { .. } => Event::Text("/file".to_string()),
            Effect::WriteMarker { .. } | Effect::CleanupFiles { .. } => Event::Done,
            Effect::PruneOrphans { known } => Event::Count(if known.is_empty() { 2 } else { 0 }),
            Effect::RepoRoot => match &self.repo {
                Some(root) => Event::Text(root.clone()),
                None => Event::Failed(outside::<()>().unwrap_err()),
            },
            Effect::CurrentBranch { .. } => Event::MaybeText(self.branch.clone()),
            Effect::Pull { .. } => Event::Done,
            Effect::BranchExists { branch, .. } => {
                Event::Flag(self.branches.contains(&branch_name(&branch)))
            }
            Effect::CreateWorktree { dir, branch, new_branch, .. } => {
                if new_branch {
                    self.branches.push(branch_name(&branch));
                }
                self.dirs.push(dir_path(&dir));
                Event::Done
            }
            Effect::GitRemoveWorktree { dir, .. } => {
                if self.stubborn {
                    return Event::MaybeText(Some("busy".to_string()));
                }
                self.dirs.retain(|d| *d != dir_path(&dir));
                Event::MaybeText(None)
            }
            Effect::DeleteDir { .. } | Effect::PruneWorktrees { .. } => Event::Done,
            Effect::DeleteBranch { branch, .. } => {
                self.branches.retain(|b| *b != branch);
                Event::Done
            }
            Effect::DirExists { dir } => Event::Flag(self.dirs.contains(&dir_path(&dir))),
            Effect::IsGitRepo { .. } => Event::Flag(self.repo.is_some()),
            Effect::Gh(call) => self.gh(call),
            Effect::CsmDir => Event::Text("/home/me/.csm".to_string()),
            Effect::CurrentDir => Event::Text("/here".to_string()),
            Effect::NewId => Event::Text(self.ids.remove(0)),
            Effect::ConfirmResume { .. } => Event::Flag(self.agrees),
            Effect::Candidates => {
                let local = State::from_sessions(self.zellij.clone());
                let input = ListInput {
                    sessions: self.rows.clone(),
                    branches: self.rows.iter().map(|_| None).collect(),
                    states: cached_codespace_states(&self.rows, &local),
                    local,
                    all_hex_ids: hex_ids(&self.rows),
                };
                match interactive_remove_candidates(&input, self.at) {
                    Ok(items) => Event::Items(items),
                    Err(failure) => Event::Failed(failure),
                }
            }
            Effect::Pick { .. } => Event::Picked(self.picked.clone()),
            Effect::Now => Event::At(self.at),
            Effect::Wait { .. } | Effect::Report(_) => Event::Done,
            Effect::Resolve { query } => self.drive(sessions::resolve_session(query)),
            Effect::FreeName { base } => self.drive(sessions::next_available_name(&base)),
            Effect::SetCache { uuid, change } => {
                self.drive(sessions::set_codespace_cache(uuid, change))
            }
            Effect::StopAndCache { name, github_login, uuid } => {
                self.drive(sessions::stop_codespace_and_cache(name, github_login, uuid))
            }
            Effect::EnterLocal { session_name, uuid, command } => {
                self.narrate(local::enter_local_zellij(session_name, uuid, command))
            }
            Effect::StartLocal { session_name, uuid, dir, resume, include_git } => self.drive(
                local::start_local_zellij_session(session_name, uuid, dir, resume, include_git),
            ),
            Effect::EnterCodespace { session, attach_only } => {
                self.narrate(remote::enter_codespace_zellij(session, attach_only))
            }
            Effect::RunCodespace { session_name, uuid } => {
                self.narrate(remote::run_codespace(session_name, uuid))
            }
            Effect::CleanupFailed { session_name, uuid, repo, codespace_name, github_login } => {
                self.narrate(remote::cleanup_failed_codespace_creation(
                    session_name,
                    uuid,
                    repo,
                    codespace_name,
                    github_login,
                ))
            }
            Effect::SetUp { name, workdir, uuid, resume, github_login } => {
                self.drive(remote::set_up(name, workdir, uuid, resume, github_login))
            }
            Effect::RemoveOne { session, csm_dir, live, force } => {
                self.narrate(remove::remove_one(session, csm_dir, live, force))
            }
            Effect::DeleteSession { uuid } => self.drive(sessions::delete_session_by_uuid(uuid)),
            Effect::MarkRemoved { uuid } => self.drive(sessions::mark_session_removed(uuid)),
            Effect::StopZellij { uuid } => self.drive(local::stop_and_cleanup(uuid)),
            Effect::RemoveWorktree { repo, dir } => self.drive(local::remove_worktree(repo, dir)),
            Effect::StopCodespace { name, github_login } => {
                self.drive(operations::stop(name, github_login))
            }
            Effect::DeleteCodespace { name, github_login } => {
                self.drive(operations::delete(name, github_login))
            }
            Effect::DeleteIfExists { name, github_login } => {
                self.drive(operations::delete_if_exists(name, github_login))
            }
            Effect::CurrentState { name, github_login } => {
                self.drive(operations::current_state(name, github_login))
            }
            Effect::AskLauncher { name, uuid, github_login, mode } => {
                self.drive(operations::ask_launcher(name, uuid, github_login, mode))
            }
            Effect::Connect { name, workdir, uuid, github_login, attach_only } => self.drive(
                operations::connect_zellij(name, workdir, uuid, github_login, attach_only),
            ),
            Effect::Prepare(setup) => self.drive(operations::prepare_remote(setup)),
            Effect::Create { repo, session_name, uuid } => {
                self.drive(operations::create(repo, session_name, uuid))
            }
            Effect::Finish(_) => unreachable!(),
        }
    }

    fn gh(&mut self, call: GhCall) -> Event {
        match call {
            GhCall::AuthStatus | GhCall::Copy { .. } | GhCall::Check { .. } => Event::Done,
            GhCall::Login => Event::Text(self.login.clone()),
            GhCall::RepoView { .. } => Event::Repo(RepoInfo {
                name_with_owner: "octo/repo".to_string(),
                default_branch: "main".to_string(),
            }),
            GhCall::FindCreated { .. } => {
                Event::MaybeText(self.codespaces.first().map(|c| c.0.clone()))
            }
            GhCall::ListStates => {
                let mut listed = NameMap::new();
                for (name, state, branch) in &self.codespaces {
                    listed.insert(
                        name.clone(),
                        RemoteState { state: state.clone(), branch: Some(branch.clone()) },
                    );
                }
                Event::Listed(listed)
            }
            GhCall::Create { .. } => {
                self.codespaces.push((
                    "space".to_string(),
                    "Available".to_string(),
                    "main".to_string(),
                ));
                Event::Exit { success: true, status: "exit status: 0".to_string() }
            }
            GhCall::Launcher { mode, .. } => match mode {
                LauncherMode::State => Event::Remote(self.remote),
                LauncherMode::Ready => Event::Flag(self.ready),
                LauncherMode::ClearReady => Event::Done,
                LauncherMode::Cleanup => {
                    self.remote = RemoteZellijState::Missing;
                    Event::Done
                }
            },
            GhCall::Connect { .. } => {
                for c in self.codespaces.iter_mut() {
                    c.1 = "Available".to_string();
                }
                self.remote = self.remote_after;
                let success = self.ssh_succeeds;
                let status = if success { "exit status: 0" } else { "exit status: 255" };
                Event::Exit { success, status: status.to_string() }
            }
            GhCall::State { name } => Event::MaybeText(
                self.codespaces.iter().find(|c| c.0 == name).map(|c| c.1.clone()),
            ),
            GhCall::Stop { name } => {
                for c in self.codespaces.iter_mut() {
                    if c.0 == name {
                        c.1 = "Shutdown".to_string();
                    }
                }
                Event::Done
            }
            GhCall::Delete { name } => {
                if !self.codespaces.iter().any(|c| c.0 == name) {
                    return Event::Failed(outside::<()>().unwrap_err());
                }
                self.codespaces.retain(|c| c.0 != name);
                Event::Done
            }
        }
    }
}

fn s(text: &str) -> String {
    text.to_string()
}

// ── run ─────────────────────────────────────────────────────────────────────

#[test]
fn run_makes_a_worktree_and_a_record() {
    let mut w = world();
    w.works(run::run(s("feat"), false, false));
    assert_eq!(w.names(), vec!["feat"]);
    let row = w.row("feat");
    assert_eq!(row.branch, "tylerkrop/feat");
    assert_eq!(row.worktree_path, "/home/me/.csm/worktrees/repo/repo-abcdef01");
    assert_eq!(row.source_repo, "/src/repo");
    assert_eq!(w.dirs, vec!["/home/me/.csm/worktrees/repo/repo-abcdef01"]);
    assert_eq!(w.branches, vec!["tylerkrop/feat"]);
    assert_eq!(w.zellij, vec![(s("abcdef01"), true)]);
    assert!(w.did("Pull"));
    assert!(!w.did("WriteMarker"));
    assert!(!w.did("ConfirmResume"));
}

#[test]
fn run_pulls_only_on_the_default_branches() {
    for (branch, pulls) in [("main", true), ("master", true), ("topic", false)] {
        let mut w = world();
        w.branch = Some(s(branch));
        w.works(run::run(s("feat"), false, false));
        assert_eq!(w.did("Pull"), pulls, "{branch}");
    }
    let mut w = world();
    w.branch = None;
    w.works(run::run(s("feat"), false, false));
    assert!(!w.did("Pull"));
}

#[test]
fn run_checks_the_name() {
    let mut w = world();
    assert_eq!(
        w.fails_with(run::run(s("a b"), false, false)),
        "Session name must only contain alphanumeric characters, hyphens, or underscores"
    );
    assert!(w.log.is_empty());
}

#[test]
fn run_asks_before_it_resumes_a_branch() {
    let mut w = world();
    w.branches.push(s("tylerkrop/feat"));
    w.agrees = false;
    assert_eq!(
        w.fails_with(run::run(s("feat"), false, false)),
        "Aborted: branch 'tylerkrop/feat' already exists."
    );
    assert!(w.rows.is_empty() && w.dirs.is_empty());
    w.agrees = true;
    w.ids = vec![s(UUID)];
    w.works(run::run(s("feat"), false, false));
    assert_eq!(w.branches.len(), 1);
    assert_eq!(w.names(), vec!["feat"]);
}

#[test]
fn run_numbers_names_in_use_and_reclaims_removed_ones() {
    let mut w = world();
    w.rows.push(local_row("feat", OTHER));
    w.rows.push(local_row("feat-2", "22222222-2345-4789-abcd-ef0123456789"));
    w.works(run::run(s("feat"), false, false));
    assert_eq!(w.names(), vec!["feat", "feat-2", "feat-3"]);
    assert_eq!(w.row("feat-3").branch, "tylerkrop/feat");

    let mut w = world();
    w.rows.push(Model { status: s("removed"), ..local_row("feat", OTHER) });
    w.works(run::run(s("feat"), false, false));
    assert_eq!(w.names(), vec!["feat"]);
    assert_eq!(w.row("feat").copilot_uuid, UUID);

    let mut w = world();
    w.rows.push(Model { status: s("removed"), ..remote_row("feat", OTHER) });
    w.works(run::run(s("feat"), false, false));
    assert_eq!(w.names(), vec!["feat", "feat-2"]);
}

#[test]
fn run_here_and_outside_a_repository_keeps_to_the_directory() {
    let mut w = world();
    w.works(run::run(s("feat"), true, false));
    assert_eq!(w.row("feat").worktree_path, "/here");
    assert_eq!(w.row("feat").source_repo, "/src/repo");
    assert_eq!(w.row("feat").branch, "");
    assert!(w.dirs.is_empty());

    for here in [true, false] {
        let mut w = world();
        w.repo = None;
        w.works(run::run(s("feat"), here, false));
        assert_eq!(w.row("feat").worktree_path, "/here");
        assert_eq!(w.row("feat").source_repo, "/here");
    }
}

#[test]
fn failed_run_removes_what_it_made() {
    let mut w = world();
    w.client_succeeds = false;
    w.client_leaves = None;
    assert_eq!(
        w.fails_with(run::run(s("feat"), false, false)),
        "zellij exited with exit status: 1 before session 'abcdef01' started"
    );
    assert!(w.rows.is_empty() && w.dirs.is_empty());
    assert!(w.did("CleanupFiles"));

    let mut w = world();
    w.fails = vec!["Client"];
    assert_eq!(w.fails_with(run::run(s("feat"), true, false)), "Failed to run zellij: outside");
    assert!(w.rows.is_empty());
    assert!(!w.did("RemoveWorktree"));
}

#[test]
fn exited_sessions_are_cleaned_up_after_the_client() {
    let mut w = world();
    w.client_leaves = Some(false);
    w.client_succeeds = false;
    w.works(run::run(s("feat"), false, false));
    assert!(w.zellij.is_empty());
    assert_eq!(w.names(), vec!["feat"]);
}

// ── run in a Codespace ──────────────────────────────────────────────────────

#[test]
fn run_creates_a_codespace() {
    let mut w = world();
    w.works(run::run(s("feat"), false, true));
    let row = w.row("feat");
    assert_eq!(row.backend, "codespace");
    assert_eq!(row.codespace_name.as_deref(), Some("space"));
    assert_eq!(row.remote_workdir.as_deref(), Some("/workspaces/repo"));
    assert_eq!(row.cached_zellij_state.as_deref(), Some("running"));
    assert_eq!(row.cached_codespace_state.as_deref(), Some("available"));
    assert_eq!(w.space_state(), "Available");
}

#[test]
fn codespaces_need_a_repository() {
    let mut w = world();
    w.repo = None;
    assert_eq!(
        w.fails_with(run::run(s("feat"), false, true)),
        "Codespace sessions must be created from a Git repository: outside"
    );
}

#[test]
fn failed_set_up_deletes_the_codespace() {
    let mut w = world();
    w.fails = vec!["Check"];
    assert_eq!(w.fails_with(run::run(s("feat"), false, true)), "outside");
    assert!(w.rows.is_empty() && w.codespaces.is_empty());

    let mut w = world();
    w.fails = vec!["Insert"];
    assert_eq!(w.fails_with(run::run(s("feat"), false, true)), "outside");
    assert!(w.rows.is_empty() && w.codespaces.is_empty());
}

#[test]
fn undeleted_codespace_stays_on_record() {
    let mut w = world();
    w.fails = vec!["Check", "Delete"];
    assert_eq!(w.fails_with(run::run(s("feat"), false, true)), "outside");
    assert_eq!(w.codespaces.len(), 1);
    assert_eq!(w.names(), vec!["feat"]);

    // Another session took the name meanwhile.
    let mut w = world().with_space("Available");
    w.fails = vec!["Delete"];
    w.rows.push(local_row("feat", OTHER));
    let repo = RepoInfo { name_with_owner: s("octo/repo"), default_branch: s("main") };
    w.works(remote::cleanup_failed_codespace_creation(
        s("feat"),
        s(UUID),
        repo.clone(),
        s("space"),
        s("octocat"),
    ));
    assert_eq!(w.names(), vec!["feat", "feat-cleanup-abcdef01"]);
    assert_eq!(w.row("feat-cleanup-abcdef01").status, "removed");

    // No session has the name.
    let mut w = world().with_space("Available");
    w.fails = vec!["Delete"];
    w.works(remote::cleanup_failed_codespace_creation(
        s("feat"),
        s(UUID),
        repo,
        s("space"),
        s("octocat"),
    ));
    assert_eq!(w.row("feat").status, "removed");
    assert_eq!(w.row("feat").codespace_name.as_deref(), Some("space"));
}

#[test]
fn failed_connection_stops_the_new_codespace() {
    let mut w = world();
    w.fails = vec!["Connect"];
    assert_eq!(w.fails_with(run::run(s("feat"), false, true)), "outside");
    assert_eq!(w.names(), vec!["feat"]);
    assert_eq!(w.space_state(), "Shutdown");
    assert_eq!(w.row("feat").cached_codespace_state.as_deref(), Some("shutdown"));
}

#[test]
fn creation_is_awaited() {
    let repo = RepoInfo { name_with_owner: s("octo/repo"), default_branch: s("main") };
    let ends = |found: Event, success: bool| {
        let (mut flow, mut effect) = operations::create(repo.clone(), s("feat"), s(UUID));
        let mut looks = 0;
        let mut found = Some(found);
        loop {
            let event = match &effect {
                Effect::Gh(GhCall::Create { .. }) => {
                    Event::Exit { success, status: s("exit status: 1") }
                }
                Effect::Gh(GhCall::FindCreated { .. }) => {
                    looks += 1;
                    match &found {
                        Some(Event::MaybeText(None)) => Event::MaybeText(None),
                        Some(Event::Failed(_)) => Event::Failed(outside::<()>().unwrap_err()),
                        _ => found.take().unwrap(),
                    }
                }
                Effect::Wait { millis } => {
                    assert_eq!(*millis, 250);
                    Event::Done
                }
                _ => break,
            };
            let (next, wanted) = flow.next(event);
            flow = next;
            effect = wanted;
        }
        match effect {
            Effect::Finish(Event::Text(name)) => (looks, name),
            Effect::Finish(Event::Failed(failure)) => (looks, failure.message()),
            other => panic!("unexpected effect: {other:?}"),
        }
    };
    assert_eq!(ends(Event::MaybeText(Some(s("space"))), true), (1, s("space")));
    assert_eq!(ends(Event::MaybeText(Some(s("space"))), false), (1, s("space")));
    assert_eq!(
        ends(Event::MaybeText(Some(s("a b"))), true),
        (1, s("Invalid Codespace name: a b"))
    );
    assert_eq!(
        ends(Event::MaybeText(None), false),
        (20, s("gh codespace create failed with exit status: 1"))
    );
    assert_eq!(
        ends(Event::MaybeText(None), true),
        (
            20,
            s("gh codespace create succeeded, but csm could not find display name 'csm-abcdef01-feat'. Locate it with `gh codespace list`.")
        )
    );
    assert_eq!(
        ends(Event::Failed(Failure::SameName), true),
        (
            20,
            s("Could not resolve the Codespace named 'csm-abcdef01-feat'. Locate it with `gh codespace list`.: outside")
        )
    );
}

// ── start and attach ────────────────────────────────────────────────────────

#[test]
fn start_resumes_a_local_session() {
    let mut w = world();
    w.rows.push(local_row("feat", UUID));
    w.zellij.push((s("abcdef01"), false));
    w.works(start::start(s("abc")));
    assert!(w.did("CleanupZellij") && w.did("WriteMarker"));
    assert_eq!(w.row("feat").last_used_at, "2026-01-01 00:00:00");
    assert_eq!(
        w.fails_with(start::start(s("feat"))),
        "Session 'feat' is already running. Use `csm attach feat` to connect."
    );
}

#[test]
fn start_refuses_removed_and_unknown_sessions() {
    let mut w = world();
    w.rows.push(Model { status: s("removed"), ..local_row("gone", UUID) });
    w.rows.push(Model { backend: s("moon"), ..local_row("odd", OTHER) });
    assert_eq!(
        w.fails_with(start::start(s("gone"))),
        "Session 'gone' has been removed. Use `csm restore gone` to recover."
    );
    assert_eq!(
        w.fails_with(start::start(s("odd"))),
        "Session 'odd' has unknown backend 'moon'"
    );
    assert_eq!(
        w.fails_with(start::start(s("none"))),
        "No session found matching 'none'"
    );
}

#[test]
fn start_opens_a_stopped_codespace() {
    let mut w = world().with_space("Shutdown");
    w.rows.push(remote_row("feat", UUID));
    w.works(start::start(s("feat")));
    let row = w.row("feat");
    assert_eq!(row.cached_zellij_state.as_deref(), Some("running"));
    assert_eq!(row.last_used_at, "2026-01-01 00:00:00");
}

#[test]
fn start_leaves_a_running_codespace_alone() {
    let mut w = world().with_space("Available");
    w.rows.push(remote_row("feat", UUID));
    w.remote = RemoteZellijState::Running;
    assert_eq!(
        w.fails_with(start::start(s("feat"))),
        "Session 'feat' is already running. Use `csm attach feat` to connect."
    );
    assert_eq!(w.row("feat").cached_zellij_state.as_deref(), Some("running"));
    assert!(!w.did("Stop"));

    let mut w = world().with_space("Available");
    w.rows.push(remote_row("feat", UUID));
    w.fails = vec!["Check"];
    assert_eq!(w.fails_with(start::start(s("feat"))), "outside");
    assert!(!w.did("Stop"));
}

#[test]
fn failed_start_stops_a_codespace_that_was_stopped() {
    let mut w = world().with_space("Shutdown");
    w.rows.push(remote_row("feat", UUID));
    w.fails = vec!["Check"];
    assert_eq!(w.fails_with(start::start(s("feat"))), "outside");
    assert!(w.did("Stop"));
    assert_eq!(w.row("feat").cached_codespace_state.as_deref(), Some("shutdown"));
}

#[test]
fn attach_needs_a_running_session() {
    let mut w = world().with_space("Shutdown");
    w.rows.push(local_row("here", OTHER));
    w.rows.push(remote_row("there", UUID));
    assert_eq!(
        w.fails_with(attach::attach(s("here"))),
        "Session 'here' is not running. Use `csm start here` first."
    );
    assert_eq!(
        w.fails_with(attach::attach(s("there"))),
        "Session 'there' is stopped. Use `csm start there` first."
    );
    w.zellij.push((s("12345678"), true));
    w.works(attach::attach(s("here")));
    assert_eq!(w.row("here").last_used_at, "2026-01-01 00:00:00");
    w.codespaces[0].1 = s("Available");
    w.remote = RemoteZellijState::Running;
    w.works(attach::attach(s("there")));
    assert_eq!(w.row("there").cached_zellij_state.as_deref(), Some("running"));
}

// ── what follows a connection ───────────────────────────────────────────────

fn enter(after: RemoteZellijState, ready: bool, ssh: bool) -> (World, Event) {
    let mut w = world().with_space("Available");
    w.rows.push(remote_row("feat", UUID));
    w.remote_after = after;
    w.ready = ready;
    w.ssh_succeeds = ssh;
    let session = w.rows[0].clone();
    let outcome = w.narrate(remote::enter_codespace_zellij(session, false));
    (w, outcome)
}

#[test]
fn running_codespace_is_left_running() {
    let (w, outcome) = enter(RemoteZellijState::Running, true, false);
    assert!(matches!(outcome, Event::Done));
    assert_eq!(w.space_state(), "Available");
    let (w, outcome) = enter(RemoteZellijState::LegacyTmux, true, true);
    assert!(matches!(outcome, Event::Done));
    assert_eq!(w.row("feat").cached_zellij_state.as_deref(), Some("legacy"));
}

#[test]
fn codespace_without_a_session_is_stopped() {
    for (after, cleans) in [(RemoteZellijState::Exited, true), (RemoteZellijState::Missing, false)] {
        let (w, outcome) = enter(after, true, true);
        assert!(matches!(outcome, Event::Done));
        assert_eq!(w.space_state(), "Shutdown");
        assert_eq!(w.row("feat").cached_codespace_state.as_deref(), Some("shutdown"));
        assert_eq!(w.remote, RemoteZellijState::Missing);
        assert_eq!(w.log.iter().filter(|l| *l == "Launcher").count(), if cleans { 3 } else { 2 });
        let (_, outcome) = enter(after, true, false);
        let message = match outcome {
            Event::Failed(failure) => failure.message(),
            other => panic!("unexpected outcome: {other:?}"),
        };
        assert!(message.contains("exit status: 255"), "{message}");
    }
}

#[test]
fn codespace_without_its_tabs_is_stopped() {
    let (w, outcome) = enter(RemoteZellijState::Running, false, true);
    assert!(matches!(outcome, Event::Failed(Failure::LayoutMissing)));
    assert_eq!(w.space_state(), "Shutdown");
}

#[test]
fn connecting_is_not_a_remote_state() {
    let (_, outcome) = enter(RemoteZellijState::Connecting, true, true);
    assert!(matches!(outcome, Event::Failed(Failure::ConnectingState)));
}

// ── restore ─────────────────────────────────────────────────────────────────

#[test]
fn restore_brings_a_session_back() {
    let mut w = world();
    w.rows.push(Model { status: s("removed"), ..local_row("feat", UUID) });
    assert_eq!(
        w.fails_with(restore::restore(s("feat"))),
        "Branch 'tylerkrop/feat' no longer exists"
    );
    w.branches.push(s("tylerkrop/feat"));
    w.works(restore::restore(s("feat")));
    assert_eq!(w.row("feat").status, "active");
    assert_eq!(w.dirs, vec!["/home/me/.csm/worktrees/repo/repo-abcdef01"]);
    assert_eq!(
        w.fails_with(restore::restore(s("feat"))),
        "Session 'feat' is not removed (status: active). Use `csm attach` instead."
    );
}

#[test]
fn failed_restore_leaves_the_session_removed() {
    let mut w = world().with_space("Shutdown");
    w.rows.push(Model { status: s("removed"), ..remote_row("feat", UUID) });
    w.fails = vec!["Connect"];
    assert_eq!(w.fails_with(restore::restore(s("feat"))), "outside");
    assert_eq!(w.row("feat").status, "removed");
    assert_eq!(w.row("feat").cached_codespace_state.as_deref(), Some("shutdown"));
    w.fails = Vec::new();
    w.works(restore::restore(s("feat")));
    assert_eq!(w.row("feat").status, "active");
}

// ── stop ────────────────────────────────────────────────────────────────────

#[test]
fn stop_ends_every_named_session() {
    let mut w = world().with_space("Available");
    w.rows.push(local_row("one", OTHER));
    w.rows.push(remote_row("two", UUID));
    w.rows.push(local_row("idle", "99999999-2345-4789-abcd-ef0123456789"));
    w.zellij = vec![(s("12345678"), true)];
    w.works(stop::stop(vec![s("one"), s("missing"), s("two"), s("idle")]));
    assert!(w.zellij.is_empty());
    assert_eq!(w.space_state(), "Shutdown");
    assert!(w.did("Stopped session"), "{:?}", w.log);
    assert!(w.did("Session is not running"), "{:?}", w.log);
    assert_eq!(w.row("two").cached_codespace_state.as_deref(), Some("shutdown"));
}

#[test]
fn stop_counts_what_it_could_not_stop() {
    let mut w = world().with_space("Available");
    w.rows.push(remote_row("two", UUID));
    w.fails = vec!["Stop"];
    assert_eq!(w.fails_with(stop::stop(vec![s("two")])), "Failed to stop 1 session(s)");
    assert_eq!(w.fails_with(stop::stop(Vec::new())), "No session names provided");
}

#[test]
fn shut_down_codespace_counts_as_stopped() {
    let mut w = world().with_space("ShutDown");
    w.fails = vec!["Stop"];
    w.works(operations::stop(s("space"), s("octocat")));
    w.codespaces.clear();
    w.works(operations::stop(s("space"), s("octocat")));
}

#[test]
fn stopping_zellij_gives_up_in_the_end() {
    let mut w = world();
    w.zellij = vec![(s("abcdef01"), true)];
    w.stubborn = true;
    let outcome = w.drive(local::stop_and_cleanup(s(UUID)));
    assert!(matches!(outcome, Event::Flag(false)));
    assert_eq!(w.log.iter().filter(|l| *l == "CleanupZellij").count(), 50);
}

// ── rm ──────────────────────────────────────────────────────────────────────

#[test]
fn soft_removal_keeps_the_branch_and_the_record() {
    let mut w = world();
    w.rows.push(local_row("feat", UUID));
    w.dirs.push(s("/home/me/.csm/worktrees/repo/repo-abcdef01"));
    w.zellij.push((s("abcdef01"), true));
    w.branches.push(s("tylerkrop/feat"));
    w.works(remove::rm(vec![s("feat"), s("abcdef")], false, false, None));
    assert_eq!(w.row("feat").status, "removed");
    assert!(w.dirs.is_empty() && w.zellij.is_empty());
    assert_eq!(w.log.iter().filter(|l| *l == "RemoveOne").count(), 1);
    assert_eq!(w.branches, vec!["tylerkrop/feat"]);
}

#[test]
fn destruction_takes_the_branch_and_the_record() {
    for status in ["active", "removed"] {
        let mut w = world();
        w.rows.push(Model { status: s(status), ..local_row("feat", UUID) });
        w.branches = vec![s("tylerkrop/feat"), s("main")];
        w.works(remove::rm(vec![s("feat")], true, false, None));
        assert!(w.rows.is_empty());
        assert_eq!(w.branches, vec!["main"]);
    }
    let mut w = world();
    w.rows.push(Model { branch: String::new(), ..local_row("here", UUID) });
    w.works(remove::rm(vec![s("here")], true, false, None));
    assert!(!w.did("DeleteBranch"));
    let mut w = world();
    w.rows.push(local_row("feat", UUID));
    w.fails = vec!["DeleteBranch"];
    w.works(remove::rm(vec![s("feat")], true, false, None));
    assert!(w.rows.is_empty());
}

#[test]
fn removal_keeps_directories_that_are_not_managed() {
    let mut w = world();
    w.rows.push(Model { worktree_path: s("/here"), ..local_row("feat", UUID) });
    w.dirs.push(s("/here"));
    w.works(remove::rm(vec![s("feat")], true, false, None));
    assert!(w.rows.is_empty());
    assert_eq!(w.dirs, vec!["/here"]);
}

#[test]
fn soft_removal_stops_the_codespace_and_force_deletes_it() {
    let mut w = world().with_space("Available");
    w.rows.push(remote_row("feat", UUID));
    w.works(remove::rm(vec![s("feat")], false, false, None));
    assert_eq!(w.space_state(), "Shutdown");
    assert_eq!(w.row("feat").status, "removed");
    assert_eq!(w.row("feat").cached_codespace_state.as_deref(), Some("shutdown"));
    w.works(remove::rm(vec![s("feat")], true, false, None));
    assert!(w.codespaces.is_empty() && w.rows.is_empty());
    assert!(w.did("Pruned orphaned session files"), "{:?}", w.log);
}

#[test]
fn record_stays_while_its_codespace_does() {
    let mut w = world().with_space("Available");
    w.rows.push(remote_row("feat", UUID));
    w.fails = vec!["Delete"];
    assert_eq!(w.fails_with(remove::rm(vec![s("feat")], true, false, None)), "outside");
    assert_eq!(w.names(), vec!["feat"]);
    // A Codespace that is gone already is as good as deleted.
    w.fails = Vec::new();
    w.codespaces.clear();
    w.works(remove::rm(vec![s("feat")], true, false, None));
    assert!(w.rows.is_empty());
}

#[test]
fn idle_sessions_are_found() {
    let mut w = world();
    w.rows.push(Model { last_used_at: s("2025-12-22 00:00:00"), ..local_row("old", UUID) });
    w.rows.push(Model { last_used_at: s("2025-12-22 00:00:01"), ..local_row("new", OTHER) });
    w.works(remove::rm(Vec::new(), false, false, Some(10)));
    assert_eq!(w.row("old").status, "removed");
    assert_eq!(w.row("new").status, "active");
}

#[test]
fn removal_needs_something_to_remove() {
    let mut w = world();
    assert_eq!(
        w.fails_with(remove::rm(Vec::new(), false, false, None)),
        "No sessions specified: provide names, --interactive, or --older-than <DAYS>"
    );
    w.works(remove::rm(vec![s("none")], false, false, None));
    assert!(w.did("No matching sessions to remove"), "{:?}", w.log);
}

#[test]
fn sessions_are_picked() {
    let mut w = world();
    w.works(remove::rm(Vec::new(), false, true, None));
    assert!(w.did("No sessions to remove"));
    w.rows.push(local_row("feat", UUID));
    w.works(remove::rm(Vec::new(), false, true, None));
    assert!(w.did("Removal cancelled"));
    assert_eq!(w.row("feat").status, "active");
    w.picked = Some(vec![s("feat")]);
    w.works(remove::rm(Vec::new(), false, true, None));
    assert_eq!(w.row("feat").status, "removed");
}

#[test]
fn exactly_one_record_goes() {
    let mut w = world();
    w.rows.push(local_row("one", UUID));
    w.rows.push(local_row("two", UUID));
    assert_eq!(
        w.fails_with(sessions::delete_session_by_uuid(s(UUID))),
        format!("Expected one session with UUID '{UUID}', found 2")
    );
    assert_eq!(w.rows.len(), 2);
}

#[test]
fn worktrees_that_stay_are_reported() {
    let mut w = world();
    w.stubborn = true;
    w.dirs.push(s("/w"));
    let dir = csm::git::Dir::At(s("/w"));
    assert_eq!(
        w.fails_with(local::remove_worktree(s("/src/repo"), dir)),
        "Failed to remove worktree at /w: busy"
    );
    assert!(w.did("DeleteDir") && w.did("PruneWorktrees"));
    w.dirs.clear();
    w.works(local::remove_worktree(s("/src/repo"), csm::git::Dir::At(s("/w"))));
}

// ── rename ──────────────────────────────────────────────────────────────────

#[test]
fn rename_changes_the_name_alone() {
    let mut w = world();
    w.rows.push(local_row("old", UUID));
    w.zellij.push((s("abcdef01"), true));
    w.works(rename::rename(s("old"), s("new")));
    assert_eq!(w.names(), vec!["new"]);
    assert_eq!(
        *w.row("new"),
        Model {
            name: s("new"),
            last_used_at: s("2026-01-01 00:00:00"),
            ..local_row("old", UUID)
        }
    );
    assert!(w.did(" (still running)"), "{:?}", w.log);
}

#[test]
fn rename_refuses_names_in_use() {
    let mut w = world();
    w.rows.push(local_row("old", UUID));
    w.rows.push(local_row("new", OTHER));
    assert_eq!(
        w.fails_with(rename::rename(s("old"), s("new"))),
        "Session 'new' already exists"
    );
    assert_eq!(
        w.fails_with(rename::rename(s("old"), s("old"))),
        "New name is the same as the old name"
    );
    assert_eq!(
        w.fails_with(rename::rename(s("old"), s(""))),
        "Session name cannot be empty"
    );
    assert_eq!(w.names(), vec!["old", "new"]);
}

// ── Codespaces of other accounts ────────────────────────────────────────────

#[test]
fn other_accounts_cannot_touch_a_codespace() {
    let refused = "Codespace belongs to GitHub account 'octocat', but gh is using 'mallory'. Run `gh auth switch --user octocat` first.";
    let mut w = world().with_space("Available");
    w.login = s("mallory");
    let (name, login) = (s("space"), s("octocat"));
    assert_eq!(w.fails_with(operations::stop(name.clone(), login.clone())), refused);
    assert_eq!(w.fails_with(operations::delete(name.clone(), login.clone())), refused);
    assert_eq!(w.fails_with(operations::delete_if_exists(name.clone(), login.clone())), refused);
    assert_eq!(w.fails_with(operations::current_state(name.clone(), login.clone())), refused);
    assert_eq!(
        w.fails_with(operations::remote_zellij_state(name.clone(), s(UUID), login.clone())),
        refused
    );
    assert_eq!(
        w.fails_with(operations::remote_zellij_ready(name.clone(), s(UUID), login.clone())),
        refused
    );
    assert_eq!(
        w.fails_with(operations::cleanup_remote_zellij(name.clone(), s(UUID), login.clone())),
        refused
    );
    assert_eq!(
        w.fails_with(operations::connect_zellij(
            name.clone(),
            s("/workspaces/repo"),
            s(UUID),
            login.clone(),
            true
        )),
        refused
    );
    assert_eq!(
        w.fails_with(operations::delete(s("a b"), login)),
        "Invalid Codespace name: a b"
    );
    assert!(w.log.iter().all(|l| l == "Login"), "{:?}", w.log);
}

// ── list --refresh ──────────────────────────────────────────────────────────

#[test]
fn refresh_stores_what_it_sees() {
    let mut w = world().with_space("Available");
    w.rows.push(remote_row("feat", UUID));
    w.rows.push(Model {
        codespace_name: Some(s("gone")),
        cached_codespace_branch: Some(s("topic")),
        ..remote_row("lost", OTHER)
    });
    w.remote = RemoteZellijState::Exited;
    let none = State::from_sessions(Vec::new());
    let outcome = w.drive(refresh::refresh_codespace_states(w.rows.clone(), none));
    let states = match outcome {
        Event::Codespaces(states) => states,
        other => panic!("unexpected outcome: {other:?}"),
    };
    assert_eq!(states.current_login.as_deref(), Some("octocat"));
    assert_eq!(w.row("feat").cached_codespace_state.as_deref(), Some("available"));
    assert_eq!(w.row("feat").cached_zellij_state.as_deref(), Some("exited"));
    assert_eq!(w.row("feat").cached_codespace_branch.as_deref(), Some("main"));
    assert_eq!(w.row("lost").cached_codespace_state.as_deref(), Some("missing"));
    assert_eq!(w.row("lost").cached_codespace_branch.as_deref(), Some("topic"));
}

#[test]
fn refresh_skips_other_accounts_and_local_sessions() {
    let mut w = world();
    w.rows.push(local_row("here", OTHER));
    let none = || State::from_sessions(Vec::new());
    assert!(matches!(
        w.drive(refresh::refresh_codespace_states(w.rows.clone(), none())),
        Event::Codespaces(_)
    ));
    assert!(w.log.is_empty());
    w.rows.push(remote_row("feat", UUID));
    w.login = s("mallory");
    let before = w.rows.clone();
    assert!(matches!(
        w.drive(refresh::refresh_codespace_states(w.rows.clone(), none())),
        Event::Codespaces(_)
    ));
    assert_eq!(w.rows, before);
}

#[test]
fn refresh_keeps_recent_connections() {
    for (updated, expected) in
        [("2025-12-31 23:59:00", "connecting"), ("2025-12-31 23:00:00", "missing")]
    {
        let mut w = world().with_space("Available");
        w.rows.push(Model {
            cached_codespace_state: Some(s("available")),
            cached_zellij_state: Some(s("connecting")),
            codespace_state_updated_at: Some(s(updated)),
            ..remote_row("feat", UUID)
        });
        let none = State::from_sessions(Vec::new());
        w.drive(refresh::refresh_codespace_states(w.rows.clone(), none));
        assert_eq!(w.row("feat").cached_zellij_state.as_deref(), Some(expected));
    }
}

#[test]
fn refresh_overwrites_no_later_change() {
    let mut w = world().with_space("Available");
    w.rows.push(remote_row("feat", UUID));
    let stale = vec![Model { cached_codespace_state: Some(s("rebuilding")), ..w.rows[0].clone() }];
    let before = w.rows.clone();
    let none = State::from_sessions(Vec::new());
    assert!(matches!(
        w.drive(refresh::refresh_codespace_states(stale, none)),
        Event::Codespaces(_)
    ));
    assert_eq!(w.rows, before);
}

// ── The session table ───────────────────────────────────────────────────────

#[test]
fn migration_adds_what_is_missing() {
    let mut w = world();
    w.columns = vec![s("name"), s("backend")];
    w.works(db::ensure_session_columns());
    assert_eq!(
        w.columns,
        vec![
            "name",
            "backend",
            "codespace_name",
            "remote_workdir",
            "github_login",
            "cached_codespace_state",
            "cached_codespace_branch",
            "cached_zellij_state",
            "codespace_state_updated_at",
        ]
    );
    let log = w.log.len();
    w.works(db::ensure_session_columns());
    assert!(!w.log[log..].contains(&s("AddColumn")));
    w.columns.clear();
    w.fails = vec!["AddColumn"];
    assert_eq!(w.fails_with(db::ensure_session_columns()), "Failed to add sessions.backend: outside");
}

// ── what the user is told ───────────────────────────────────────────────────

#[test]
fn removed_sessions_are_named_where_they_are_skipped() {
    let mut w = world();
    w.rows.push(Model { status: s("removed"), ..local_row("gone", UUID) });
    w.works(remove::rm(vec![s("gone")], false, false, None));
    assert!(w.did("Session is already removed; skipping unless force is used"), "{:?}", w.log);
    assert_eq!(w.names(), vec!["gone"]);
    let (_, effect) = remove::remove_one(
        w.rows[0].clone(),
        s("/home/me/.csm"),
        true,
        false,
    );
    match effect {
        Effect::Report(Notice::AlreadyRemoved { name, uuid }) => {
            assert_eq!((name, uuid), (s("gone"), s(UUID)));
        }
        other => panic!("unexpected effect: {other:?}"),
    }

    let mut w = world();
    w.rows.push(Model { status: s("removed"), ..local_row("gone", UUID) });
    assert!(matches!(w.narrate(stop::stop(vec![s("gone")])), Event::Done));
    let told = w.remark(Topic::Removed);
    assert_eq!(told.name.as_deref(), Some("gone"));
    assert_eq!(told.uuid.as_deref(), Some(UUID));
}

#[test]
fn unknown_names_are_mentioned() {
    let mut w = world();
    w.rows.push(local_row("one", OTHER));
    assert!(matches!(w.narrate(stop::stop(vec![s("typo")])), Event::Done));
    let told = w.remark(Topic::NotResolved);
    assert_eq!(told.detail.as_deref(), Some("typo"));
    assert!(told.error.as_deref().unwrap().contains("typo"));

    let mut w = world();
    w.rows.push(local_row("one", OTHER));
    assert!(matches!(
        w.narrate(remove::rm(vec![s("typo"), s("one")], false, false, None)),
        Event::Done
    ));
    assert_eq!(w.remark(Topic::NotResolved).detail.as_deref(), Some("typo"));
    assert_eq!(w.row("one").status, "removed");
}

#[test]
fn sessions_that_do_not_end_are_mentioned() {
    let mut w = world();
    w.rows.push(local_row("feat", UUID));
    w.zellij = vec![(s("abcdef01"), true)];
    w.stubborn = true;
    assert!(matches!(w.narrate(stop::stop(vec![s("feat")])), Event::Done));
    assert_eq!(w.warnings(), vec![Topic::StillPresent]);
    assert_eq!(w.remark(Topic::StillPresent).name.as_deref(), Some("feat"));
    assert!(w.did("Stopped session"));

    let mut w = world();
    w.rows.push(local_row("feat", UUID));
    w.zellij = vec![(s("abcdef01"), true)];
    w.dirs.push(s("/home/me/.csm/worktrees/repo/repo-abcdef01"));
    w.stubborn = true;
    w.works(remove::rm(vec![s("feat")], false, false, None));
    assert_eq!(w.warnings(), vec![Topic::StillThere, Topic::WorktreeStays]);
    assert!(w.remark(Topic::WorktreeStays).error.as_deref().unwrap().contains("busy"));
    assert_eq!(w.row("feat").status, "removed");
}

#[test]
fn sessions_that_cannot_be_stopped_are_mentioned() {
    let mut w = world().with_space("Available");
    w.rows.push(Model { codespace_name: None, ..remote_row("odd", UUID) });
    w.rows.push(Model { backend: s("cloud"), ..local_row("far", OTHER) });
    w.rows.push(remote_row("two", "99999999-2345-4789-abcd-ef0123456789"));
    w.fails = vec!["Stop"];
    w.zellij = vec![(s("12345678"), true)];
    w.stubborn = true;
    let outcome = w.narrate(stop::stop(vec![s("odd"), s("far"), s("two")]));
    match outcome {
        Event::Failed(f) => assert_eq!(f.message(), "Failed to stop 3 session(s)"),
        other => panic!("unexpected outcome: {other:?}"),
    }
    assert_eq!(
        w.warnings(),
        vec![Topic::InvalidDetails, Topic::StillPresent, Topic::UnknownBackend, Topic::NotStopped]
    );
    let told = w.remark(Topic::InvalidDetails);
    assert_eq!(told.name.as_deref(), Some("odd"));
    assert!(told.error.as_deref().unwrap().contains("Codespace name"), "{told:?}");
    assert_eq!(w.remark(Topic::UnknownBackend).detail.as_deref(), Some("cloud"));
    let told = w.remark(Topic::NotStopped);
    assert_eq!(told.name.as_deref(), Some("two"));
    assert_eq!(told.codespace.as_deref(), Some("space"));
    assert!(told.error.is_some());
}

fn undo(rows: Vec<Model>, fails: Vec<&'static str>) -> World {
    let mut w = world().with_space("Available");
    w.rows = rows;
    w.fails = fails;
    let outcome = w.narrate(remote::cleanup_failed_codespace_creation(
        s("feat"),
        s(UUID),
        RepoInfo { name_with_owner: s("octo/repo"), default_branch: s("main") },
        s("space"),
        s("octocat"),
    ));
    assert!(matches!(outcome, Event::Done));
    w
}

#[test]
fn undoing_a_creation_says_what_is_left() {
    assert!(undo(Vec::new(), Vec::new()).told.is_empty());

    let w = undo(vec![remote_row("feat", UUID)], vec!["DeleteRow"]);
    let told = w.remark(Topic::RecordNotRemoved);
    assert_eq!(told.name.as_deref(), Some("feat"));
    assert_eq!(told.error.as_deref(), Some("outside"));
    assert!(told.delete_error.is_none());
    assert!(w.did("CleanupFiles"));

    let other = || vec![local_row("feat", OTHER)];
    let kept = "feat-cleanup-abcdef01";
    for (rows, also, topic, name) in [
        (vec![remote_row("feat", UUID)], "None", Topic::SessionKept, "feat"),
        (Vec::new(), "FindByName", Topic::RecordNotInspected, "feat"),
        (Vec::new(), "None", Topic::RecordKept, "feat"),
        (Vec::new(), "Insert", Topic::RecordNotKept, "feat"),
        (other(), "FreeName", Topic::RecordNotReserved, "feat"),
        (other(), "None", Topic::RecordKept, kept),
        (other(), "Insert", Topic::RecordNotKept, "feat"),
    ] {
        let w = undo(rows, vec!["Delete", also]);
        assert_eq!(w.warnings(), vec![topic]);
        let told = w.remark(topic);
        assert_eq!(told.name.as_deref(), Some(name), "{told:?}");
        assert_eq!(told.uuid.as_deref(), Some(UUID));
        assert_eq!(told.codespace.as_deref(), Some("space"));
        assert!(told.delete_error.as_deref().unwrap().contains("outside"), "{told:?}");
        assert_eq!(told.error.is_some(), also != "None", "{told:?}");
        assert_eq!(w.rows.iter().any(|r| r.name == name && r.copilot_uuid == UUID), also == "None");
    }
}

fn space_details() -> CodespaceDetails {
    CodespaceDetails {
        name: s("space"),
        workdir: s("/workspaces/repo"),
        github_login: s("octocat"),
    }
}

#[test]
fn sessions_that_vanish_meanwhile_are_mentioned() {
    let mut w = world();
    let begin = local::enter_local_zellij(
        s("feat"),
        s(UUID),
        LocalCommand::Attach { uuid: s(UUID) },
    );
    assert!(matches!(w.narrate(begin), Event::Done));
    let told = w.remark(Topic::MissingAfterDetach);
    assert_eq!(told.name.as_deref(), Some("feat"));
    assert_eq!(told.uuid.as_deref(), Some(UUID));
    assert_eq!(
        Topic::MissingAfterDetach.message(),
        "Session missing from database after detach; Zellij session may be orphaned"
    );

    let flow = remote::EnterCodespaceFlow::Find {
        session_name: s("feat"),
        details: space_details(),
        uuid: s(UUID),
        success: true,
        status: s("exit status: 0"),
    };
    let event = Event::Row(None);
    let told = flow.remarks(&event);
    assert_eq!(told.len(), 1);
    assert_eq!(told[0].topic, Topic::MissingAfterExit);
    assert_eq!(told[0].name.map(String::as_str), Some("feat"));
    assert_eq!(told[0].codespace.map(String::as_str), Some("space"));
    let event = Event::Row(Some(remote_row("feat", UUID)));
    assert!(flow.remarks(&event).is_empty());
}

#[test]
fn broken_connections_are_mentioned() {
    let (w, _) = enter(RemoteZellijState::Running, true, false);
    let told = w.remark(Topic::SshExited);
    assert_eq!(told.uuid.as_deref(), Some(UUID));
    assert_eq!(told.detail.as_deref(), Some("exit status: 255"));
    let (w, _) = enter(RemoteZellijState::Running, true, true);
    assert!(w.told.is_empty());
    let (w, _) = enter(RemoteZellijState::Exited, true, true);
    assert_eq!(w.remark(Topic::StoppingExited).codespace.as_deref(), Some("space"));
    let (w, _) = enter(RemoteZellijState::Missing, true, true);
    assert_eq!(w.remark(Topic::StoppingClosed).codespace.as_deref(), Some("space"));
}

#[test]
fn codespaces_that_stay_on_are_mentioned() {
    let mut w = world().with_space("Shutdown");
    w.rows.push(remote_row("feat", UUID));
    w.fails = vec!["Connect", "StopAndCache"];
    w.narrate(start::start(s("feat")));
    let told = w.remark(Topic::StopAfterStart);
    assert_eq!(told.name.as_deref(), Some("feat"));
    assert_eq!(told.codespace.as_deref(), Some("space"));
    assert_eq!(told.error.as_deref(), Some("outside"));

    for (fails, topics) in [
        ("SetUp", vec![Topic::StopAfterSetup]),
        ("Update", vec![Topic::StopAfterUpdate]),
    ] {
        let mut w = world().with_space("Shutdown");
        w.rows.push(remote_row("feat", UUID));
        w.fails = vec![fails, "StopAndCache"];
        w.narrate(start::start(s("feat")));
        assert_eq!(w.warnings(), topics, "{:?}", w.log);
    }

    let flow = start::StartFlow::Remote {
        session: remote_row("feat", UUID),
        details: space_details(),
        initial: s("Shutdown"),
    };
    let (flow, effect) = flow.next(Event::Failed(outside::<()>().unwrap_err()));
    assert!(matches!(effect, Effect::StopAndCache { .. }));
    let event = Event::Failed(outside::<()>().unwrap_err());
    let told = flow.remarks(&event);
    assert_eq!(told.len(), 1);
    assert_eq!(told[0].topic, Topic::StopAfterStateCheck);
    assert!(flow.remarks(&Event::Done).is_empty());

    for (fails, topics) in [
        (vec!["SetUp"], vec![Topic::StopAfterRestoreSetup]),
        (vec!["Update"], vec![Topic::StopAfterRestoreUpdate]),
        (vec!["Connect"], vec![Topic::StopAfterRestoreConnection]),
        (
            vec!["Connect", "MarkRemoved"],
            vec![Topic::NotMarkedRemoved, Topic::StopAfterRestoreConnection],
        ),
    ] {
        let mut w = world().with_space("Shutdown");
        w.rows.push(Model { status: s("removed"), ..remote_row("feat", UUID) });
        w.fails = fails;
        w.fails.push("StopAndCache");
        w.narrate(restore::restore(s("feat")));
        assert_eq!(w.warnings(), topics, "{:?}", w.log);
    }

    let mut w = world();
    w.fails = vec!["Connect", "StopAndCache"];
    w.narrate(run::run(s("feat"), false, true));
    assert_eq!(w.warnings(), vec![Topic::StopAfterConnection]);
}

#[test]
fn run_says_what_it_does() {
    let mut w = world();
    w.rows.push(local_row("feat", OTHER));
    w.fails = vec!["Pull"];
    w.narrate(run::run(s("feat"), false, false));
    let told = w.remark(Topic::NameInUse);
    assert_eq!((told.name.as_deref(), told.detail.as_deref()), (Some("feat-2"), Some("feat")));
    assert_eq!(w.remark(Topic::Pulling).detail.as_deref(), Some("main"));
    assert_eq!(w.remark(Topic::PullFailed).error.as_deref(), Some("outside"));
    assert_eq!(w.remark(Topic::Created).detail.as_deref(), Some("tylerkrop/feat"));
    assert_eq!(w.warnings(), vec![Topic::PullFailed]);

    let mut w = world();
    w.repo = None;
    w.narrate(run::run(s("feat"), false, false));
    assert_eq!(w.remark(Topic::NoRepository).detail.as_deref(), Some("/here"));
    assert!(w.remark(Topic::Created).detail.is_none());

    let mut w = world();
    w.narrate(run::run(s("feat"), true, false));
    assert_eq!(w.remark(Topic::RunningDirectly).detail.as_deref(), Some("/here"));

    let mut w = world();
    w.narrate(run::run(s("feat"), false, true));
    let told = w.remark(Topic::CreatingCodespace);
    assert_eq!(told.repository.as_deref(), Some("octo/repo"));
    assert_eq!(told.detail.as_deref(), Some("main"));
    assert_eq!(w.remark(Topic::CreatedCodespace).codespace.as_deref(), Some("space"));
    assert_eq!(w.remark(Topic::CreatedCodespaceSession).name.as_deref(), Some("feat"));
    assert_eq!(w.remark(Topic::ConnectingDirectly).uuid.as_deref(), Some(UUID));
    assert!(w.warnings().is_empty());

    let mut w = world();
    w.client_succeeds = false;
    w.client_leaves = None;
    w.stubborn = true;
    w.narrate(run::run(s("feat"), false, false));
    assert!(w.remark(Topic::RunNotCleanedUp).error.as_deref().unwrap().contains("busy"));
}

#[test]
fn sessions_are_announced() {
    let mut w = world();
    w.rows.push(local_row("feat", UUID));
    w.dirs.push(s("/home/me/.csm/worktrees/repo/repo-abcdef01"));
    w.narrate(start::start(s("feat")));
    assert_eq!(w.remark(Topic::Starting).name.as_deref(), Some("feat"));
    w.narrate(attach::attach(s("feat")));
    assert_eq!(w.remark(Topic::Attaching).name.as_deref(), Some("feat"));

    let mut w = world().with_space("Shutdown");
    w.rows.push(remote_row("far", UUID));
    w.narrate(start::start(s("far")));
    assert_eq!(w.remark(Topic::StartingRemote).codespace.as_deref(), Some("space"));
    w.narrate(attach::attach(s("far")));
    assert_eq!(w.remark(Topic::AttachingRemote).codespace.as_deref(), Some("space"));
    assert!(w.warnings().is_empty());

    let mut w = world().with_space("Shutdown");
    w.rows.push(Model { status: s("removed"), ..remote_row("far", UUID) });
    w.rows.push(Model { status: s("removed"), ..local_row("near", OTHER) });
    w.branches.push(s("tylerkrop/near"));
    w.narrate(restore::restore(s("far")));
    assert_eq!(w.remark(Topic::RestoredRemote).name.as_deref(), Some("far"));
    w.narrate(restore::restore(s("near")));
    assert_eq!(w.remark(Topic::Restored).name.as_deref(), Some("near"));
    assert_eq!(Topic::Restored.message(), "Restored session");
    assert!(!Topic::Restored.is_warning());
}
