//! The session record.

use vstd::prelude::*;

use crate::text::opt_text;

verus! {

/// One stored session. The name is the key of the record.
#[derive(Debug, PartialEq, Eq)]
pub struct Model {
    pub name: String,
    pub branch: String,
    pub copilot_uuid: String,
    pub source_repo: String,
    pub worktree_path: String,
    pub backend: String,
    pub codespace_name: Option<String>,
    pub remote_workdir: Option<String>,
    pub github_login: Option<String>,
    pub cached_codespace_state: Option<String>,
    pub cached_codespace_branch: Option<String>,
    pub cached_zellij_state: Option<String>,
    pub codespace_state_updated_at: Option<String>,
    pub status: String,
    pub last_used_at: String,
}

/// The texts of a session record.
#[verifier::ext_equal]
pub struct Record {
    pub name: Seq<char>,
    pub branch: Seq<char>,
    pub copilot_uuid: Seq<char>,
    pub source_repo: Seq<char>,
    pub worktree_path: Seq<char>,
    pub backend: Seq<char>,
    pub codespace_name: Option<Seq<char>>,
    pub remote_workdir: Option<Seq<char>>,
    pub github_login: Option<Seq<char>>,
    pub cached_codespace_state: Option<Seq<char>>,
    pub cached_codespace_branch: Option<Seq<char>>,
    pub cached_zellij_state: Option<Seq<char>>,
    pub codespace_state_updated_at: Option<Seq<char>>,
    pub status: Seq<char>,
    pub last_used_at: Seq<char>,
}

impl View for Model {
    type V = Record;

    open spec fn view(&self) -> Record {
        Record {
            name: self.name@,
            branch: self.branch@,
            copilot_uuid: self.copilot_uuid@,
            source_repo: self.source_repo@,
            worktree_path: self.worktree_path@,
            backend: self.backend@,
            codespace_name: opt_text(self.codespace_name),
            remote_workdir: opt_text(self.remote_workdir),
            github_login: opt_text(self.github_login),
            cached_codespace_state: opt_text(self.cached_codespace_state),
            cached_codespace_branch: opt_text(self.cached_codespace_branch),
            cached_zellij_state: opt_text(self.cached_zellij_state),
            codespace_state_updated_at: opt_text(self.codespace_state_updated_at),
            status: self.status@,
            last_used_at: self.last_used_at@,
        }
    }
}

impl Clone for Model {
    fn clone(&self) -> (r: Self)
        ensures
            r == *self,
    {
        Model {
            name: self.name.clone(),
            branch: self.branch.clone(),
            copilot_uuid: self.copilot_uuid.clone(),
            source_repo: self.source_repo.clone(),
            worktree_path: self.worktree_path.clone(),
            backend: self.backend.clone(),
            codespace_name: self.codespace_name.clone(),
            remote_workdir: self.remote_workdir.clone(),
            github_login: self.github_login.clone(),
            cached_codespace_state: self.cached_codespace_state.clone(),
            cached_codespace_branch: self.cached_codespace_branch.clone(),
            cached_zellij_state: self.cached_zellij_state.clone(),
            codespace_state_updated_at: self.codespace_state_updated_at.clone(),
            status: self.status.clone(),
            last_used_at: self.last_used_at.clone(),
        }
    }
}

} // verus!
