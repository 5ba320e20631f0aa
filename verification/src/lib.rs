//! csm, the Copilot Session Manager: the decisions behind Copilot sessions that run in local
//! Git worktrees or in GitHub Codespaces, inside zellij.
//!
//! The library does no input or output. What the program shows, stores and accepts is a
//! function of plain values ([`display`], [`interactive`], [`git`], [`zellij`], [`codespace`],
//! [`commands`]). What it does step by step is a [`flow::Flow`], which asks for outside work
//! and is told what came of it; on the way it makes [`remark::Remark`]s to the user. [`laws`]
//! states what holds of names, files and whole commands.

pub mod clock;
pub mod codespace;
pub mod commands;
pub mod db;
pub mod display;
pub mod entity;
pub mod failure;
pub mod flow;
pub mod gh;
pub mod git;
pub mod ids;
pub mod interactive;
pub mod laws;
pub mod names;
pub mod process;
pub mod remark;
pub mod text;
pub mod zellij;
