//! Verified core of `flow`, a worktree-and-tmux remote control: identifier
//! validation, slugs, parsers for git, tmux, `gh` and Jira output, fetch and
//! cache bookkeeping, the screens' key handling, the multi-step commands and
//! the text the screens show.
pub mod text;
pub mod ids;
pub mod slug;
pub mod paths;
pub mod weburl;
pub mod domain;
pub mod config;
pub mod cache;
pub mod msg;
pub mod runtime;
pub mod repo_map;
pub mod widgets;
pub mod display;
pub mod git;
pub mod tmux;
pub mod github;
pub mod jira;
pub mod keychain;
pub mod doctor;
pub mod fixtures;
pub mod screens;
pub mod app;
pub mod jobs;
