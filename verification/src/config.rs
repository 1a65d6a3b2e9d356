//! The configuration schema and its defaults.
use vstd::prelude::*;

use crate::cache::{base_dir, base_dir_of, opt_view};
use crate::paths::{join_path, path_join};

verus! {

/// The whole `config.toml`.
#[derive(Debug, Clone)]
pub struct Config {
    pub code_root: String,
    pub default_org: Option<String>,
    pub jira: JiraConfig,
    pub github: GithubConfig,
    pub tmux: TmuxConfig,
    pub ui: UiConfig,
}

#[derive(Debug, Clone)]
pub struct JiraConfig {
    pub host: String,
    pub email: String,
    pub jql_my_open: String,
}

#[derive(Debug, Clone)]
pub struct GithubConfig {
    pub auto_discover: bool,
    pub watched: Vec<String>,
}

#[derive(Debug, Clone)]
pub struct TmuxConfig {
    pub session_template: String,
    pub kill_on_remove_worktree: bool,
}

#[derive(Debug, Clone)]
pub struct UiConfig {
    pub theme: String,
    pub refresh_interval_secs: u64,
}

/// The JQL query for "my open tickets".
pub fn default_jql() -> (r: String)
    ensures
        r@ == "assignee = currentUser() AND statusCategory != Done ORDER BY updated DESC"@,
{
    "assignee = currentUser() AND statusCategory != Done ORDER BY updated DESC".to_owned()
}

/// The value of boolean settings that default to on.
pub fn yes() -> (r: bool)
    ensures
        r,
{
    true
}

/// The session name template: the ticket key.
pub fn default_session_template() -> (r: String)
    ensures
        r@ == "{ticket}"@,
{
    "{ticket}".to_owned()
}

pub fn default_theme() -> (r: String)
    ensures
        r@ == "dark"@,
{
    "dark".to_owned()
}

impl Default for GithubConfig {
    fn default() -> (r: Self)
        ensures
            !r.auto_discover,
            r.watched@.len() == 0,
    {
        GithubConfig { auto_discover: false, watched: Vec::new() }
    }
}

impl Default for TmuxConfig {
    fn default() -> (r: Self)
        ensures
            r.session_template@ == "{ticket}"@,
            r.kill_on_remove_worktree,
    {
        TmuxConfig { session_template: default_session_template(), kill_on_remove_worktree: true }
    }
}

impl Default for UiConfig {
    fn default() -> (r: Self)
        ensures
            r.theme@ == "dark"@,
            r.refresh_interval_secs == 0,
    {
        UiConfig { theme: default_theme(), refresh_interval_secs: 0 }
    }
}

/// The configuration the setup screen starts from.
pub open spec fn is_sample(c: Config) -> bool {
    &&& c.code_root@ == "~/code"@
    &&& c.default_org matches Some(o) && o@ == "pfc"@
    &&& c.jira.host@ == "company.atlassian.net"@
    &&& c.jira.email@ == "you@example.com"@
    &&& c.jira.jql_my_open@
        == "assignee = currentUser() AND statusCategory != Done ORDER BY updated DESC"@
    &&& !c.github.auto_discover
    &&& c.github.watched@.len() == 0
    &&& c.tmux.session_template@ == "{ticket}"@
    &&& c.tmux.kill_on_remove_worktree
    &&& c.ui.theme@ == "dark"@
    &&& c.ui.refresh_interval_secs == 0
}

impl Config {
    pub fn sample() -> (r: Config)
        ensures
            is_sample(r),
    {
        Config {
            code_root: "~/code".to_owned(),
            default_org: Some("pfc".to_owned()),
            jira: JiraConfig {
                host: "company.atlassian.net".to_owned(),
                email: "you@example.com".to_owned(),
                jql_my_open: default_jql(),
            },
            github: GithubConfig::default(),
            tmux: TmuxConfig::default(),
            ui: UiConfig::default(),
        }
    }
}

/// The default configuration file: `$XDG_CONFIG_HOME/flow/config.toml`,
/// else `$HOME/.config/flow/config.toml`, given the values of those variables.
pub fn default_path(xdg_config_home: Option<&str>, home: Option<&str>) -> (r: String)
    ensures
        r@ == path_join(
            path_join(base_dir(opt_view(xdg_config_home), opt_view(home), ".config"@), "flow"@),
            "config.toml"@,
        ),
{
    let base = base_dir_of(xdg_config_home, home, ".config");
    let dir = join_path(base.as_str(), "flow");
    join_path(dir.as_str(), "config.toml")
}

} // verus!
