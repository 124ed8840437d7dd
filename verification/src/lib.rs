//! Repository-state aggregation for a shell prompt: a fast snapshot of the
//! repository, the slower status summary that refines it, the cached result
//! of a background authentication probe, and the rendering of the prompt.

pub mod action;
pub mod cache;
pub mod git;
pub mod precmd;
pub mod prompt;
pub mod status;
pub mod text;

use crate::text::str_eq;
use vstd::prelude::*;
use vstd::string::*;

verus! {

/// What stands for a setting that does not exist.
pub const UNKNOWN_SETTING: &'static str = "??";

/// The user's settings, each with the value found in the environment or, where
/// the environment has none, its built-in value. It is made once, from a
/// snapshot of the environment, and handed to whoever needs a setting.
#[derive(Debug)]
pub struct EnvDefaults {
    /// Seconds a command must run for before its duration is shown. `SLICK_PROMPT_CMD_MAX_EXEC_TIME`.
    pub cmd_max_exec_time: String,
    /// Colour of the symbol after a failed command. `SLICK_PROMPT_ERROR_COLOR`.
    pub error_color: String,
    /// Colour of the operation in progress. `SLICK_PROMPT_GIT_ACTION_COLOR`.
    pub git_action_color: String,
    /// Colour of the authentication warning. `SLICK_PROMPT_GIT_AUTH_COLOR`.
    pub git_auth_color: String,
    /// Symbol of the authentication warning. `SLICK_PROMPT_GIT_AUTH_SYMBOL`.
    pub git_auth_symbol: String,
    /// Colour of the branch name. `SLICK_PROMPT_GIT_BRANCH_COLOR`.
    pub git_branch_color: String,
    /// Whether the remote is probed; `0` switches the probe off. `SLICK_PROMPT_GIT_FETCH`.
    pub git_fetch: String,
    /// Colour of the branch name on a main branch. `SLICK_PROMPT_GIT_MASTER_BRANCH_COLOR`.
    pub git_master_branch_color: String,
    /// Colour of the ahead and behind tokens. `SLICK_PROMPT_GIT_REMOTE_COLOR`.
    pub git_remote_color: String,
    /// Symbol before the number of commits ahead. `SLICK_PROMPT_GIT_REMOTE_AHEAD`.
    pub git_remote_ahead: String,
    /// Symbol before the number of commits behind. `SLICK_PROMPT_GIT_REMOTE_BEHIND`.
    pub git_remote_behind: String,
    /// Colour of the staged mark. `SLICK_PROMPT_GIT_STAGED_COLOR`.
    pub git_staged_color: String,
    /// Colour of the status summary. `SLICK_PROMPT_GIT_STATUS_COLOR`.
    pub git_status_color: String,
    /// Colour of the user name. `SLICK_PROMPT_GIT_UNAME_COLOR`.
    pub git_uname_color: String,
    /// What stands after the symbol. `SLICK_PROMPT_NON_BREAKING_SPACE`.
    pub non_breaking_space: String,
    /// Colour of the current directory. `SLICK_PROMPT_PATH_COLOR`.
    pub path_color: String,
    /// Colour of the user name for root. `SLICK_PROMPT_ROOT_COLOR`.
    pub root_color: String,
    /// Symbol for root. `SLICK_PROMPT_ROOT_SYMBOL`.
    pub root_symbol: String,
    /// Colour of user and host in a remote session. `SLICK_PROMPT_SSH_COLOR`.
    pub ssh_color: String,
    /// Symbol for an ordinary user. `SLICK_PROMPT_SYMBOL`.
    pub symbol: String,
    /// Colour of the symbol after a successful command. `SLICK_PROMPT_SYMBOL_COLOR`.
    pub symbol_color: String,
    /// Colour of a command's duration. `SLICK_PROMPT_TIME_ELAPSED_COLOR`.
    pub time_elapsed_color: String,
    /// Colour of the symbol in vi command mode. `SLICK_PROMPT_VICMD_COLOR`.
    pub vicmd_color: String,
    /// Symbol in vi command mode. `SLICK_PROMPT_VICMD_SYMBOL`.
    pub vicmd_symbol: String,
}

/// The value of the first variable called `name` in a snapshot of the
/// environment, if there is one.
pub open spec fn spec_lookup(vars: Seq<(String, String)>, name: Seq<char>) -> Option<Seq<char>>
    decreases vars.len(),
{
    if vars.len() == 0 {
        None
    } else if vars[0].0@ == name {
        Some(vars[0].1@)
    } else {
        spec_lookup(vars.drop_first(), name)
    }
}

/// The value of the variable `name`, or `fallback` where the environment has
/// no such variable.
pub open spec fn spec_setting(vars: Seq<(String, String)>, name: Seq<char>, fallback: Seq<char>)
    -> Seq<char> {
    match spec_lookup(vars, name) {
        Some(value) => value,
        None => fallback,
    }
}

/// The setting called `e`; [`UNKNOWN_SETTING`] where no setting has that name.
pub open spec fn spec_get_env(cache: &EnvDefaults, e: Seq<char>) -> Seq<char> {
    if e == "SLICK_PROMPT_CMD_MAX_EXEC_TIME"@ {
        cache.cmd_max_exec_time@
    } else if e == "SLICK_PROMPT_ERROR_COLOR"@ {
        cache.error_color@
    } else if e == "SLICK_PROMPT_GIT_ACTION_COLOR"@ {
        cache.git_action_color@
    } else if e == "SLICK_PROMPT_GIT_AUTH_COLOR"@ {
        cache.git_auth_color@
    } else if e == "SLICK_PROMPT_GIT_AUTH_SYMBOL"@ {
        cache.git_auth_symbol@
    } else if e == "SLICK_PROMPT_GIT_BRANCH_COLOR"@ {
        cache.git_branch_color@
    } else if e == "SLICK_PROMPT_GIT_FETCH"@ {
        cache.git_fetch@
    } else if e == "SLICK_PROMPT_GIT_MASTER_BRANCH_COLOR"@ {
        cache.git_master_branch_color@
    } else if e == "SLICK_PROMPT_GIT_REMOTE_COLOR"@ {
        cache.git_remote_color@
    } else if e == "SLICK_PROMPT_GIT_REMOTE_AHEAD"@ {
        cache.git_remote_ahead@
    } else if e == "SLICK_PROMPT_GIT_REMOTE_BEHIND"@ {
        cache.git_remote_behind@
    } else if e == "SLICK_PROMPT_GIT_STAGED_COLOR"@ {
        cache.git_staged_color@
    } else if e == "SLICK_PROMPT_GIT_STATUS_COLOR"@ {
        cache.git_status_color@
    } else if e == "SLICK_PROMPT_GIT_UNAME_COLOR"@ {
        cache.git_uname_color@
    } else if e == "SLICK_PROMPT_NON_BREAKING_SPACE"@ {
        cache.non_breaking_space@
    } else if e == "SLICK_PROMPT_PATH_COLOR"@ {
        cache.path_color@
    } else if e == "SLICK_PROMPT_ROOT_COLOR"@ {
        cache.root_color@
    } else if e == "SLICK_PROMPT_ROOT_SYMBOL"@ {
        cache.root_symbol@
    } else if e == "SLICK_PROMPT_SSH_COLOR"@ {
        cache.ssh_color@
    } else if e == "SLICK_PROMPT_SYMBOL"@ {
        cache.symbol@
    } else if e == "SLICK_PROMPT_SYMBOL_COLOR"@ {
        cache.symbol_color@
    } else if e == "SLICK_PROMPT_TIME_ELAPSED_COLOR"@ {
        cache.time_elapsed_color@
    } else if e == "SLICK_PROMPT_VICMD_COLOR"@ {
        cache.vicmd_color@
    } else if e == "SLICK_PROMPT_VICMD_SYMBOL"@ {
        cache.vicmd_symbol@
    } else {
        UNKNOWN_SETTING@
    }
}

/// Looks a variable up in a snapshot of the environment.
pub fn lookup(vars: &Vec<(String, String)>, name: &str) -> (value: Option<String>)
    ensures
        match value {
            Some(v) => spec_lookup(vars@, name@) == Some(v@),
            None => spec_lookup(vars@, name@).is_none(),
        },
{
    let mut i: usize = 0;
    assert(vars@.skip(0) == vars@);
    while i < vars.len()
        invariant
            i <= vars@.len(),
            spec_lookup(vars@, name@) == spec_lookup(vars@.skip(i as int), name@),
        decreases vars@.len() - i,
    {
        assert(vars@.skip(i as int).drop_first() == vars@.skip(i + 1));
        if str_eq(vars[i].0.as_str(), name) {
            return Some(vars[i].1.clone());
        }
        i = i + 1;
    }
    None
}

/// The value of the variable `e`, empty where the environment has none.
pub fn get_env_var(vars: &Vec<(String, String)>, e: &str) -> (value: String)
    ensures
        value@ == spec_setting(vars@, e@, Seq::empty()),
{
    match lookup(vars, e) {
        Some(v) => v,
        None => String::new(),
    }
}

/// The value of the variable `e`, `default` where the environment has none.
pub fn get_env_var_or(vars: &Vec<(String, String)>, e: &str, default: &str) -> (value: String)
    ensures
        value@ == spec_setting(vars@, e@, default@),
{
    match lookup(vars, e) {
        Some(v) => v,
        None => default.to_owned(),
    }
}

impl EnvDefaults {
    /// Whether every setting holds what `vars` gives it, or its built-in
    /// value where `vars` does not name it.
    pub open spec fn spec_loaded_from(&self, vars: Seq<(String, String)>) -> bool {
        &&& self.cmd_max_exec_time@ == spec_setting(vars, "SLICK_PROMPT_CMD_MAX_EXEC_TIME"@, "5"@)
        &&& self.error_color@ == spec_setting(vars, "SLICK_PROMPT_ERROR_COLOR"@, "196"@)
        &&& self.git_action_color@ == spec_setting(vars, "SLICK_PROMPT_GIT_ACTION_COLOR"@, "3"@)
        &&& self.git_auth_color@ == spec_setting(vars, "SLICK_PROMPT_GIT_AUTH_COLOR"@, "red"@)
        &&& self.git_auth_symbol@ == spec_setting(vars, "SLICK_PROMPT_GIT_AUTH_SYMBOL"@, "\u{1f512}"@)
        &&& self.git_branch_color@ == spec_setting(vars, "SLICK_PROMPT_GIT_BRANCH_COLOR"@, "3"@)
        &&& self.git_fetch@ == spec_setting(vars, "SLICK_PROMPT_GIT_FETCH"@, "1"@)
        &&& self.git_master_branch_color@ == spec_setting(vars, "SLICK_PROMPT_GIT_MASTER_BRANCH_COLOR"@, "160"@)
        &&& self.git_remote_color@ == spec_setting(vars, "SLICK_PROMPT_GIT_REMOTE_COLOR"@, "6"@)
        &&& self.git_remote_ahead@ == spec_setting(vars, "SLICK_PROMPT_GIT_REMOTE_AHEAD"@, "\u{21e1}"@)
        &&& self.git_remote_behind@ == spec_setting(vars, "SLICK_PROMPT_GIT_REMOTE_BEHIND"@, "\u{21e3}"@)
        &&& self.git_staged_color@ == spec_setting(vars, "SLICK_PROMPT_GIT_STAGED_COLOR"@, "7"@)
        &&& self.git_status_color@ == spec_setting(vars, "SLICK_PROMPT_GIT_STATUS_COLOR"@, "5"@)
        &&& self.git_uname_color@ == spec_setting(vars, "SLICK_PROMPT_GIT_UNAME_COLOR"@, "8"@)
        &&& self.non_breaking_space@ == spec_setting(vars, "SLICK_PROMPT_NON_BREAKING_SPACE"@, "\u{a0}"@)
        &&& self.path_color@ == spec_setting(vars, "SLICK_PROMPT_PATH_COLOR"@, "74"@)
        &&& self.root_color@ == spec_setting(vars, "SLICK_PROMPT_ROOT_COLOR"@, "1"@)
        &&& self.root_symbol@ == spec_setting(vars, "SLICK_PROMPT_ROOT_SYMBOL"@, "#"@)
        &&& self.ssh_color@ == spec_setting(vars, "SLICK_PROMPT_SSH_COLOR"@, "8"@)
        &&& self.symbol@ == spec_setting(vars, "SLICK_PROMPT_SYMBOL"@, "$"@)
        &&& self.symbol_color@ == spec_setting(vars, "SLICK_PROMPT_SYMBOL_COLOR"@, "5"@)
        &&& self.time_elapsed_color@ == spec_setting(vars, "SLICK_PROMPT_TIME_ELAPSED_COLOR"@, "3"@)
        &&& self.vicmd_color@ == spec_setting(vars, "SLICK_PROMPT_VICMD_COLOR"@, "3"@)
        &&& self.vicmd_symbol@ == spec_setting(vars, "SLICK_PROMPT_VICMD_SYMBOL"@, ">"@)
    }

    /// Reads the settings from a snapshot of the environment.
    pub fn new(vars: &Vec<(String, String)>) -> (cache: EnvDefaults)
        ensures
            cache.spec_loaded_from(vars@),
    {
        EnvDefaults {
            cmd_max_exec_time: get_env_var_or(vars, "SLICK_PROMPT_CMD_MAX_EXEC_TIME", "5"),
            error_color: get_env_var_or(vars, "SLICK_PROMPT_ERROR_COLOR", "196"),
            git_action_color: get_env_var_or(vars, "SLICK_PROMPT_GIT_ACTION_COLOR", "3"),
            git_auth_color: get_env_var_or(vars, "SLICK_PROMPT_GIT_AUTH_COLOR", "red"),
            git_auth_symbol: get_env_var_or(vars, "SLICK_PROMPT_GIT_AUTH_SYMBOL", "\u{1f512}"),
            git_branch_color: get_env_var_or(vars, "SLICK_PROMPT_GIT_BRANCH_COLOR", "3"),
            git_fetch: get_env_var_or(vars, "SLICK_PROMPT_GIT_FETCH", "1"),
            git_master_branch_color: get_env_var_or(vars, "SLICK_PROMPT_GIT_MASTER_BRANCH_COLOR", "160"),
            git_remote_color: get_env_var_or(vars, "SLICK_PROMPT_GIT_REMOTE_COLOR", "6"),
            git_remote_ahead: get_env_var_or(vars, "SLICK_PROMPT_GIT_REMOTE_AHEAD", "\u{21e1}"),
            git_remote_behind: get_env_var_or(vars, "SLICK_PROMPT_GIT_REMOTE_BEHIND", "\u{21e3}"),
            git_staged_color: get_env_var_or(vars, "SLICK_PROMPT_GIT_STAGED_COLOR", "7"),
            git_status_color: get_env_var_or(vars, "SLICK_PROMPT_GIT_STATUS_COLOR", "5"),
            git_uname_color: get_env_var_or(vars, "SLICK_PROMPT_GIT_UNAME_COLOR", "8"),
            non_breaking_space: get_env_var_or(vars, "SLICK_PROMPT_NON_BREAKING_SPACE", "\u{a0}"),
            path_color: get_env_var_or(vars, "SLICK_PROMPT_PATH_COLOR", "74"),
            root_color: get_env_var_or(vars, "SLICK_PROMPT_ROOT_COLOR", "1"),
            root_symbol: get_env_var_or(vars, "SLICK_PROMPT_ROOT_SYMBOL", "#"),
            ssh_color: get_env_var_or(vars, "SLICK_PROMPT_SSH_COLOR", "8"),
            symbol: get_env_var_or(vars, "SLICK_PROMPT_SYMBOL", "$"),
            symbol_color: get_env_var_or(vars, "SLICK_PROMPT_SYMBOL_COLOR", "5"),
            time_elapsed_color: get_env_var_or(vars, "SLICK_PROMPT_TIME_ELAPSED_COLOR", "3"),
            vicmd_color: get_env_var_or(vars, "SLICK_PROMPT_VICMD_COLOR", "3"),
            vicmd_symbol: get_env_var_or(vars, "SLICK_PROMPT_VICMD_SYMBOL", ">"),
        }
    }
}

/// The setting called `e`, as `cache` holds it; [`UNKNOWN_SETTING`] where no
/// setting has that name.
pub fn get_env<'a>(cache: &'a EnvDefaults, e: &str) -> (value: &'a str)
    ensures
        value@ == spec_get_env(cache, e@),
{
    if str_eq(e, "SLICK_PROMPT_CMD_MAX_EXEC_TIME") {
        cache.cmd_max_exec_time.as_str()
    } else if str_eq(e, "SLICK_PROMPT_ERROR_COLOR") {
        cache.error_color.as_str()
    } else if str_eq(e, "SLICK_PROMPT_GIT_ACTION_COLOR") {
        cache.git_action_color.as_str()
    } else if str_eq(e, "SLICK_PROMPT_GIT_AUTH_COLOR") {
        cache.git_auth_color.as_str()
    } else if str_eq(e, "SLICK_PROMPT_GIT_AUTH_SYMBOL") {
        cache.git_auth_symbol.as_str()
    } else if str_eq(e, "SLICK_PROMPT_GIT_BRANCH_COLOR") {
        cache.git_branch_color.as_str()
    } else if str_eq(e, "SLICK_PROMPT_GIT_FETCH") {
        cache.git_fetch.as_str()
    } else if str_eq(e, "SLICK_PROMPT_GIT_MASTER_BRANCH_COLOR") {
        cache.git_master_branch_color.as_str()
    } else if str_eq(e, "SLICK_PROMPT_GIT_REMOTE_COLOR") {
        cache.git_remote_color.as_str()
    } else if str_eq(e, "SLICK_PROMPT_GIT_REMOTE_AHEAD") {
        cache.git_remote_ahead.as_str()
    } else if str_eq(e, "SLICK_PROMPT_GIT_REMOTE_BEHIND") {
        cache.git_remote_behind.as_str()
    } else if str_eq(e, "SLICK_PROMPT_GIT_STAGED_COLOR") {
        cache.git_staged_color.as_str()
    } else if str_eq(e, "SLICK_PROMPT_GIT_STATUS_COLOR") {
        cache.git_status_color.as_str()
    } else if str_eq(e, "SLICK_PROMPT_GIT_UNAME_COLOR") {
        cache.git_uname_color.as_str()
    } else if str_eq(e, "SLICK_PROMPT_NON_BREAKING_SPACE") {
        cache.non_breaking_space.as_str()
    } else if str_eq(e, "SLICK_PROMPT_PATH_COLOR") {
        cache.path_color.as_str()
    } else if str_eq(e, "SLICK_PROMPT_ROOT_COLOR") {
        cache.root_color.as_str()
    } else if str_eq(e, "SLICK_PROMPT_ROOT_SYMBOL") {
        cache.root_symbol.as_str()
    } else if str_eq(e, "SLICK_PROMPT_SSH_COLOR") {
        cache.ssh_color.as_str()
    } else if str_eq(e, "SLICK_PROMPT_SYMBOL") {
        cache.symbol.as_str()
    } else if str_eq(e, "SLICK_PROMPT_SYMBOL_COLOR") {
        cache.symbol_color.as_str()
    } else if str_eq(e, "SLICK_PROMPT_TIME_ELAPSED_COLOR") {
        cache.time_elapsed_color.as_str()
    } else if str_eq(e, "SLICK_PROMPT_VICMD_COLOR") {
        cache.vicmd_color.as_str()
    } else if str_eq(e, "SLICK_PROMPT_VICMD_SYMBOL") {
        cache.vicmd_symbol.as_str()
    } else {
        UNKNOWN_SETTING
    }
}

} // verus!
