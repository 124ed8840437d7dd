//! The text of the prompt: one line of coloured segments for the session and
//! the repository, and a second line with the symbol.

use crate::git::Prompt;
use crate::text::{
    chars_of, find_char, join, parse_u64, rfind_char, spec_decimal, spec_find, spec_join,
    spec_parse_u64, spec_rfind, spec_texts, str_eq, string_of,
};
use crate::{get_env_var, get_env_var_or, lookup, spec_lookup, spec_setting, EnvDefaults};
use vstd::prelude::*;
use vstd::string::*;

verus! {

/// Seconds a command must run for before its duration is shown, where the
/// setting is no number.
pub const DEFAULT_MAX_EXEC_TIME: u64 = 5;

/// What the shell hands over for one prompt.
#[derive(Debug)]
pub struct DisplayInput {
    /// The keymap in use, if the shell told it.
    pub keymap: Option<String>,
    /// The exit code of the last command, if the shell told it.
    pub last_return_code: Option<String>,
    /// The record of the repository.
    pub data: Prompt,
    /// The time at which the last command started, in seconds since the
    /// epoch, if the shell told it.
    pub time: Option<String>,
    /// The current time, in seconds since the epoch.
    pub now: u64,
    /// Whether the user is root.
    pub is_root: bool,
    /// Whether the session came in over the network.
    pub is_remote: bool,
}

/// The duration written as days, hours, minutes and seconds, each with its
/// unit and left out when zero; all of zero is `0s`.
pub open spec fn spec_dhms(seconds: nat) -> Seq<char> {
    if seconds == 0 {
        "0s"@
    } else {
        let days = seconds / 86400;
        let hours = (seconds % 86400) / 3600;
        let minutes = (seconds % 3600) / 60;
        let secs = seconds % 60;
        (if days != 0 {
            spec_decimal(days) + "d"@
        } else {
            Seq::empty()
        }) + (if hours != 0 {
            spec_decimal(hours) + "h"@
        } else {
            Seq::empty()
        }) + (if minutes != 0 {
            spec_decimal(minutes) + "m"@
        } else {
            Seq::empty()
        }) + (if secs != 0 {
            spec_decimal(secs) + "s"@
        } else {
            Seq::empty()
        })
    }
}

/// `compound_duration::format_dhms`, called with a `u64`: the duration
/// written as [`spec_dhms`] says. The number of seconds is first brought into
/// the range of `usize`, which changes nothing where `usize` has 64 bits.
#[verifier::external_body]
fn format_dhms(seconds: u64) -> (text: String)
    ensures
        text@ == spec_dhms(seconds as nat % (usize::MAX as nat + 1)),
{
    compound_duration::format_dhms(seconds)
}

/// The escape that switches to a colour.
pub open spec fn spec_color(color: Seq<char>) -> Seq<char> {
    "%F{"@ + color + "}"@
}

/// Appends the escape that switches to `color`.
fn push_color(out: &mut String, color: &str)
    ensures
        final(out)@ == old(out)@ + spec_color(color@),
{
    out.append("%F{");
    out.append(color);
    out.append("}");
}

/// Whether the shell is in vi command mode.
pub open spec fn spec_vi_command_mode(keymap: Option<String>) -> bool {
    keymap matches Some(name) && name@ == "vicmd"@
}

/// Whether the last command succeeded: its exit code is `0` or was not told.
pub open spec fn spec_succeeded(last_return_code: Option<String>) -> bool {
    last_return_code matches Some(code) ==> code@ == "0"@
}

/// The symbol at the start of the second line: the one for vi command mode,
/// else the one for root, else the ordinary one.
pub open spec fn spec_symbol(input: &DisplayInput, settings: &EnvDefaults) -> Seq<char> {
    if spec_vi_command_mode(input.keymap) {
        settings.vicmd_symbol@
    } else if input.is_root {
        settings.root_symbol@
    } else {
        settings.symbol@
    }
}

/// The colour of the symbol: that of vi command mode where the symbol is the
/// one of that mode, else that of success or of failure.
pub open spec fn spec_symbol_color(input: &DisplayInput, settings: &EnvDefaults) -> Seq<char> {
    if spec_symbol(input, settings) == settings.vicmd_symbol@ {
        settings.vicmd_color@
    } else if spec_succeeded(input.last_return_code) {
        settings.symbol_color@
    } else {
        settings.error_color@
    }
}

/// Who is logged in and where: user and host for a remote session, the user
/// alone for root at the machine, nothing otherwise.
pub open spec fn spec_login_segment(input: &DisplayInput, settings: &EnvDefaults) -> Seq<char> {
    if input.is_remote {
        if input.is_root {
            spec_color(settings.root_color@) + "%n"@ + spec_color(settings.ssh_color@) + "@%m "@
        } else {
            spec_color(settings.ssh_color@) + "%n@%m "@
        }
    } else if input.is_root {
        spec_color(settings.root_color@) + "%n "@
    } else {
        Seq::empty()
    }
}

/// What follows the last `/` of a path; `None` where the path has none.
pub open spec fn spec_last_component(path: Seq<char>) -> Option<Seq<char>> {
    match spec_rfind(path, '/') {
        Some(slash) => Some(path.skip(slash + 1)),
        None => None,
    }
}

/// What stands before the first `-` of a name; the name where it has none.
pub open spec fn spec_before_dash(name: Seq<char>) -> Seq<char> {
    match spec_find(name, '-') {
        Some(dash) => name.take(dash),
        None => name,
    }
}

/// The name of the active Python environment; empty where none is active.
/// One is active where `PIPENV_ACTIVE` or `VIRTUAL_ENV` is set and not empty.
/// Its name is `VIRTUAL_ENV_PROMPT` where that is set, else the last
/// component of `VIRTUAL_ENV`, cut before its first `-` under pipenv.
pub open spec fn spec_venv_name(vars: Seq<(String, String)>) -> Seq<char> {
    let pipenv = spec_setting(vars, "PIPENV_ACTIVE"@, Seq::empty());
    let directory = spec_setting(vars, "VIRTUAL_ENV"@, Seq::empty());
    if pipenv.len() == 0 && directory.len() == 0 {
        Seq::empty()
    } else {
        match spec_lookup(vars, "VIRTUAL_ENV_PROMPT"@) {
            Some(name) => name,
            None => match spec_last_component(directory) {
                Some(last) => if pipenv.len() == 0 {
                    last
                } else {
                    spec_before_dash(last)
                },
                None => Seq::empty(),
            },
        }
    }
}

/// The active Python environment in brackets, where there is one.
pub open spec fn spec_venv_segment(vars: Seq<(String, String)>) -> Seq<char> {
    let name = spec_venv_name(vars);
    if name.len() > 0 {
        spec_color(spec_setting(vars, "PIPENV_ACTIVE_COLOR"@, "7"@)) + "("@ + name + ") "@
    } else {
        Seq::empty()
    }
}

/// The repository's user name, unless it is empty or `SLICK_PROMPT_NO_GIT_UNAME`
/// is set and not empty.
pub open spec fn spec_uname_segment(
    input: &DisplayInput,
    vars: Seq<(String, String)>,
    settings: &EnvDefaults,
) -> Seq<char> {
    if spec_setting(vars, "SLICK_PROMPT_NO_GIT_UNAME"@, Seq::empty()).len() == 0
        && input.data.u_name@.len() > 0 {
        spec_color(settings.git_uname_color@) + input.data.u_name@ + " "@
    } else {
        Seq::empty()
    }
}

/// The current directory.
pub open spec fn spec_path_segment(settings: &EnvDefaults) -> Seq<char> {
    spec_color(settings.path_color@) + "%~ "@
}

/// The branch, in a colour of its own on `master` and `main`.
pub open spec fn spec_branch_segment(input: &DisplayInput, settings: &EnvDefaults) -> Seq<char> {
    let branch = input.data.branch@;
    if branch.len() == 0 {
        Seq::empty()
    } else if branch == "master"@ || branch == "main"@ {
        spec_color(settings.git_master_branch_color@) + branch + " "@
    } else {
        spec_color(settings.git_branch_color@) + branch + " "@
    }
}

/// The status summary in square brackets.
pub open spec fn spec_status_segment(input: &DisplayInput, settings: &EnvDefaults) -> Seq<char> {
    if input.data.status@.len() > 0 {
        spec_color(settings.git_status_color@) + "["@ + input.data.status@ + "] "@
    } else {
        Seq::empty()
    }
}

/// The tokens of the distance to the upstream, with spaces between them.
pub open spec fn spec_remote_segment(input: &DisplayInput, settings: &EnvDefaults) -> Seq<char> {
    if input.data.remote@.len() > 0 {
        spec_color(settings.git_remote_color@) + spec_join(spec_texts(input.data.remote@), " "@)
            + " "@
    } else {
        Seq::empty()
    }
}

/// The operation in progress.
pub open spec fn spec_action_segment(input: &DisplayInput, settings: &EnvDefaults) -> Seq<char> {
    if input.data.action@.len() > 0 {
        spec_color(settings.git_action_color@) + input.data.action@ + " "@
    } else {
        Seq::empty()
    }
}

/// The mark for staged changes.
pub open spec fn spec_staged_segment(input: &DisplayInput, settings: &EnvDefaults) -> Seq<char> {
    if input.data.staged {
        spec_color(settings.git_staged_color@) + "[staged] "@
    } else {
        Seq::empty()
    }
}

/// The warning that the remote rejected the last probe.
pub open spec fn spec_auth_segment(input: &DisplayInput, settings: &EnvDefaults) -> Seq<char> {
    if input.data.auth_failed {
        spec_color(settings.git_auth_color@) + settings.git_auth_symbol@ + " "@
    } else {
        Seq::empty()
    }
}

/// The seconds that the last command took: the time from its start to now,
/// zero where the start was not told as an unsigned numeral or lies ahead.
pub open spec fn spec_elapsed(input: &DisplayInput) -> u64 {
    match input.time {
        Some(text) => match spec_parse_u64(text@) {
            Some(started) => if started <= input.now {
                (input.now - started) as u64
            } else {
                0
            },
            None => 0,
        },
        None => 0,
    }
}

/// The seconds a command must run for before its duration is shown: the
/// setting where it is an unsigned numeral, else [`DEFAULT_MAX_EXEC_TIME`].
pub open spec fn spec_max_exec_time(settings: &EnvDefaults) -> u64 {
    match spec_parse_u64(settings.cmd_max_exec_time@) {
        Some(seconds) => seconds,
        None => DEFAULT_MAX_EXEC_TIME,
    }
}

/// The duration of the last command, where it ran for longer than the
/// settings ask. The seconds are written as far as they fit `usize`, which is
/// all of them where `usize` has 64 bits.
pub open spec fn spec_elapsed_segment(input: &DisplayInput, settings: &EnvDefaults) -> Seq<char> {
    if spec_elapsed(input) > spec_max_exec_time(settings) {
        spec_color(settings.time_elapsed_color@) + spec_dhms(
            spec_elapsed(input) as nat % (usize::MAX as nat + 1),
        ) + " "@
    } else {
        Seq::empty()
    }
}

/// The first line with the space after its last segment still on it.
pub open spec fn spec_segments(
    input: &DisplayInput,
    vars: Seq<(String, String)>,
    settings: &EnvDefaults,
) -> Seq<char> {
    spec_login_segment(input, settings) + spec_venv_segment(vars) + spec_uname_segment(
        input,
        vars,
        settings,
    ) + spec_path_segment(settings) + spec_branch_segment(input, settings) + spec_status_segment(
        input,
        settings,
    ) + spec_remote_segment(input, settings) + spec_action_segment(input, settings)
        + spec_staged_segment(input, settings) + spec_auth_segment(input, settings)
        + spec_elapsed_segment(input, settings)
}

/// A text without the one space that it may end in.
pub open spec fn spec_without_trailing_space(text: Seq<char>) -> Seq<char> {
    if text.len() > 0 && text.last() == ' ' {
        text.drop_last()
    } else {
        text
    }
}

/// The second line: the symbol in its colour, the colour switched off, and
/// what the settings put after it.
pub open spec fn spec_symbol_line(input: &DisplayInput, settings: &EnvDefaults) -> Seq<char> {
    "\n"@ + spec_color(spec_symbol_color(input, settings)) + spec_symbol(input, settings) + "%f"@
        + settings.non_breaking_space@
}

/// The whole prompt: the segments without the space after the last of them,
/// then the second line.
pub open spec fn spec_display(
    input: &DisplayInput,
    vars: Seq<(String, String)>,
    settings: &EnvDefaults,
) -> Seq<char> {
    spec_without_trailing_space(spec_segments(input, vars, settings)) + spec_symbol_line(
        input,
        settings,
    )
}

/// The symbol at the start of the second line.
fn symbol<'a>(input: &DisplayInput, settings: &'a EnvDefaults) -> (symbol: &'a str)
    ensures
        symbol@ == spec_symbol(input, settings),
{
    let vi_command_mode = match &input.keymap {
        Some(name) => str_eq(name.as_str(), "vicmd"),
        None => false,
    };
    if vi_command_mode {
        settings.vicmd_symbol.as_str()
    } else if input.is_root {
        settings.root_symbol.as_str()
    } else {
        settings.symbol.as_str()
    }
}

/// The colour of the symbol.
fn symbol_color<'a>(input: &DisplayInput, settings: &'a EnvDefaults) -> (color: &'a str)
    ensures
        color@ == spec_symbol_color(input, settings),
{
    let succeeded = match &input.last_return_code {
        Some(code) => str_eq(code.as_str(), "0"),
        None => true,
    };
    if str_eq(symbol(input, settings), settings.vicmd_symbol.as_str()) {
        settings.vicmd_color.as_str()
    } else if succeeded {
        settings.symbol_color.as_str()
    } else {
        settings.error_color.as_str()
    }
}

/// Appends who is logged in and where.
fn push_login(out: &mut String, input: &DisplayInput, settings: &EnvDefaults)
    ensures
        final(out)@ == old(out)@ + spec_login_segment(input, settings),
{
    if input.is_remote {
        if input.is_root {
            push_color(out, settings.root_color.as_str());
            out.append("%n");
            push_color(out, settings.ssh_color.as_str());
            out.append("@%m ");
        } else {
            push_color(out, settings.ssh_color.as_str());
            out.append("%n@%m ");
        }
    } else if input.is_root {
        push_color(out, settings.root_color.as_str());
        out.append("%n ");
    }
}

/// The name of the active Python environment; empty where none is active.
fn venv_name(vars: &Vec<(String, String)>) -> (name: String)
    ensures
        name@ == spec_venv_name(vars@),
{
    let pipenv = get_env_var(vars, "PIPENV_ACTIVE");
    let directory = get_env_var(vars, "VIRTUAL_ENV");
    if pipenv.as_str().is_empty() && directory.as_str().is_empty() {
        return String::new();
    }
    if let Some(name) = lookup(vars, "VIRTUAL_ENV_PROMPT") {
        return name;
    }
    let path = chars_of(directory.as_str());
    let end = path.len();
    match rfind_char(&path, '/') {
        Some(slash) => {
            let last = string_of(&path, slash + 1, end);
            if pipenv.as_str().is_empty() {
                last
            } else {
                let name = chars_of(last.as_str());
                match find_char(&name, '-') {
                    Some(dash) => {
                        string_of(&name, 0, dash)
                    },
                    None => last,
                }
            }
        },
        None => String::new(),
    }
}

/// Appends the active Python environment.
fn push_venv(out: &mut String, vars: &Vec<(String, String)>)
    ensures
        final(out)@ == old(out)@ + spec_venv_segment(vars@),
{
    let name = venv_name(vars);
    if !name.as_str().is_empty() {
        let color = get_env_var_or(vars, "PIPENV_ACTIVE_COLOR", "7");
        push_color(out, color.as_str());
        out.append("(");
        out.append(name.as_str());
        out.append(") ");
    }
}

/// Appends a text in a colour, with a space after it.
fn push_colored(out: &mut String, color: &str, text: &str)
    ensures
        final(out)@ == old(out)@ + (spec_color(color@) + text@ + " "@),
{
    push_color(out, color);
    out.append(text);
    out.append(" ");
}

/// Appends the repository's user name.
fn push_uname(
    out: &mut String,
    input: &DisplayInput,
    vars: &Vec<(String, String)>,
    settings: &EnvDefaults,
)
    ensures
        final(out)@ == old(out)@ + spec_uname_segment(input, vars@, settings),
{
    if get_env_var(vars, "SLICK_PROMPT_NO_GIT_UNAME").as_str().is_empty()
        && !input.data.u_name.as_str().is_empty() {
        push_colored(out, settings.git_uname_color.as_str(), input.data.u_name.as_str());
    }
}

/// Appends the current directory.
fn push_path(out: &mut String, settings: &EnvDefaults)
    ensures
        final(out)@ == old(out)@ + spec_path_segment(settings),
{
    push_color(out, settings.path_color.as_str());
    out.append("%~ ");
}

/// Appends the branch.
fn push_branch(out: &mut String, input: &DisplayInput, settings: &EnvDefaults)
    ensures
        final(out)@ == old(out)@ + spec_branch_segment(input, settings),
{
    let branch = input.data.branch.as_str();
    if !branch.is_empty() {
        if str_eq(branch, "master") || str_eq(branch, "main") {
            push_colored(out, settings.git_master_branch_color.as_str(), branch);
        } else {
            push_colored(out, settings.git_branch_color.as_str(), branch);
        }
    }
}

/// Appends the status summary.
fn push_status(out: &mut String, input: &DisplayInput, settings: &EnvDefaults)
    ensures
        final(out)@ == old(out)@ + spec_status_segment(input, settings),
{
    if !input.data.status.as_str().is_empty() {
        push_color(out, settings.git_status_color.as_str());
        out.append("[");
        out.append(input.data.status.as_str());
        out.append("] ");
    }
}

/// Appends the distance to the upstream.
fn push_remote(out: &mut String, input: &DisplayInput, settings: &EnvDefaults)
    ensures
        final(out)@ == old(out)@ + spec_remote_segment(input, settings),
{
    if input.data.remote.len() > 0 {
        let tokens = join(&input.data.remote, " ");
        push_colored(out, settings.git_remote_color.as_str(), tokens.as_str());
    }
}

/// Appends the operation in progress.
fn push_action(out: &mut String, input: &DisplayInput, settings: &EnvDefaults)
    ensures
        final(out)@ == old(out)@ + spec_action_segment(input, settings),
{
    if !input.data.action.as_str().is_empty() {
        push_colored(out, settings.git_action_color.as_str(), input.data.action.as_str());
    }
}

/// Appends the mark for staged changes.
fn push_staged(out: &mut String, input: &DisplayInput, settings: &EnvDefaults)
    ensures
        final(out)@ == old(out)@ + spec_staged_segment(input, settings),
{
    if input.data.staged {
        push_color(out, settings.git_staged_color.as_str());
        out.append("[staged] ");
    }
}

/// Appends the warning that the remote rejected the last probe.
fn push_auth(out: &mut String, input: &DisplayInput, settings: &EnvDefaults)
    ensures
        final(out)@ == old(out)@ + spec_auth_segment(input, settings),
{
    if input.data.auth_failed {
        push_colored(
            out,
            settings.git_auth_color.as_str(),
            settings.git_auth_symbol.as_str(),
        );
    }
}

/// The seconds that the last command took.
fn elapsed(input: &DisplayInput) -> (seconds: u64)
    ensures
        seconds == spec_elapsed(input),
{
    match &input.time {
        Some(text) => match parse_u64(text.as_str()) {
            Some(started) => if started <= input.now {
                input.now - started
            } else {
                0
            },
            None => 0,
        },
        None => 0,
    }
}

/// Appends the duration of the last command.
fn push_elapsed(out: &mut String, input: &DisplayInput, settings: &EnvDefaults)
    ensures
        final(out)@ == old(out)@ + spec_elapsed_segment(input, settings),
{
    let seconds = elapsed(input);
    let threshold = match parse_u64(settings.cmd_max_exec_time.as_str()) {
        Some(seconds) => seconds,
        None => DEFAULT_MAX_EXEC_TIME,
    };
    if seconds > threshold {
        let duration = format_dhms(seconds);
        push_colored(out, settings.time_elapsed_color.as_str(), duration.as_str());
    }
}

/// The second line of the prompt.
fn symbol_line(input: &DisplayInput, settings: &EnvDefaults) -> (line: String)
    ensures
        line@ == spec_symbol_line(input, settings),
{
    let mut line = String::new();
    line.append("\n");
    push_color(&mut line, symbol_color(input, settings));
    line.append(symbol(input, settings));
    line.append("%f");
    line.append(settings.non_breaking_space.as_str());
    line
}

/// Renders the prompt for the shell to show: `vars` is a snapshot of the
/// environment and `settings` the settings read from it.
pub fn display(input: &DisplayInput, vars: &Vec<(String, String)>, settings: &EnvDefaults) -> (text:
    String)
    ensures
        text@ == spec_display(input, vars@, settings),
{
    let mut line = String::new();
    push_login(&mut line, input, settings);
    push_venv(&mut line, vars);
    push_uname(&mut line, input, vars, settings);
    push_path(&mut line, settings);
    push_branch(&mut line, input, settings);
    push_status(&mut line, input, settings);
    push_remote(&mut line, input, settings);
    push_action(&mut line, input, settings);
    push_staged(&mut line, input, settings);
    push_auth(&mut line, input, settings);
    push_elapsed(&mut line, input, settings);

    let chars = chars_of(line.as_str());
    let kept: usize = if chars.len() > 0 && chars[chars.len() - 1] == ' ' {
        chars.len() - 1
    } else {
        chars.len()
    };
    let mut text = string_of(&chars, 0, kept);
    let second = symbol_line(input, settings);
    text.append(second.as_str());
    text
}

} // verus!
