//! The record that a prompt is rendered from, and the collectors that fill
//! it from what was read of a repository.

use crate::action::{detect, spec_operation, Marker};
use crate::cache::{
    cache_home, file_name, push_path, spec_cache_home, spec_cached_failure, spec_file_name,
    spec_join_path, CacheEntry, APP_DIR,
};
use crate::status::{
    count_code, lemma_every_path_counted_once, lemma_tokens_follow_counts, spec_token,
    spec_tokens, StatusCode, CODE_COUNT,
};
use crate::text::{join, push_decimal, spec_decimal, spec_join, spec_texts};
use crate::EnvDefaults;
use std::time::{Duration, SystemTime, SystemTimeError};
use vstd::prelude::*;
use vstd::string::*;

verus! {

/// What stands for the branch when the current ref cannot be named.
pub const NO_BRANCH: &'static str = "(no branch)";

/// What is known of a repository for one prompt.
#[derive(Debug)]
pub struct Prompt {
    /// The operation in progress; empty when there is none.
    pub action: String,
    /// The short name of the current ref, or [`NO_BRANCH`].
    pub branch: String,
    /// Up to two tokens: commits behind the upstream, then commits ahead.
    pub remote: Vec<String>,
    /// Whether the index differs from `HEAD`.
    pub staged: bool,
    /// The status summary; empty when clean or not yet known.
    pub status: String,
    /// The user name set for the repository; empty when unset.
    pub u_name: String,
    /// Whether the last probe of the remote was rejected.
    pub auth_failed: bool,
}

/// The mathematical content of a [`Prompt`].
pub struct PromptView {
    pub action: Seq<char>,
    pub branch: Seq<char>,
    pub remote: Seq<Seq<char>>,
    pub staged: bool,
    pub status: Seq<char>,
    pub u_name: Seq<char>,
    pub auth_failed: bool,
}

impl View for Prompt {
    type V = PromptView;

    open spec fn view(&self) -> PromptView {
        PromptView {
            action: self.action@,
            branch: self.branch@,
            remote: spec_texts(self.remote@),
            staged: self.staged,
            status: self.status@,
            u_name: self.u_name@,
            auth_failed: self.auth_failed,
        }
    }
}

/// The record before anything is known: every text and the token list empty,
/// both flags unset.
pub open spec fn spec_default_prompt() -> PromptView {
    PromptView {
        action: Seq::empty(),
        branch: Seq::empty(),
        remote: Seq::empty(),
        staged: false,
        status: Seq::empty(),
        u_name: Seq::empty(),
        auth_failed: false,
    }
}

impl Default for Prompt {
    fn default() -> (prompt: Prompt)
        ensures
            prompt@ == spec_default_prompt(),
    {
        let prompt = Prompt {
            action: String::new(),
            branch: String::new(),
            remote: Vec::new(),
            staged: false,
            status: String::new(),
            u_name: String::new(),
            auth_failed: false,
        };
        assert(spec_texts(prompt.remote@) =~= Seq::empty());
        prompt
    }
}

/// A copy of a list of strings.
fn copy_strings(strings: &Vec<String>) -> (copy: Vec<String>)
    ensures
        spec_texts(copy@) == spec_texts(strings@),
{
    let mut copy: Vec<String> = Vec::new();
    let mut i: usize = 0;
    while i < strings.len()
        invariant
            i <= strings@.len(),
            copy@.len() == i,
            forall|j: int| 0 <= j < i ==> copy@[j]@ == strings@[j]@,
        decreases strings@.len() - i,
    {
        copy.push(strings[i].clone());
        i = i + 1;
    }
    copy
}

impl Clone for Prompt {
    fn clone(&self) -> (copy: Prompt)
        ensures
            copy@ == self@,
    {
        Prompt {
            action: self.action.clone(),
            branch: self.branch.clone(),
            remote: copy_strings(&self.remote),
            staged: self.staged,
            status: self.status.clone(),
            u_name: self.u_name.clone(),
            auth_failed: self.auth_failed,
        }
    }
}

/// The system clock, as the standard library declares it.
#[verifier::external_type_specification]
#[verifier::external_body]
pub struct ExSystemTime(SystemTime);

/// The error of a clock that stands before the moment it is measured from.
#[verifier::external_type_specification]
#[verifier::external_body]
pub struct ExSystemTimeError(SystemTimeError);

/// `SystemTime::now` of the standard library: the current time of the system
/// clock. Nothing is claimed of the value.
pub assume_specification[ SystemTime::now ]() -> SystemTime;

/// `SystemTime::duration_since` of the standard library: the time that passed
/// from `earlier` to `clock`, or an error where `earlier` is the later of the
/// two. Nothing is claimed of the value.
pub assume_specification[ SystemTime::duration_since ](
    clock: &SystemTime,
    earlier: SystemTime,
) -> Result<Duration, SystemTimeError>;

/// `Duration::as_secs` of the standard library: the whole seconds that a
/// duration holds. Nothing is claimed of the value.
pub assume_specification[ Duration::as_secs ](duration: &Duration) -> u64;

/// The constant `UNIX_EPOCH` of the standard library: the moment that
/// timestamps are counted from.
#[verifier::external_body]
fn unix_epoch() -> SystemTime {
    std::time::UNIX_EPOCH
}

/// The timestamp that a measurement of the time since the epoch gives: its
/// whole seconds, or zero where it failed because the clock stood before it.
pub fn seconds_since_epoch(elapsed: Result<u64, SystemTimeError>) -> (seconds: u64)
    ensures
        seconds == spec_seconds_since_epoch(elapsed),
{
    match elapsed {
        Ok(whole) => whole,
        Err(_) => 0,
    }
}

/// Seconds since the epoch by the system clock; zero where the clock stands
/// before the epoch.
pub fn unix_timestamp() -> u64 {
    let elapsed: Result<u64, SystemTimeError> = match SystemTime::now().duration_since(
        unix_epoch(),
    ) {
        Ok(time) => Ok(time.as_secs()),
        Err(early) => Err(early),
    };
    seconds_since_epoch(elapsed)
}

/// The timestamp of a measurement of the time since the epoch, given as its
/// whole seconds or as the error of a clock that stands before the epoch:
/// the seconds, or zero for the error.
pub open spec fn spec_seconds_since_epoch(elapsed: Result<u64, SystemTimeError>) -> u64 {
    match elapsed {
        Ok(whole) => whole,
        Err(_) => 0,
    }
}

/// How far the current commit is from its upstream, as far as it was found.
#[derive(Clone, Copy, Debug, PartialEq, Eq, Structural)]
pub enum UpstreamQuery {
    /// `HEAD` does not resolve to a commit.
    NoHead,
    /// No upstream is set for the current branch.
    NoUpstream,
    /// The graph between the two commits could not be walked.
    Unreachable,
    /// The commits that only `HEAD` has, and those that only the upstream has.
    Distance { ahead: usize, behind: usize },
}

/// The numbers of a difference between `HEAD`'s tree and the index.
#[derive(Clone, Copy, Debug, PartialEq, Eq, Structural)]
pub struct DiffCounts {
    /// Files that differ.
    pub files_changed: usize,
    /// Lines added.
    pub insertions: usize,
    /// Lines removed.
    pub deletions: usize,
}

/// What the fast queries found in a repository. Each answer stands alone: one
/// that failed leaves its own field of the record at rest and no other.
#[derive(Debug)]
pub struct FastQueries {
    /// The short name of the current ref; `None` where it cannot be resolved
    /// or named.
    pub head: Option<String>,
    /// The user name set in the repository's configuration, if any.
    pub user_name: Option<String>,
    /// The content of the repository's cache file, if it could be read.
    pub cache: Option<String>,
    /// The time of the snapshot, in seconds since the epoch.
    pub now: u64,
    /// The distance to the upstream.
    pub upstream: UpstreamQuery,
    /// The markers found in the metadata directory.
    pub markers: Vec<Marker>,
    /// The difference between `HEAD`'s tree and the index, if it could be
    /// computed.
    pub diff: Option<DiffCounts>,
}

/// The pair `(ahead, behind)` of a query: the distance where it is known,
/// zeros otherwise.
pub open spec fn spec_ahead_behind(query: UpstreamQuery) -> (usize, usize) {
    match query {
        UpstreamQuery::Distance { ahead, behind } => (ahead, behind),
        _ => (0, 0),
    }
}

/// Commits ahead of and behind the upstream; `(0, 0)` where there is no
/// upstream or the distance could not be found.
pub fn is_ahead_behind_remote(query: &UpstreamQuery) -> (distance: (usize, usize))
    ensures
        distance == spec_ahead_behind(*query),
{
    match query {
        UpstreamQuery::Distance { ahead, behind } => (*ahead, *behind),
        _ => (0, 0),
    }
}

/// Whether a difference between `HEAD` and the index shows staged changes:
/// any of its three numbers is above zero.
pub open spec fn spec_is_staged(diff: DiffCounts) -> bool {
    diff.files_changed > 0 || diff.insertions > 0 || diff.deletions > 0
}

/// Whether there are staged changes.
pub fn is_staged(diff: &DiffCounts) -> (staged: bool)
    ensures
        staged == spec_is_staged(*diff),
{
    diff.files_changed > 0 || diff.insertions > 0 || diff.deletions > 0
}

/// The name of the operation that the markers tell of.
pub open spec fn spec_action(found: Seq<Marker>) -> Option<Seq<char>> {
    match spec_operation(found) {
        Some(op) => Some(op.spec_label()),
        None => None,
    }
}

/// The name of the operation in progress, from the markers found in the
/// metadata directory; `None` where they tell of none.
pub fn get_action(found: &Vec<Marker>) -> (action: Option<String>)
    ensures
        match action {
            Some(name) => spec_action(found@) == Some(name@),
            None => spec_action(found@).is_none(),
        },
{
    match detect(found) {
        Some(op) => Some(op.label().to_owned()),
        None => None,
    }
}

/// The status summary of the changed paths with the given flags: the tokens
/// of the codes that occur, in the order of the vocabulary, with single
/// spaces between them. It is empty where nothing changed.
pub open spec fn spec_status(entries: Seq<u32>) -> Seq<char> {
    spec_join(spec_tokens(entries, CODE_COUNT as int), seq![' '])
}

/// Summarises the status flags of the changed paths, one entry per path.
pub fn get_status(entries: &Vec<u32>) -> (status: String)
    ensures
        status@ == spec_status(entries@),
{
    let mut tokens: Vec<String> = Vec::new();
    let mut k: usize = 0;
    while k < CODE_COUNT
        invariant
            k <= CODE_COUNT,
            spec_texts(tokens@) == spec_tokens(entries@, k as int),
        decreases CODE_COUNT - k,
    {
        let code = StatusCode::at(k);
        let count = count_code(entries, code);
        if count > 0 {
            let mut token = code.label().to_owned();
            token.push(' ');
            push_decimal(&mut token, count as u64);
            tokens.push(token);
            assert(token@ =~= spec_token(code, count as nat));
        }
        k = k + 1;
    }
    proof {
        reveal_strlit(" ");
        assert(" "@ =~= seq![' ']);
    }
    join(&tokens, " ")
}

/// The status summary is empty exactly when no path changed.
pub proof fn lemma_status_empty_iff_clean(entries: Seq<u32>)
    ensures
        (spec_status(entries).len() == 0) == (entries.len() == 0),
{
    lemma_every_path_counted_once(entries);
    lemma_tokens_follow_counts(entries, CODE_COUNT as int);
}

/// The location of the cache file of the repository whose working directory,
/// made absolute with links resolved, is `workdir`: the file named after the
/// directory, in the application's directory below the cache home. There is
/// none where the working directory or the cache home is unknown.
pub open spec fn spec_auth_cache_path(
    workdir: Option<&str>,
    xdg_cache_home: Option<&str>,
    home: Option<&str>,
) -> Option<Seq<char>> {
    match (workdir, spec_cache_home(xdg_cache_home, home)) {
        (Some(dir), Some(base)) => Some(
            spec_join_path(spec_join_path(base, APP_DIR@), spec_file_name(dir)),
        ),
        _ => None,
    }
}

/// Works out where the cache file of a repository lies.
pub fn get_auth_cache_path(
    workdir: Option<&str>,
    xdg_cache_home: Option<&str>,
    home: Option<&str>,
) -> (path: Option<String>)
    ensures
        match path {
            Some(p) => spec_auth_cache_path(workdir, xdg_cache_home, home) == Some(p@),
            None => spec_auth_cache_path(workdir, xdg_cache_home, home).is_none(),
        },
{
    let dir = match workdir {
        Some(dir) => dir,
        None => {
            return None;
        },
    };
    let mut path = match cache_home(xdg_cache_home, home) {
        Some(base) => base,
        None => {
            return None;
        },
    };
    push_path(&mut path, APP_DIR);
    let name = file_name(dir);
    push_path(&mut path, name.as_str());
    Some(path)
}

/// The text of an optional string.
pub open spec fn spec_text(s: Option<&str>) -> Option<Seq<char>> {
    match s {
        Some(text) => Some(text@),
        None => None,
    }
}

/// Whether the cache reports a rejected probe: `content` is what the cache
/// file holds, `None` where it could not be read, and `now` the time of the
/// reading. Content that is malformed or stale reports nothing.
pub fn read_auth_status(content: Option<&str>, now: u64) -> (failed: bool)
    ensures
        failed == spec_cached_failure(spec_text(content), now),
{
    match content {
        None => false,
        Some(text) => match CacheEntry::parse(text) {
            None => false,
            Some(entry) => entry.is_fresh(now) && entry.failed,
        },
    }
}

/// The tokens that tell the distance to the upstream: one for the commits
/// behind, where there are any, then one for the commits ahead, where there
/// are any. Each is its symbol followed by the number in decimal.
pub open spec fn spec_remote_tokens(
    ahead: usize,
    behind: usize,
    ahead_symbol: Seq<char>,
    behind_symbol: Seq<char>,
) -> Seq<Seq<char>> {
    let behind_tokens = if behind > 0 {
        seq![behind_symbol + spec_decimal(behind as nat)]
    } else {
        Seq::empty()
    };
    let ahead_tokens = if ahead > 0 {
        seq![ahead_symbol + spec_decimal(ahead as nat)]
    } else {
        Seq::empty()
    };
    behind_tokens + ahead_tokens
}

/// Writes the distance to the upstream as tokens, behind before ahead.
pub fn remote_tokens(ahead: usize, behind: usize, ahead_symbol: &str, behind_symbol: &str) -> (tokens:
    Vec<String>)
    ensures
        spec_texts(tokens@) == spec_remote_tokens(ahead, behind, ahead_symbol@, behind_symbol@),
{
    let mut tokens: Vec<String> = Vec::new();
    if behind > 0 {
        let mut token = behind_symbol.to_owned();
        push_decimal(&mut token, behind as u64);
        tokens.push(token);
    }
    if ahead > 0 {
        let mut token = ahead_symbol.to_owned();
        push_decimal(&mut token, ahead as u64);
        tokens.push(token);
    }
    tokens
}

/// The text of an optional owned string.
pub open spec fn spec_owned_text(s: Option<String>) -> Option<Seq<char>> {
    match s {
        Some(text) => Some(text@),
        None => None,
    }
}

/// The record that the fast queries give. The branch is the current ref's
/// short name or [`NO_BRANCH`]; the user name is the configured one or empty;
/// the authentication flag is what the cache reports at the time of the
/// snapshot; the tokens tell the distance to the upstream with the symbols
/// from the settings; the action names the operation in progress or is empty;
/// the staged flag is set where the difference to the index shows changes.
/// The status is always empty: the fast queries do not compute it.
pub open spec fn spec_fast_prompt(queries: &FastQueries, settings: &EnvDefaults) -> PromptView {
    let distance = spec_ahead_behind(queries.upstream);
    PromptView {
        action: match spec_action(queries.markers@) {
            Some(name) => name,
            None => Seq::empty(),
        },
        branch: match queries.head {
            Some(name) => name@,
            None => NO_BRANCH@,
        },
        remote: spec_remote_tokens(
            distance.0,
            distance.1,
            settings.git_remote_ahead@,
            settings.git_remote_behind@,
        ),
        staged: match queries.diff {
            Some(diff) => spec_is_staged(diff),
            None => false,
        },
        status: Seq::empty(),
        u_name: match queries.user_name {
            Some(name) => name@,
            None => Seq::empty(),
        },
        auth_failed: spec_cached_failure(spec_owned_text(queries.cache), queries.now),
    }
}

/// Builds the record from what the fast queries found.
pub fn build_prompt_fast(queries: &FastQueries, settings: &EnvDefaults) -> (prompt: Prompt)
    ensures
        prompt@ == spec_fast_prompt(queries, settings),
{
    let mut prompt = Prompt::default();
    prompt.branch = match &queries.head {
        Some(name) => name.clone(),
        None => NO_BRANCH.to_owned(),
    };
    if let Some(name) = &queries.user_name {
        prompt.u_name = name.clone();
    }
    let content: Option<&str> = match &queries.cache {
        Some(text) => Some(text.as_str()),
        None => None,
    };
    prompt.auth_failed = read_auth_status(content, queries.now);
    let (ahead, behind) = is_ahead_behind_remote(&queries.upstream);
    prompt.remote = remote_tokens(
        ahead,
        behind,
        settings.git_remote_ahead.as_str(),
        settings.git_remote_behind.as_str(),
    );
    if let Some(action) = get_action(&queries.markers) {
        prompt.action = action;
    }
    if let Some(diff) = &queries.diff {
        prompt.staged = is_staged(diff);
    }
    prompt
}

} // verus!
