//! The pipeline that runs before each prompt: it emits the fast record at
//! once, refines it with the status summary when that is ready, and leaves a
//! background probe of the remote a short time to record its verdict.

use crate::cache::{spec_entry_text, CacheEntry};
use crate::git::{
    build_prompt_fast, spec_default_prompt, spec_fast_prompt, FastQueries, Prompt, PromptView,
};
use crate::text::{
    contains, lossy_text, lowercase, parse_u64, spec_contains, spec_lossy_text, spec_lowercase,
    spec_parse_u64, str_eq,
};
use crate::EnvDefaults;
use vstd::prelude::*;
use vstd::string::*;

verus! {

/// Seconds that the probe may take before it is given up.
pub const FETCH_TIMEOUT_SECS: u64 = 5;

/// Milliseconds that the pipeline waits for the probe before it exits.
pub const FETCH_GRACE_MILLIS: u64 = 500;

/// The program that the probe runs.
pub const FETCH_PROGRAM: &'static str = "git";

/// How a run of the probe ended.
#[derive(Debug)]
pub enum FetchOutcome {
    /// The program ran to its end.
    Exited {
        /// Whether it reported success.
        success: bool,
        /// What it wrote to standard error.
        stderr: Vec<u8>,
    },
    /// The program could not be started or waited for.
    SpawnFailed,
    /// The program did not end within [`FETCH_TIMEOUT_SECS`].
    TimedOut,
}

/// Whether a lower-case error text tells of rejected credentials: it holds
/// one of the five phrases.
pub open spec fn spec_signals_auth_failure(lowered: Seq<char>) -> bool {
    ||| spec_contains(lowered, "permission denied"@)
    ||| spec_contains(lowered, "authentication failed"@)
    ||| spec_contains(lowered, "could not read"@)
    ||| spec_contains(lowered, "repository not found"@)
    ||| spec_contains(lowered, "access denied"@)
}

/// Whether a lower-case error text tells of rejected credentials.
pub fn signals_auth_failure(lowered: &str) -> (signalled: bool)
    ensures
        signalled == spec_signals_auth_failure(lowered@),
{
    contains(lowered, "permission denied") || contains(lowered, "authentication failed")
        || contains(lowered, "could not read") || contains(lowered, "repository not found")
        || contains(lowered, "access denied")
}

/// What a run of the probe says of the credentials. A run that ended tells
/// whether they were rejected. They were not where the program succeeded;
/// else they were exactly when its error text, decoded and put in lower
/// case, holds one of the phrases. A run that could not be started or timed
/// out tells nothing.
pub open spec fn spec_verdict(outcome: FetchOutcome) -> Option<bool> {
    match outcome {
        FetchOutcome::Exited { success, stderr } => Some(
            !success && spec_signals_auth_failure(spec_lowercase(spec_lossy_text(stderr@))),
        ),
        FetchOutcome::SpawnFailed => None,
        FetchOutcome::TimedOut => None,
    }
}

/// Classifies how a run of the probe ended.
pub fn verdict(outcome: &FetchOutcome) -> (failed: Option<bool>)
    ensures
        failed == spec_verdict(*outcome),
{
    match outcome {
        FetchOutcome::Exited { success, stderr } => {
            if *success {
                Some(false)
            } else {
                let text = lossy_text(stderr);
                let lowered = lowercase(text.as_str());
                Some(signals_auth_failure(lowered.as_str()))
            }
        },
        FetchOutcome::SpawnFailed => None,
        FetchOutcome::TimedOut => None,
    }
}

/// What the probe writes to the cache file after a run that ended at `now`:
/// the entry of its verdict, or nothing where the run gave none, so that the
/// file stays as it was.
pub open spec fn spec_cache_update(outcome: FetchOutcome, now: u64) -> Option<Seq<char>> {
    match spec_verdict(outcome) {
        Some(failed) => Some(spec_entry_text(CacheEntry { timestamp: now, failed })),
        None => None,
    }
}

/// The new content of the cache file after a run of the probe, if it is to be
/// written at all.
pub fn cache_update(outcome: &FetchOutcome, now: u64) -> (content: Option<String>)
    ensures
        match content {
            Some(text) => spec_cache_update(*outcome, now) == Some(text@),
            None => spec_cache_update(*outcome, now).is_none(),
        },
{
    match verdict(outcome) {
        Some(failed) => Some(CacheEntry { timestamp: now, failed }.to_text()),
        None => None,
    }
}

/// The arguments of the probe: a fetch that does not collect garbage, says
/// nothing, and takes neither tags nor submodules.
pub open spec fn spec_fetch_arguments() -> Seq<Seq<char>> {
    seq![
        "-c"@,
        "gc.auto=0"@,
        "fetch"@,
        "--quiet"@,
        "--no-tags"@,
        "--no-recurse-submodules"@,
    ]
}

/// The texts of a list of string slices.
pub open spec fn spec_slices(strings: Seq<&'static str>) -> Seq<Seq<char>> {
    Seq::new(strings.len(), |i: int| strings[i]@)
}

/// The arguments that the probe hands to [`FETCH_PROGRAM`].
pub fn fetch_arguments() -> (arguments: Vec<&'static str>)
    ensures
        spec_slices(arguments@) == spec_fetch_arguments(),
{
    let arguments = vec![
        "-c",
        "gc.auto=0",
        "fetch",
        "--quiet",
        "--no-tags",
        "--no-recurse-submodules",
    ];
    arguments
}

/// The variables of the probe's environment, name and value: no prompting on
/// the terminal, a transport that never asks, and a helper for passwords
/// that answers nothing.
pub open spec fn spec_fetch_environment() -> Seq<(Seq<char>, Seq<char>)> {
    seq![
        ("GIT_TERMINAL_PROMPT"@, "0"@),
        ("GIT_SSH_COMMAND"@, "ssh -o BatchMode=yes -o ControlMaster=no"@),
        ("GIT_ASKPASS"@, "true"@),
    ]
}

/// The texts of a list of pairs of string slices.
pub open spec fn spec_slice_pairs(pairs: Seq<(&'static str, &'static str)>) -> Seq<
    (Seq<char>, Seq<char>),
> {
    Seq::new(pairs.len(), |i: int| (pairs[i].0@, pairs[i].1@))
}

/// The variables that the probe sets for [`FETCH_PROGRAM`].
pub fn fetch_environment() -> (variables: Vec<(&'static str, &'static str)>)
    ensures
        spec_slice_pairs(variables@) == spec_fetch_environment(),
{
    let variables = vec![
        ("GIT_TERMINAL_PROMPT", "0"),
        ("GIT_SSH_COMMAND", "ssh -o BatchMode=yes -o ControlMaster=no"),
        ("GIT_ASKPASS", "true"),
    ];
    variables
}

/// Whether the settings let the probe run: it runs unless the setting is `0`.
pub open spec fn spec_fetch_enabled(settings: &EnvDefaults) -> bool {
    settings.git_fetch@ != "0"@
}

/// Whether the settings let the probe run.
pub fn fetch_enabled(settings: &EnvDefaults) -> (enabled: bool)
    ensures
        enabled == spec_fetch_enabled(settings),
{
    !str_eq(settings.git_fetch.as_str(), "0")
}

/// The seconds by which the status summary is held back on demand: the value
/// of the knob where it is an unsigned numeral, zero where it is unset or
/// anything else.
pub open spec fn spec_status_delay(knob: Option<&str>) -> u64 {
    match knob {
        Some(text) => match spec_parse_u64(text@) {
            Some(seconds) => seconds,
            None => 0,
        },
        None => 0,
    }
}

/// Reads the knob that holds the status summary back.
pub fn status_delay(knob: Option<&str>) -> (seconds: u64)
    ensures
        seconds == spec_status_delay(knob),
{
    match knob {
        Some(text) => match parse_u64(text) {
            Some(seconds) => seconds,
            None => 0,
        },
        None => 0,
    }
}

/// Where the pipeline stands.
#[derive(Clone, Copy, Debug, PartialEq, Eq, Structural)]
pub enum Stage {
    /// Nothing has happened yet; the repository is being looked for.
    Start,
    /// The fast record is out and the status summary is awaited.
    StatusAwaiting,
    /// The status summary is dealt with and the probe is given its time.
    FetchAwaiting,
    /// Nothing is left to do.
    Done,
}

/// What happened outside the pipeline.
#[derive(Debug)]
pub enum Event {
    /// The working directory lies in no repository.
    NoRepository,
    /// A repository was found and the fast queries were made.
    Repository(FastQueries),
    /// The status summary ended, with its text or without one.
    StatusFinished(Option<String>),
    /// The probe ended or its time ran out.
    FetchWaitOver,
}

/// What the pipeline asks to be done, in the order given.
#[derive(Debug)]
pub enum Command {
    /// Write the record as one line and flush.
    Emit(Prompt),
    /// Start the status summary off the critical path.
    StartStatus,
    /// Start the probe in the background.
    StartFetch,
    /// Wait for the status summary and hand in [`Event::StatusFinished`].
    AwaitStatus,
    /// Wait for the probe, for so many milliseconds at most, and hand in
    /// [`Event::FetchWaitOver`] either way.
    AwaitFetch { millis: u64 },
    /// Leave.
    Exit,
}

/// The mathematical content of a [`Command`].
pub enum CommandView {
    Emit(PromptView),
    StartStatus,
    StartFetch,
    AwaitStatus,
    AwaitFetch { millis: u64 },
    Exit,
}

impl View for Command {
    type V = CommandView;

    open spec fn view(&self) -> CommandView {
        match self {
            Command::Emit(record) => CommandView::Emit(record@),
            Command::StartStatus => CommandView::StartStatus,
            Command::StartFetch => CommandView::StartFetch,
            Command::AwaitStatus => CommandView::AwaitStatus,
            Command::AwaitFetch { millis } => CommandView::AwaitFetch { millis: *millis },
            Command::Exit => CommandView::Exit,
        }
    }
}

/// The contents of a list of commands.
pub open spec fn spec_commands(commands: Seq<Command>) -> Seq<CommandView> {
    Seq::new(commands.len(), |i: int| commands[i]@)
}

/// The state of one run of the pipeline.
#[derive(Debug)]
pub struct Pipeline {
    /// Where the run stands.
    pub stage: Stage,
    /// Whether the probe was started.
    pub fetch: bool,
    /// The record as far as it is known.
    pub record: Prompt,
}

/// The mathematical content of a [`Pipeline`].
pub struct PipelineView {
    pub stage: Stage,
    pub fetch: bool,
    pub record: PromptView,
}

impl View for Pipeline {
    type V = PipelineView;

    open spec fn view(&self) -> PipelineView {
        PipelineView { stage: self.stage, fetch: self.fetch, record: self.record@ }
    }
}

/// The state in which every run begins.
pub open spec fn spec_start() -> PipelineView {
    PipelineView { stage: Stage::Start, fetch: false, record: spec_default_prompt() }
}

/// A record with its status replaced.
pub open spec fn spec_with_status(record: PromptView, status: Seq<char>) -> PromptView {
    PromptView { status, ..record }
}

/// What ends a run once the status summary is dealt with: the wait for the
/// probe where one was started, else the exit.
pub open spec fn spec_after_status(fetch: bool) -> (Stage, Seq<CommandView>) {
    if fetch {
        (Stage::FetchAwaiting, seq![CommandView::AwaitFetch { millis: FETCH_GRACE_MILLIS }])
    } else {
        (Stage::Done, seq![CommandView::Exit])
    }
}

/// One step of the pipeline: the state after `event` and the commands that
/// the event calls for.
///
/// * At the start, no repository means one record with nothing in it, and
///   the exit. A repository means the fast record, the start of the status
///   summary and, where the settings allow it, of the probe, and the wait for
///   the summary.
/// * While the summary is awaited, its end with a text means the record with
///   that status; its end without one means no record. Either way the run
///   goes on to the wait for the probe, or to the exit where none was started.
/// * While the probe is given its time, the end of the wait means the exit.
/// * An event that the stage does not wait for changes nothing.
pub open spec fn spec_step(state: PipelineView, event: Event, settings: &EnvDefaults) -> (
    PipelineView,
    Seq<CommandView>,
) {
    match (state.stage, event) {
        (Stage::Start, Event::NoRepository) => (
            PipelineView { stage: Stage::Done, fetch: false, record: spec_default_prompt() },
            seq![CommandView::Emit(spec_default_prompt()), CommandView::Exit],
        ),
        (Stage::Start, Event::Repository(queries)) => {
            let record = spec_fast_prompt(&queries, settings);
            let fetch = spec_fetch_enabled(settings);
            (
                PipelineView { stage: Stage::StatusAwaiting, fetch, record },
                seq![CommandView::Emit(record), CommandView::StartStatus] + if fetch {
                    seq![CommandView::StartFetch]
                } else {
                    Seq::empty()
                } + seq![CommandView::AwaitStatus],
            )
        },
        (Stage::StatusAwaiting, Event::StatusFinished(Some(status))) => {
            let record = spec_with_status(state.record, status@);
            let (stage, rest) = spec_after_status(state.fetch);
            (
                PipelineView { stage, fetch: state.fetch, record },
                seq![CommandView::Emit(record)] + rest,
            )
        },
        (Stage::StatusAwaiting, Event::StatusFinished(None)) => {
            let (stage, rest) = spec_after_status(state.fetch);
            (PipelineView { stage, fetch: state.fetch, record: state.record }, rest)
        },
        (Stage::FetchAwaiting, Event::FetchWaitOver) => (
            PipelineView { stage: Stage::Done, fetch: state.fetch, record: state.record },
            seq![CommandView::Exit],
        ),
        _ => (state, Seq::empty()),
    }
}

impl Pipeline {
    /// A run that has not begun.
    pub fn new() -> (pipeline: Pipeline)
        ensures
            pipeline@ == spec_start(),
    {
        Pipeline { stage: Stage::Start, fetch: false, record: Prompt::default() }
    }

    /// Whether the run is over.
    pub fn is_done(&self) -> (done: bool)
        ensures
            done == (self@.stage == Stage::Done),
    {
        self.stage == Stage::Done
    }
}

/// Takes one event of a run and says what is to be done next: the state that
/// the run is in afterwards, and the commands to carry out, in their order,
/// before the next event is handed in. A run begins with [`Pipeline::new`]
/// and with the event that tells whether a repository was found.
pub fn render(pipeline: Pipeline, event: Event, settings: &EnvDefaults) -> (next: (
    Pipeline,
    Vec<Command>,
))
    ensures
        next.0@ == spec_step(pipeline@, event, settings).0,
        spec_commands(next.1@) == spec_step(pipeline@, event, settings).1,
{
    let mut commands: Vec<Command> = Vec::new();
    let mut state = pipeline;
    match (state.stage, event) {
        (Stage::Start, Event::NoRepository) => {
            state.record = Prompt::default();
            state.fetch = false;
            state.stage = Stage::Done;
            commands.push(Command::Emit(state.record.clone()));
            commands.push(Command::Exit);
        },
        (Stage::Start, Event::Repository(queries)) => {
            state.record = build_prompt_fast(&queries, settings);
            state.fetch = fetch_enabled(settings);
            state.stage = Stage::StatusAwaiting;
            commands.push(Command::Emit(state.record.clone()));
            commands.push(Command::StartStatus);
            if state.fetch {
                commands.push(Command::StartFetch);
            }
            commands.push(Command::AwaitStatus);
        },
        (Stage::StatusAwaiting, Event::StatusFinished(status)) => {
            if let Some(text) = status {
                state.record.status = text;
                commands.push(Command::Emit(state.record.clone()));
            }
            if state.fetch {
                state.stage = Stage::FetchAwaiting;
                commands.push(Command::AwaitFetch { millis: FETCH_GRACE_MILLIS });
            } else {
                state.stage = Stage::Done;
                commands.push(Command::Exit);
            }
        },
        (Stage::FetchAwaiting, Event::FetchWaitOver) => {
            state.stage = Stage::Done;
            commands.push(Command::Exit);
        },
        _ => {},
    }
    (state, commands)
}

/// The records that a list of commands emits, in order.
pub open spec fn spec_records(commands: Seq<CommandView>) -> Seq<PromptView>
    decreases commands.len(),
{
    if commands.len() == 0 {
        Seq::empty()
    } else {
        let before = spec_records(commands.drop_last());
        match commands.last() {
            CommandView::Emit(record) => before.push(record),
            _ => before,
        }
    }
}

/// All the commands of a run that takes `events` one after the other,
/// beginning in `state`.
pub open spec fn spec_run(state: PipelineView, events: Seq<Event>, settings: &EnvDefaults) -> Seq<
    CommandView,
>
    decreases events.len(),
{
    if events.len() == 0 {
        Seq::empty()
    } else {
        let (next, commands) = spec_step(state, events[0], settings);
        commands + spec_run(next, events.drop_first(), settings)
    }
}

/// The record that one step emits, if it emits one.
pub open spec fn spec_step_record(state: PipelineView, event: Event, settings: &EnvDefaults)
    -> Option<PromptView> {
    match (state.stage, event) {
        (Stage::Start, Event::NoRepository) => Some(spec_default_prompt()),
        (Stage::Start, Event::Repository(queries)) => Some(spec_fast_prompt(&queries, settings)),
        (Stage::StatusAwaiting, Event::StatusFinished(Some(status))) => Some(
            spec_with_status(state.record, status@),
        ),
        _ => None,
    }
}

/// The records of two lists of commands, one after the other, are the
/// records of the first followed by those of the second.
pub proof fn lemma_records_concat(first: Seq<CommandView>, second: Seq<CommandView>)
    ensures
        spec_records(first + second) == spec_records(first) + spec_records(second),
    decreases second.len(),
{
    if second.len() > 0 {
        lemma_records_concat(first, second.drop_last());
        assert((first + second).drop_last() == first + second.drop_last());
    }
}

/// A single command emits the record it carries, if it carries one.
proof fn lemma_records_single(command: CommandView)
    ensures
        spec_records(seq![command]) == match command {
            CommandView::Emit(record) => seq![record],
            _ => Seq::<PromptView>::empty(),
        },
{
    assert(spec_records(seq![command].drop_last()) == Seq::<PromptView>::empty());
}

/// One step emits at most one record: the one that [`spec_step_record`] names.
pub proof fn lemma_step_records(state: PipelineView, event: Event, settings: &EnvDefaults)
    ensures
        spec_records(spec_step(state, event, settings).1) == match spec_step_record(
            state,
            event,
            settings,
        ) {
            Some(record) => seq![record],
            None => Seq::<PromptView>::empty(),
        },
{
    let commands = spec_step(state, event, settings).1;
    lemma_records_single(CommandView::Exit);
    lemma_records_single(CommandView::StartStatus);
    lemma_records_single(CommandView::StartFetch);
    lemma_records_single(CommandView::AwaitStatus);
    lemma_records_single(CommandView::AwaitFetch { millis: FETCH_GRACE_MILLIS });
    match (state.stage, event) {
        (Stage::Start, Event::NoRepository) => {
            let emit = CommandView::Emit(spec_default_prompt());
            lemma_records_single(emit);
            lemma_records_concat(seq![emit], seq![CommandView::Exit]);
            assert(commands == seq![emit] + seq![CommandView::Exit]);
        },
        (Stage::Start, Event::Repository(queries)) => {
            let record = spec_fast_prompt(&queries, settings);
            let emit = CommandView::Emit(record);
            let middle = if spec_fetch_enabled(settings) {
                seq![CommandView::StartFetch]
            } else {
                Seq::empty()
            };
            let tail = seq![CommandView::StartStatus] + middle + seq![CommandView::AwaitStatus];
            lemma_records_single(emit);
            lemma_records_concat(seq![CommandView::StartStatus], middle);
            lemma_records_concat(
                seq![CommandView::StartStatus] + middle,
                seq![CommandView::AwaitStatus],
            );
            lemma_records_concat(seq![emit], tail);
            assert(commands == seq![emit] + tail);
        },
        (Stage::StatusAwaiting, Event::StatusFinished(Some(status))) => {
            let record = spec_with_status(state.record, status@);
            let emit = CommandView::Emit(record);
            lemma_records_single(emit);
            lemma_records_concat(seq![emit], spec_after_status(state.fetch).1);
        },
        _ => {},
    }
}

/// Once the status summary is dealt with, a run emits nothing more, whatever
/// events follow.
pub proof fn lemma_quiet_after_status(
    state: PipelineView,
    events: Seq<Event>,
    settings: &EnvDefaults,
)
    requires
        state.stage == Stage::FetchAwaiting || state.stage == Stage::Done,
    ensures
        spec_records(spec_run(state, events, settings)) == Seq::<PromptView>::empty(),
    decreases events.len(),
{
    if events.len() > 0 {
        let (next, commands) = spec_step(state, events[0], settings);
        lemma_step_records(state, events[0], settings);
        lemma_quiet_after_status(next, events.drop_first(), settings);
        lemma_records_concat(commands, spec_run(next, events.drop_first(), settings));
    }
}

/// While the status summary is awaited, a run emits at most one record more,
/// and that record is the one held with another status.
pub proof fn lemma_one_record_while_awaiting(
    state: PipelineView,
    events: Seq<Event>,
    settings: &EnvDefaults,
)
    requires
        state.stage == Stage::StatusAwaiting,
    ensures
        ({
            let records = spec_records(spec_run(state, events, settings));
            &&& records.len() <= 1
            &&& records.len() == 1 ==> records[0] == spec_with_status(
                state.record,
                records[0].status,
            )
        }),
    decreases events.len(),
{
    if events.len() > 0 {
        let (next, commands) = spec_step(state, events[0], settings);
        let rest = spec_run(next, events.drop_first(), settings);
        lemma_step_records(state, events[0], settings);
        lemma_records_concat(commands, rest);
        if next.stage == Stage::StatusAwaiting {
            lemma_one_record_while_awaiting(next, events.drop_first(), settings);
        } else {
            lemma_quiet_after_status(next, events.drop_first(), settings);
        }
    }
}

/// Every run emits two records at most. The first carries no status. The
/// second, where there is one, is the first with a status put in: nothing
/// else differs between them.
pub proof fn lemma_two_records(events: Seq<Event>, settings: &EnvDefaults)
    ensures
        ({
            let records = spec_records(spec_run(spec_start(), events, settings));
            &&& records.len() <= 2
            &&& records.len() >= 1 ==> records[0].status == Seq::<char>::empty()
            &&& records.len() == 2 ==> records[1] == spec_with_status(
                records[0],
                records[1].status,
            )
        }),
    decreases events.len(),
{
    if events.len() > 0 {
        let state = spec_start();
        let (next, commands) = spec_step(state, events[0], settings);
        let rest = spec_run(next, events.drop_first(), settings);
        lemma_step_records(state, events[0], settings);
        lemma_records_concat(commands, rest);
        if next.stage == Stage::Start {
            lemma_two_records(events.drop_first(), settings);
        } else if next.stage == Stage::StatusAwaiting {
            lemma_one_record_while_awaiting(next, events.drop_first(), settings);
        } else {
            lemma_quiet_after_status(next, events.drop_first(), settings);
        }
    }
}

/// A run that finds no repository emits exactly one record, and nothing is
/// set in it, whatever events follow.
pub proof fn lemma_no_repository(rest: Seq<Event>, settings: &EnvDefaults)
    ensures
        spec_records(spec_run(spec_start(), seq![Event::NoRepository] + rest, settings)) == seq![
            spec_default_prompt(),
        ],
{
    let events = seq![Event::NoRepository] + rest;
    let (next, commands) = spec_step(spec_start(), events[0], settings);
    assert(events.drop_first() == rest);
    lemma_step_records(spec_start(), events[0], settings);
    lemma_records_concat(commands, spec_run(next, rest, settings));
    lemma_quiet_after_status(next, rest, settings);
}

/// A probe that timed out or could not be started leaves the cache file as
/// it was: nothing is written.
pub proof fn lemma_inconclusive_probe_writes_nothing(outcome: FetchOutcome, now: u64)
    requires
        outcome is TimedOut || outcome is SpawnFailed,
    ensures
        spec_cache_update(outcome, now).is_none(),
{
}

} // verus!
