//! The scheduler: its configuration, the states it moves through, and what
//! it reports.
//!
//! The scheduler does one thing at a time. In each state it has one piece of
//! work to do ([`action_for`]); how that work ended decides the next state
//! ([`next_state`]). The program that drives it does the work: it detaches
//! from the terminal, sleeps until the trigger computed by
//! [`crate::borg::clock::next_trigger`], calls
//! [`crate::borg::guard::ensure_repository`] and
//! [`crate::borg::create::create_archive`], and writes the lines of
//! [`report`] where [`crate::util::log_route`] sends them.

use crate::borg::clock::{
    next_trigger, next_trigger_spec, schedule_validity, validate_schedule, ConfigError,
    TriggerError, TriggerInstant,
};
use crate::borg::create::{create_info_lines, display_create_info};
use crate::borg::engine::ArchiveResult;
use crate::borg::errors::{archive_error_line, parse_archive_error, ArchiveError};
use crate::borg::init::InitArgs;
use crate::borg::list::{probed, verify_repo_location};
use crate::borg::{BorgTrait, CreateTrait};
use crate::util::text::{
    clone_optional_string, clone_optional_strings, clone_strings, prefixed,
};
use crate::util::{
    ends_process, lines_end_process, push_line, route_of, LogLevel, LogLine, ERROR_EXIT_CODE,
};
use vstd::prelude::*;

verus! {

/// The configuration of the scheduler. It is made once and never changed.
#[derive(Debug, Clone)]
pub struct ScheduleArgs {
    /// Detach from the terminal before the first wait.
    pub daemonize: bool,
    /// Report every run in full.
    pub verbose: bool,
    /// The cron expression of the schedule.
    pub expression: String,
    /// The time zone in which the expression is read.
    pub timezone: String,
    pub repository: String,
    pub passphrase: String,
    pub archive: Option<String>,
    pub paths: Vec<String>,
    pub include_patterns: Option<Vec<String>>,
    pub exclude_patterns: Option<Vec<String>>,
}

/// The schedule used where none is given: weekly, at midnight.
pub const DEFAULT_EXPRESSION: &'static str = "0 0 * * 1";

/// The time zone used where none is given.
pub const DEFAULT_TIMEZONE: &'static str = "Etc/UTC";

/// Where a detached scheduler records its process id.
pub const PID_FILE: &'static str = "/tmp/rusty_borg.pid";

/// Where a detached scheduler writes its standard output.
pub const STDOUT_FILE: &'static str = "/tmp/rusty_borg.out";

/// Where a detached scheduler writes its standard error.
pub const STDERR_FILE: &'static str = "/tmp/rusty_borg.err";

/// The working directory of a detached scheduler.
pub const WORKING_DIRECTORY: &'static str = "/tmp";

impl BorgTrait for ScheduleArgs {
    open spec fn repository_value(&self) -> Seq<char> {
        self.repository@
    }

    open spec fn passphrase_value(&self) -> Seq<char> {
        self.passphrase@
    }

    fn repository(&self) -> (repository: String) {
        self.repository.clone()
    }

    fn passphrase(&self) -> (passphrase: String) {
        self.passphrase.clone()
    }
}

impl CreateTrait for ScheduleArgs {
    open spec fn archive_value(&self) -> Option<Seq<char>> {
        self.archive.deep_view()
    }

    open spec fn paths_value(&self) -> Seq<Seq<char>> {
        self.paths.deep_view()
    }

    open spec fn include_patterns_value(&self) -> Option<Seq<Seq<char>>> {
        self.include_patterns.deep_view()
    }

    open spec fn exclude_patterns_value(&self) -> Option<Seq<Seq<char>>> {
        self.exclude_patterns.deep_view()
    }

    fn archive(&self) -> (archive: Option<String>) {
        clone_optional_string(&self.archive)
    }

    fn paths(&self) -> (paths: Vec<String>) {
        clone_strings(&self.paths)
    }

    fn include_patterns(&self) -> (patterns: Option<Vec<String>>) {
        clone_optional_strings(&self.include_patterns)
    }

    fn exclude_patterns(&self) -> (patterns: Option<Vec<String>>) {
        clone_optional_strings(&self.exclude_patterns)
    }
}

impl ScheduleArgs {
    /// Whether the configuration can be used: `Ok` where the schedule is
    /// valid and neither the repository location nor the passphrase is
    /// empty; else the first failure, in the order expression, time zone,
    /// repository, passphrase.
    pub open spec fn validity(&self) -> Result<(), ConfigError> {
        match schedule_validity(self.expression@, self.timezone@) {
            Err(error) => Err(error),
            Ok(()) => if self.repository@.len() == 0 {
                Err(ConfigError::EmptyRepository)
            } else if self.passphrase@.len() == 0 {
                Err(ConfigError::EmptyPassphrase)
            } else {
                Ok(())
            },
        }
    }

    /// Checks that the configuration can be used.
    pub fn validate(&self) -> (validity: Result<(), ConfigError>)
        ensures
            validity == self.validity(),
    {
        match validate_schedule(self.expression.as_str(), self.timezone.as_str()) {
            Err(error) => Err(error),
            Ok(()) => if self.repository.as_str().is_empty() {
                Err(ConfigError::EmptyRepository)
            } else if self.passphrase.as_str().is_empty() {
                Err(ConfigError::EmptyPassphrase)
            } else {
                Ok(())
            },
        }
    }

    /// What the startup check gives at the moment `now`: the first failure
    /// of the configuration, else the next trigger of the schedule, which
    /// has to exist.
    pub open spec fn startup_spec(&self, now: TriggerInstant) -> Result<
        TriggerInstant,
        TriggerError,
    > {
        match self.validity() {
            Err(error) => Err(TriggerError::Config(error)),
            Ok(()) => next_trigger_spec(self.expression@, self.timezone@, now),
        }
    }

    /// Checks at the moment `now` that the scheduler can start: the
    /// configuration is valid and the schedule has a trigger to wait for.
    pub fn check_startup(&self, now: TriggerInstant) -> (first: Result<TriggerInstant, TriggerError>)
        ensures
            first == self.startup_spec(now),
            first matches Ok(instant) ==> instant.epoch_seconds > now.epoch_seconds,
    {
        match self.validate() {
            Err(error) => Err(TriggerError::Config(error)),
            Ok(()) => next_trigger(self.expression.as_str(), self.timezone.as_str(), now),
        }
    }

    /// The arguments that initialise the repository of this configuration.
    pub fn create_init(&self) -> (init_args: InitArgs)
        ensures
            init_args.repository@ == self.repository@,
            init_args.passphrase@ == self.passphrase@,
    {
        InitArgs::new(self.repository.clone(), self.passphrase.clone())
    }

    /// Tells whether the engine can read the repository of this
    /// configuration: asks it to list exactly that repository with the
    /// configured passphrase, and gives `true` where it answered with a
    /// listing, `false` where it answered with a failure.
    pub fn verify_repo_location(&self) -> (readable: bool)
        ensures
            probed(self.repository@, self.passphrase@, readable),
    {
        verify_repo_location(self.repository.as_str(), self.passphrase.as_str())
    }
}

/// Where the scheduler stands.
#[derive(Clone, Copy, Debug, PartialEq, Eq, Structural)]
pub enum SchedulerState {
    /// Started, nothing done yet.
    Idle,
    /// Waiting for the next trigger.
    Waiting,
    /// The trigger has elapsed.
    Triggered,
    /// Making sure that the repository is there.
    EnsuringRepository,
    /// Creating the archive.
    CreatingArchive,
    /// Reporting what became of the archive.
    Reporting,
    /// The process is to end.
    Stopped,
}

/// The work that the scheduler asks for.
#[derive(Clone, Copy, Debug, PartialEq, Eq, Structural)]
pub enum SchedulerAction {
    /// Detach from the terminal.
    Daemonize,
    /// Nothing to do; go on at once.
    Proceed,
    /// Compute the next trigger from the current instant and sleep until it.
    AwaitTrigger,
    /// Probe the repository and initialise it where the probe fails.
    EnsureRepository,
    /// Create the archive.
    CreateArchive,
    /// Report what became of the archive.
    Report,
    /// End the process with this status.
    Exit(i32),
}

/// How a piece of work ended.
#[derive(Clone, Copy, Debug, PartialEq, Eq, Structural)]
pub enum Completion {
    /// The work was done.
    Succeeded,
    /// The work failed; the failure was reported.
    Failed,
    /// A line of the report ended the process.
    Terminated,
}

/// The work to do in `state`. Detaching is asked for once, before the first
/// wait, and only where `daemonize` is set.
pub open spec fn action_of(state: SchedulerState, daemonize: bool) -> SchedulerAction {
    match state {
        SchedulerState::Idle => if daemonize {
            SchedulerAction::Daemonize
        } else {
            SchedulerAction::Proceed
        },
        SchedulerState::Waiting => SchedulerAction::AwaitTrigger,
        SchedulerState::Triggered => SchedulerAction::Proceed,
        SchedulerState::EnsuringRepository => SchedulerAction::EnsureRepository,
        SchedulerState::CreatingArchive => SchedulerAction::CreateArchive,
        SchedulerState::Reporting => SchedulerAction::Report,
        SchedulerState::Stopped => SchedulerAction::Exit(ERROR_EXIT_CODE),
    }
}

/// The state that follows `state` once its work ended with `completion`.
///
/// A report that ended the process stops the scheduler, and so does a wait
/// for which no trigger could be computed. Nothing else does: the states
/// follow each other in a circle, whether the work of a state succeeded or
/// failed.
pub open spec fn next_state_spec(state: SchedulerState, completion: Completion) -> SchedulerState {
    if state == SchedulerState::Stopped || completion == Completion::Terminated {
        SchedulerState::Stopped
    } else {
        match state {
            SchedulerState::Idle => SchedulerState::Waiting,
            SchedulerState::Waiting => if completion == Completion::Succeeded {
                SchedulerState::Triggered
            } else {
                SchedulerState::Stopped
            },
            SchedulerState::Triggered => SchedulerState::EnsuringRepository,
            SchedulerState::EnsuringRepository => SchedulerState::CreatingArchive,
            SchedulerState::CreatingArchive => SchedulerState::Reporting,
            SchedulerState::Reporting => SchedulerState::Waiting,
            SchedulerState::Stopped => SchedulerState::Stopped,
        }
    }
}

/// Tells what work to do in `state`.
pub fn action_for(state: SchedulerState, daemonize: bool) -> (action: SchedulerAction)
    ensures
        action == action_of(state, daemonize),
        action is Daemonize <==> state == SchedulerState::Idle && daemonize,
        action is Exit <==> state == SchedulerState::Stopped,
{
    match state {
        SchedulerState::Idle => if daemonize {
            SchedulerAction::Daemonize
        } else {
            SchedulerAction::Proceed
        },
        SchedulerState::Waiting => SchedulerAction::AwaitTrigger,
        SchedulerState::Triggered => SchedulerAction::Proceed,
        SchedulerState::EnsuringRepository => SchedulerAction::EnsureRepository,
        SchedulerState::CreatingArchive => SchedulerAction::CreateArchive,
        SchedulerState::Reporting => SchedulerAction::Report,
        SchedulerState::Stopped => SchedulerAction::Exit(ERROR_EXIT_CODE),
    }
}

/// Moves on from `state` once its work ended with `completion`.
pub fn next_state(state: SchedulerState, completion: Completion) -> (next: SchedulerState)
    ensures
        next == next_state_spec(state, completion),
        next == SchedulerState::Stopped <==> state == SchedulerState::Stopped || completion
            == Completion::Terminated || (state == SchedulerState::Waiting && completion
            == Completion::Failed),
{
    match completion {
        Completion::Terminated => SchedulerState::Stopped,
        _ => match state {
            SchedulerState::Idle => SchedulerState::Waiting,
            SchedulerState::Waiting => match completion {
                Completion::Succeeded => SchedulerState::Triggered,
                _ => SchedulerState::Stopped,
            },
            SchedulerState::Triggered => SchedulerState::EnsuringRepository,
            SchedulerState::EnsuringRepository => SchedulerState::CreatingArchive,
            SchedulerState::CreatingArchive => SchedulerState::Reporting,
            SchedulerState::Reporting => SchedulerState::Waiting,
            SchedulerState::Stopped => SchedulerState::Stopped,
        },
    }
}

/// How a piece of work ended, given whether it failed and what it reported:
/// a report with a line that ends the process terminates, whatever the work
/// did.
pub open spec fn completion_spec(
    failed: bool,
    lines: Seq<(LogLevel, Seq<char>)>,
    sink_configured: bool,
) -> Completion {
    if ends_process(lines, sink_configured) {
        Completion::Terminated
    } else if failed {
        Completion::Failed
    } else {
        Completion::Succeeded
    }
}

/// Tells how a piece of work ended.
pub fn completion_of(failed: bool, lines: &Vec<LogLine>, sink_configured: bool) -> (completion:
    Completion)
    ensures
        completion == completion_spec(failed, lines.deep_view(), sink_configured),
        sink_configured ==> completion != Completion::Terminated,
{
    if lines_end_process(lines, sink_configured) {
        Completion::Terminated
    } else if failed {
        Completion::Failed
    } else {
        Completion::Succeeded
    }
}

/// Work that failed and whose report did not end the process never stops
/// the scheduler: in every state but `Waiting`, the state that follows is
/// the same whether the work succeeded or failed, and it is not `Stopped`.
pub proof fn lemma_failures_do_not_stop(state: SchedulerState)
    requires
        state != SchedulerState::Stopped,
        state != SchedulerState::Waiting,
    ensures
        next_state_spec(state, Completion::Failed) == next_state_spec(state, Completion::Succeeded),
        next_state_spec(state, Completion::Failed) != SchedulerState::Stopped,
{
}

/// The scheduler detaches from the terminal at most once, before the first
/// wait: only the state `Idle` asks for it, and no state leads back to
/// `Idle`.
pub proof fn lemma_detaches_at_most_once(
    state: SchedulerState,
    completion: Completion,
    daemonize: bool,
)
    ensures
        next_state_spec(state, completion) != SchedulerState::Idle,
        action_of(state, daemonize) is Daemonize ==> state == SchedulerState::Idle,
{
}

/// With a log sink no report ends the process, so the scheduler stops only
/// where no trigger can be computed.
pub proof fn lemma_sink_keeps_running(
    state: SchedulerState,
    failed: bool,
    lines: Seq<(LogLevel, Seq<char>)>,
)
    requires
        state != SchedulerState::Stopped,
    ensures
        completion_spec(failed, lines, true) != Completion::Terminated,
        next_state_spec(state, completion_spec(failed, lines, true)) == SchedulerState::Stopped
            <==> state == SchedulerState::Waiting && failed,
{
}

/// One run leads back to the wait: from `Waiting`, a trigger and then four
/// pieces of work that end in any way but a terminating report pass through
/// `Triggered`, `EnsuringRepository`, `CreatingArchive` and `Reporting`, in
/// this order, and arrive at `Waiting` again.
pub proof fn lemma_run_returns_to_waiting(
    proceeded: Completion,
    ensured: Completion,
    created: Completion,
    reported: Completion,
)
    requires
        proceeded != Completion::Terminated,
        ensured != Completion::Terminated,
        created != Completion::Terminated,
        reported != Completion::Terminated,
    ensures
        ({
            let triggered = next_state_spec(SchedulerState::Waiting, Completion::Succeeded);
            let ensuring = next_state_spec(triggered, proceeded);
            let creating = next_state_spec(ensuring, ensured);
            let reporting = next_state_spec(creating, created);
            &&& triggered == SchedulerState::Triggered
            &&& ensuring == SchedulerState::EnsuringRepository
            &&& creating == SchedulerState::CreatingArchive
            &&& reporting == SchedulerState::Reporting
            &&& next_state_spec(reporting, reported) == SchedulerState::Waiting
        }),
{
}

/// One trigger, one archive, one report: in a run from one wait to the next
/// whose work ends in any way but a terminating report, the archive is
/// asked for in exactly one state and reported in exactly one, the second
/// after the first; and the report of a new archive is never empty.
pub proof fn lemma_one_archive_per_trigger(
    proceeded: Completion,
    ensured: Completion,
    created: Completion,
    reported: Completion,
    daemonize: bool,
    archive: ArchiveResult,
    verbose: bool,
)
    requires
        proceeded != Completion::Terminated,
        ensured != Completion::Terminated,
        created != Completion::Terminated,
        reported != Completion::Terminated,
    ensures
        ({
            let first = next_state_spec(SchedulerState::Waiting, Completion::Succeeded);
            let second = next_state_spec(first, proceeded);
            let third = next_state_spec(second, ensured);
            let fourth = next_state_spec(third, created);
            let run = seq![
                action_of(first, daemonize),
                action_of(second, daemonize),
                action_of(third, daemonize),
                action_of(fourth, daemonize),
            ];
            &&& next_state_spec(fourth, reported) == SchedulerState::Waiting
            &&& run == seq![
                SchedulerAction::Proceed,
                SchedulerAction::EnsureRepository,
                SchedulerAction::CreateArchive,
                SchedulerAction::Report,
            ]
            &&& report_lines(Ok(archive), verbose).len() >= 1
        }),
{
}

/// The lines that report what became of an archive. A new archive is
/// described in full where `verbose` is set, else confirmed in one line. A
/// failure is described where `verbose` is set, else passed over.
pub open spec fn report_lines(outcome: Result<ArchiveResult, ArchiveError>, verbose: bool) -> Seq<
    (LogLevel, Seq<char>),
> {
    match outcome {
        Ok(created) => if verbose {
            create_info_lines(created)
        } else {
            seq![(LogLevel::Info, "Archive created!"@)]
        },
        Err(error) => if verbose {
            seq![archive_error_line(error)]
        } else {
            Seq::empty()
        },
    }
}

/// Writes the lines that report what became of an archive.
pub fn report(outcome: Result<ArchiveResult, ArchiveError>, verbose: bool) -> (lines: Vec<LogLine>)
    ensures
        lines.deep_view() == report_lines(outcome, verbose),
        outcome is Err && !verbose ==> lines@.len() == 0,
{
    let mut lines: Vec<LogLine> = Vec::new();
    assert(lines.deep_view() =~= Seq::empty());
    match outcome {
        Ok(created) => {
            if verbose {
                return display_create_info(created);
            }
            push_line(&mut lines, LogLevel::Info, String::from_str("Archive created!"));
        },
        Err(error) => {
            if verbose {
                let line = parse_archive_error(error);
                let ghost shown = line@;
                lines.push(line);
                assert(lines.deep_view() =~= seq![shown]);
            }
        },
    }
    assert(lines.deep_view() =~= report_lines(outcome, verbose));
    lines
}

/// Why the process could not detach from its terminal.
#[derive(Debug)]
pub struct DaemonizeError {
    /// What went wrong, in words.
    pub reason: String,
}

/// The line that reports how detaching from the terminal went: a note where
/// it succeeded, the failure as a warning where it did not. A warning never
/// ends the process, so a scheduler that cannot detach goes on in the
/// foreground.
pub open spec fn daemonize_line(outcome: Result<(), DaemonizeError>) -> (LogLevel, Seq<char>) {
    match outcome {
        Ok(()) => (LogLevel::Info, "Running daemon"@),
        Err(error) => (LogLevel::Warn, "Error: "@ + error.reason@),
    }
}

/// Writes the line that reports how detaching from the terminal went.
pub fn daemonize_report(outcome: &Result<(), DaemonizeError>) -> (line: LogLine)
    ensures
        line@ == daemonize_line(*outcome),
{
    match outcome {
        Ok(()) => LogLine::new(LogLevel::Info, String::from_str("Running daemon")),
        Err(error) => LogLine::new(LogLevel::Warn, prefixed("Error: ", error.reason.as_str())),
    }
}

/// Whether detaching from the terminal succeeds or fails, and with or
/// without a log sink, the scheduler goes on to its first wait: the report
/// of a failure never ends the process.
pub proof fn lemma_failed_detach_keeps_running(
    outcome: Result<(), DaemonizeError>,
    sink_configured: bool,
)
    ensures
        !ends_process(seq![daemonize_line(outcome)], sink_configured),
        next_state_spec(
            SchedulerState::Idle,
            completion_spec(outcome is Err, seq![daemonize_line(outcome)], sink_configured),
        ) == SchedulerState::Waiting,
{
}

/// A failed creation is recorded and the scheduler goes on to the next wait,
/// unless its report ends the process: that happens exactly where the
/// failure is the engine's, the report is verbose and there is no log sink.
pub proof fn lemma_archive_failure_keeps_running(
    error: ArchiveError,
    verbose: bool,
    sink_configured: bool,
)
    ensures
        ({
            let completion = completion_spec(
                true,
                report_lines(Err(error), verbose),
                sink_configured,
            );
            let fatal = error is ArchiveCreateError && verbose && !sink_configured;
            &&& fatal ==> completion == Completion::Terminated
            &&& !fatal ==> completion == Completion::Failed
            &&& !fatal ==> next_state_spec(SchedulerState::Reporting, completion)
                == SchedulerState::Waiting
        }),
{
    let lines = report_lines(Err(error), verbose);
    if error is ArchiveCreateError && verbose && !sink_configured {
        assert(route_of(lines[0].0, sink_configured) is Terminate);
    }
}

/// The line that reports why no trigger was computed.
pub open spec fn trigger_error_line(error: TriggerError) -> (LogLevel, Seq<char>) {
    (
        LogLevel::Error,
        match error {
            TriggerError::Config(ConfigError::MalformedExpression) => "Failed to parse CRON expression"@,
            TriggerError::Config(ConfigError::UnknownTimezone) => "Failed to parse timezone"@,
            TriggerError::Config(ConfigError::EmptyRepository) => "No repository given"@,
            TriggerError::Config(ConfigError::EmptyPassphrase) => "No passphrase given"@,
            TriggerError::ScheduleExhausted => "Schedule has no upcoming trigger"@,
        },
    )
}

/// Writes the line that reports why no trigger was computed.
pub fn trigger_error_report(error: TriggerError) -> (line: LogLine)
    ensures
        line@ == trigger_error_line(error),
{
    let text = match error {
        TriggerError::Config(ConfigError::MalformedExpression) => "Failed to parse CRON expression",
        TriggerError::Config(ConfigError::UnknownTimezone) => "Failed to parse timezone",
        TriggerError::Config(ConfigError::EmptyRepository) => "No repository given",
        TriggerError::Config(ConfigError::EmptyPassphrase) => "No passphrase given",
        TriggerError::ScheduleExhausted => "Schedule has no upcoming trigger",
    };
    LogLine::new(LogLevel::Error, String::from_str(text))
}

} // verus!
