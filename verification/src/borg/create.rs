//! Creating an archive: its name, its selection rules, the request to the
//! engine, and the lines that describe the result.

use crate::borg::engine::{
    ask_create, engine_created, ArchiveResult, CreateOptions, EngineFailure, Pattern,
    PatternInstruction,
};
use crate::borg::errors::{ArchiveError, ClockError};
use crate::borg::{BorgTrait, CreateTrait};
use crate::util::decimal::{decimal_digits, decimal_string, lemma_decimal_injective};
use crate::util::text::{
    clone_optional_string, clone_optional_strings, clone_strings, concat, concat_all, prefixed,
};
use crate::util::{push_line, LogLevel, LogLine};
use vstd::prelude::*;

verus! {

/// Arguments of the creation of one archive.
#[derive(Debug, Clone)]
pub struct CreateArgs {
    pub repository: String,
    pub passphrase: String,
    pub archive: Option<String>,
    pub paths: Vec<String>,
    pub include_patterns: Option<Vec<String>>,
    pub exclude_patterns: Option<Vec<String>>,
}

impl BorgTrait for CreateArgs {
    open spec fn repository_value(&self) -> Seq<char> {
        self.repository@
    }

    open spec fn passphrase_value(&self) -> Seq<char> {
        self.passphrase@
    }

    fn repository(&self) -> (repository: String) {
        self.repository.clone()
    }

    fn passphrase(&self) -> (passphrase: String) {
        self.passphrase.clone()
    }
}

impl CreateTrait for CreateArgs {
    open spec fn archive_value(&self) -> Option<Seq<char>> {
        self.archive.deep_view()
    }

    open spec fn paths_value(&self) -> Seq<Seq<char>> {
        self.paths.deep_view()
    }

    open spec fn include_patterns_value(&self) -> Option<Seq<Seq<char>>> {
        self.include_patterns.deep_view()
    }

    open spec fn exclude_patterns_value(&self) -> Option<Seq<Seq<char>>> {
        self.exclude_patterns.deep_view()
    }

    fn archive(&self) -> (archive: Option<String>) {
        clone_optional_string(&self.archive)
    }

    fn paths(&self) -> (paths: Vec<String>) {
        clone_strings(&self.paths)
    }

    fn include_patterns(&self) -> (patterns: Option<Vec<String>>) {
        clone_optional_strings(&self.include_patterns)
    }

    fn exclude_patterns(&self) -> (patterns: Option<Vec<String>>) {
        clone_optional_strings(&self.exclude_patterns)
    }
}

/// Whether a selection rule takes in or leaves out what its pattern matches.
#[derive(Clone, Copy, Debug, PartialEq, Eq, Structural)]
pub enum RuleKind {
    Include,
    Exclude,
}

impl View for PatternInstruction {
    type V = (RuleKind, Seq<char>);

    open spec fn view(&self) -> (RuleKind, Seq<char>) {
        match self {
            PatternInstruction::Include(Pattern::Shell(text)) => (RuleKind::Include, text@),
            PatternInstruction::Exclude(Pattern::Shell(text)) => (RuleKind::Exclude, text@),
        }
    }
}

impl DeepView for PatternInstruction {
    type V = (RuleKind, Seq<char>);

    open spec fn deep_view(&self) -> (RuleKind, Seq<char>) {
        self@
    }
}

/// A request to create an archive, as plain values.
pub struct CreateOptionsView {
    pub repository: Seq<char>,
    pub archive: Seq<char>,
    pub passphrase: Option<Seq<char>>,
    pub paths: Seq<Seq<char>>,
    pub patterns: Seq<(RuleKind, Seq<char>)>,
}

impl View for CreateOptions {
    type V = CreateOptionsView;

    open spec fn view(&self) -> CreateOptionsView {
        CreateOptionsView {
            repository: self.repository@,
            archive: self.archive@,
            passphrase: self.passphrase.deep_view(),
            paths: self.paths.deep_view(),
            patterns: self.patterns.deep_view(),
        }
    }
}

/// The request for an archive `archive` of `paths` in `repository`, selected
/// by `pattern_instructions`, with `passphrase` set.
pub fn new_create_options(
    repository: String,
    passphrase: String,
    paths: Vec<String>,
    archive: String,
    pattern_instructions: Vec<PatternInstruction>,
) -> (create_options: CreateOptions)
    ensures
        create_options@ == (CreateOptionsView {
            repository: repository@,
            archive: archive@,
            passphrase: Some(passphrase@),
            paths: paths.deep_view(),
            patterns: pattern_instructions.deep_view(),
        }),
{
    CreateOptions {
        repository,
        archive,
        passphrase: Some(passphrase),
        paths,
        patterns: pattern_instructions,
    }
}

/// The line that shows the command line of the engine: its words written one
/// after the other behind a fixed heading.
pub open spec fn used_command_line(commands: Seq<Seq<char>>) -> (LogLevel, Seq<char>) {
    (LogLevel::Info, "Command used: "@ + concat(commands))
}

/// Writes the line that shows the command line of the engine.
pub fn print_used_command(commands: Vec<String>) -> (line: LogLine)
    ensures
        line@ == used_command_line(commands.deep_view()),
{
    let command = concat_all(&commands);
    LogLine::new(LogLevel::Info, prefixed("Command used: ", command.as_str()))
}

/// The patterns of an optional list; an absent list has none.
pub open spec fn patterns_or_none(patterns: Option<Seq<Seq<char>>>) -> Seq<Seq<char>> {
    match patterns {
        Some(list) => list,
        None => Seq::empty(),
    }
}

/// The selection rules for two optional pattern lists: one include rule for
/// each include pattern, in order, then one exclude rule for each exclude
/// pattern, in order.
pub open spec fn pattern_rules(
    include_patterns: Option<Seq<Seq<char>>>,
    exclude_patterns: Option<Seq<Seq<char>>>,
) -> Seq<(RuleKind, Seq<char>)> {
    let wanted = patterns_or_none(include_patterns);
    let unwanted = patterns_or_none(exclude_patterns);
    Seq::new(wanted.len(), |i: int| (RuleKind::Include, wanted[i])) + Seq::new(
        unwanted.len(),
        |i: int| (RuleKind::Exclude, unwanted[i]),
    )
}

/// Absent pattern lists restrict nothing: they give no rule at all, and an
/// absent list gives what an empty list gives.
pub proof fn lemma_absent_patterns_restrict_nothing(other: Option<Seq<Seq<char>>>)
    ensures
        pattern_rules(None, None) == Seq::<(RuleKind, Seq<char>)>::empty(),
        pattern_rules(None, other) == pattern_rules(Some(Seq::empty()), other),
        pattern_rules(other, None) == pattern_rules(other, Some(Seq::empty())),
{
    assert(pattern_rules(None, None) =~= Seq::<(RuleKind, Seq<char>)>::empty());
}

/// Appends to `rules` one rule of kind `kind` for each pattern of `patterns`.
fn push_rules(rules: &mut Vec<PatternInstruction>, kind: RuleKind, patterns: Vec<String>)
    ensures
        final(rules).deep_view() == old(rules).deep_view() + Seq::new(
            patterns.deep_view().len(),
            |i: int| (kind, patterns.deep_view()[i]),
        ),
{
    let ghost before = rules.deep_view();
    let ghost texts = patterns.deep_view();
    let mut i: usize = 0;
    while i < patterns.len()
        invariant
            i <= patterns.len(),
            texts == patterns.deep_view(),
            rules.deep_view() == before + Seq::new(i as nat, |k: int| (kind, texts[k])),
        decreases patterns.len() - i,
    {
        let text = patterns[i].clone();
        let rule = match kind {
            RuleKind::Include => PatternInstruction::Include(Pattern::Shell(text)),
            RuleKind::Exclude => PatternInstruction::Exclude(Pattern::Shell(text)),
        };
        assert(rule@ == (kind, texts[i as int]));
        let ghost earlier = rules.deep_view();
        rules.push(rule);
        assert(rules.deep_view() =~= earlier.push((kind, texts[i as int])));
        assert(rules.deep_view() =~= before + Seq::new((i + 1) as nat, |k: int| (kind, texts[k])));
        i += 1;
    }
}

/// Turns two optional pattern lists into the selection rules of an archive.
pub fn generate_pattern_instructions(
    include_patterns: Option<Vec<String>>,
    exclude_patterns: Option<Vec<String>>,
) -> (rules: Vec<PatternInstruction>)
    ensures
        rules.deep_view() == pattern_rules(
            include_patterns.deep_view(),
            exclude_patterns.deep_view(),
        ),
        include_patterns is None && exclude_patterns is None ==> rules@.len() == 0,
{
    let mut rules: Vec<PatternInstruction> = Vec::new();
    assert(rules.deep_view() =~= Seq::empty());
    match include_patterns {
        Some(patterns) => {
            push_rules(&mut rules, RuleKind::Include, patterns);
        },
        None => {},
    }
    let ghost included = rules.deep_view();
    assert(included =~= Seq::new(
        patterns_or_none(include_patterns.deep_view()).len(),
        |i: int| (RuleKind::Include, patterns_or_none(include_patterns.deep_view())[i]),
    ));
    match exclude_patterns {
        Some(patterns) => {
            push_rules(&mut rules, RuleKind::Exclude, patterns);
        },
        None => {},
    }
    assert(rules.deep_view() =~= pattern_rules(
        include_patterns.deep_view(),
        exclude_patterns.deep_view(),
    ));
    rules
}

/// The archive name of a moment: the whole seconds since the Unix epoch, in
/// decimal notation.
pub open spec fn epoch_name_spec(seconds: nat) -> Seq<char> {
    decimal_digits(seconds)
}

/// Names from different seconds differ.
///
/// Two archives created at least one second apart therefore never share a
/// derived name. Two created within the same second do.
pub proof fn lemma_epoch_names_distinct(first: nat, second: nat)
    requires
        first != second,
    ensures
        epoch_name_spec(first) != epoch_name_spec(second),
{
    if epoch_name_spec(first) == epoch_name_spec(second) {
        lemma_decimal_injective(first, second);
    }
}

/// Writes the archive name of the moment `seconds` after the Unix epoch.
pub fn epoch_name(seconds: u64) -> (name: String)
    ensures
        name@ == epoch_name_spec(seconds as nat),
{
    decimal_string(seconds)
}

/// Reads the system clock through `std::time::SystemTime::elapsed` on
/// `UNIX_EPOCH` and keeps the whole seconds of the answer
/// (`Duration::as_secs`); gives nothing when the clock stands before the
/// epoch. Nothing is claimed of the reading.
#[verifier::external_body]
fn epoch_seconds() -> (seconds: Option<u64>) {
    std::time::UNIX_EPOCH.elapsed().ok().map(|elapsed| elapsed.as_secs())
}

/// Whether `reading` is a reading of the system clock: the whole seconds
/// since the Unix epoch that `epoch_seconds` gave, or nothing where the clock
/// stood before the epoch.
///
/// The clock reads differently from one time to the next, so this is a
/// relation, not a value. It can be had only by reading the clock.
pub closed spec fn clock_read(reading: Option<u64>) -> bool {
    call_ensures(epoch_seconds, (), reading)
}

/// What is made of a reading of the clock: the name of its second, or the
/// clock failure where there is no reading.
pub open spec fn reading_named(reading: Option<u64>, name: Result<String, ClockError>) -> bool {
    match reading {
        Some(seconds) => name matches Ok(text) && text@ == epoch_name_spec(seconds as nat),
        None => name is Err,
    }
}

/// Whether `name` is what [`get_epoch_name`] makes of a reading of the clock.
pub open spec fn epoch_name_derived(name: Result<String, ClockError>) -> bool {
    exists|reading: Option<u64>| #[trigger] clock_read(reading) && reading_named(reading, name)
}

/// Derives an archive name from the system clock.
///
/// The clock is read once. The name is the decimal notation of the seconds
/// read; a clock that stands before the Unix epoch gives [`ClockError`].
pub fn get_epoch_name() -> (name: Result<String, ClockError>)
    ensures
        epoch_name_derived(name),
{
    let reading = epoch_seconds();
    assert(clock_read(reading));
    match archive_name(None, reading) {
        Ok(text) => {
            assert(reading_named(reading, Ok(text)));
            Ok(text)
        },
        Err(_) => {
            assert(reading_named(reading, Err(ClockError)));
            Err(ClockError)
        },
    }
}

/// The name of the archive to create: the configured one where there is one,
/// else the name of the second that the clock reading `clock` gives; without
/// either, the clock failure.
pub open spec fn archive_name_spec(configured: Option<Seq<char>>, clock: Option<u64>) -> Result<
    Seq<char>,
    ArchiveError,
> {
    match configured {
        Some(name) => Ok(name),
        None => match clock {
            Some(seconds) => Ok(epoch_name_spec(seconds as nat)),
            None => Err(ArchiveError::EpochTimeError),
        },
    }
}

/// Chooses the name of the archive to create.
pub fn archive_name(configured: Option<String>, clock: Option<u64>) -> (name: Result<
    String,
    ArchiveError,
>)
    ensures
        match archive_name_spec(configured.deep_view(), clock) {
            Ok(expected) => name matches Ok(text) && text@ == expected,
            Err(_) => name matches Err(ArchiveError::EpochTimeError),
        },
{
    match configured {
        Some(text) => Ok(text),
        None => match clock {
            Some(seconds) => Ok(epoch_name(seconds)),
            None => Err(ArchiveError::EpochTimeError),
        },
    }
}

/// The lines that describe a new archive: where it is, when its creation
/// started and ended, how long it took, and the command line used.
pub open spec fn create_info_lines(create_result: ArchiveResult) -> Seq<(LogLevel, Seq<char>)> {
    seq![
        (
            LogLevel::Info,
            "Successfully created archive at "@ + create_result.location@ + "::"@
                + create_result.name@,
        ),
        (LogLevel::Info, "Started at: "@ + create_result.start@),
        (LogLevel::Info, "Ended at: "@ + create_result.end@),
        (LogLevel::Info, "Took: "@ + create_result.duration@),
        used_command_line(create_result.command_line.deep_view()),
    ]
}

/// Describes a new archive.
pub fn display_create_info(create_result: ArchiveResult) -> (lines: Vec<LogLine>)
    ensures
        lines.deep_view() == create_info_lines(create_result),
{
    let mut lines: Vec<LogLine> = Vec::new();
    assert(lines.deep_view() =~= Seq::empty());
    let mut place = prefixed("Successfully created archive at ", create_result.location.as_str());
    place.append("::");
    place.append(create_result.name.as_str());
    push_line(&mut lines, LogLevel::Info, place);
    push_line(&mut lines, LogLevel::Info, prefixed("Started at: ", create_result.start.as_str()));
    push_line(&mut lines, LogLevel::Info, prefixed("Ended at: ", create_result.end.as_str()));
    push_line(&mut lines, LogLevel::Info, prefixed("Took: ", create_result.duration.as_str()));
    let ghost described = lines.deep_view();
    let command = print_used_command(create_result.command_line);
    lines.push(command);
    assert(lines.deep_view() =~= described.push(
        used_command_line(create_result.command_line.deep_view()),
    ));
    assert(lines.deep_view() =~= create_info_lines(create_result));
    lines
}

/// The request that [`create_archive`] hands to the engine for `create_args`
/// once the archive is named `archive`.
pub open spec fn create_request<T: CreateTrait>(create_args: &T, archive: Seq<char>) -> CreateOptionsView {
    CreateOptionsView {
        repository: create_args.repository_value(),
        archive,
        passphrase: Some(create_args.passphrase_value()),
        paths: create_args.paths_value(),
        patterns: pattern_rules(
            create_args.include_patterns_value(),
            create_args.exclude_patterns_value(),
        ),
    }
}

/// Builds the request for an archive of `create_args` named `archive`.
pub fn build_create_request<T: CreateTrait>(create_args: &T, archive: String) -> (request:
    CreateOptions)
    ensures
        request@ == create_request(create_args, archive@),
{
    let rules = generate_pattern_instructions(
        create_args.include_patterns(),
        create_args.exclude_patterns(),
    );
    new_create_options(
        create_args.repository(),
        create_args.passphrase(),
        create_args.paths(),
        archive,
        rules,
    )
}

/// What becomes of the engine's answer: an archive is handed on as it is, a
/// failure is handed on as the failure of the creation.
pub open spec fn archive_outcome_spec(answer: Result<ArchiveResult, EngineFailure>) -> Result<
    ArchiveResult,
    ArchiveError,
> {
    match answer {
        Ok(created) => Ok(created),
        Err(failure) => Err(ArchiveError::ArchiveCreateError(failure)),
    }
}

/// Hands on the engine's answer as the outcome of the creation.
pub fn archive_outcome(answer: Result<ArchiveResult, EngineFailure>) -> (outcome: Result<
    ArchiveResult,
    ArchiveError,
>)
    ensures
        outcome == archive_outcome_spec(answer),
{
    match answer {
        Ok(created) => Ok(created),
        Err(failure) => Err(ArchiveError::ArchiveCreateError(failure)),
    }
}

/// Whether `outcome` is what becomes of an archive of `create_args` named
/// `archive`: the engine was asked for exactly the request of
/// [`create_request`], and its answer was handed on as
/// [`archive_outcome_spec`] hands it on.
pub open spec fn created_as<T: CreateTrait>(
    create_args: &T,
    archive: Seq<char>,
    outcome: Result<ArchiveResult, ArchiveError>,
) -> bool {
    exists|answer: Result<ArchiveResult, EngineFailure>| #[trigger]
        engine_created(create_request(create_args, archive), answer) && outcome
            == archive_outcome_spec(answer)
}

/// Whether `outcome` is what [`create_archive`] gives for `create_args`.
/// With a configured name, the archive is created under that name, whatever
/// the clock reads. Without one, the clock was read: a reading names the
/// archive after its second, and no reading is the clock failure.
pub open spec fn archive_created<T: CreateTrait>(
    create_args: &T,
    outcome: Result<ArchiveResult, ArchiveError>,
) -> bool {
    match create_args.archive_value() {
        Some(archive) => created_as(create_args, archive, outcome),
        None => exists|reading: Option<u64>| #[trigger]
            clock_read(reading) && match reading {
                Some(seconds) => created_as(
                    create_args,
                    epoch_name_spec(seconds as nat),
                    outcome,
                ),
                None => outcome matches Err(ArchiveError::EpochTimeError),
            },
    }
}

/// Creates one archive.
///
/// The archive gets the configured name or, without one, the name of the
/// current second. The engine is handed the request of [`create_request`];
/// what it answers is handed on by [`archive_outcome`]. The clock is read
/// only where no name is configured, so a configured name rules the clock
/// failure out.
pub fn create_archive<T: CreateTrait>(create_args: &T) -> (outcome: Result<
    ArchiveResult,
    ArchiveError,
>)
    ensures
        archive_created(create_args, outcome),
        outcome matches Err(ArchiveError::EpochTimeError) ==> create_args.archive_value() is None,
{
    let configured = create_args.archive();
    let reading = match &configured {
        Some(_) => None,
        None => {
            let reading = epoch_seconds();
            assert(clock_read(reading));
            reading
        },
    };
    let archive = match archive_name(configured, reading) {
        Ok(name) => name,
        Err(error) => {
            return Err(error);
        },
    };
    let request = build_create_request(create_args, archive);
    let answer = ask_create(&request);
    archive_outcome(answer)
}

} // verus!
