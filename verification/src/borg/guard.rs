//! Making sure that a repository is there before an archive is created.
//!
//! The guard probes the repository by listing it. Where the probe fails, for
//! whatever reason, it initialises the repository. A wrong passphrase fails
//! the probe just as a missing repository does; the initialisation that
//! follows then fails because the repository already exists. The guard
//! reports that failure as [`RepoError::AlreadyExists`] and the scheduler
//! carries on as if the repository were usable: the two cases are not told
//! apart.

use crate::borg::engine::{engine_initialised, EngineFailure, FailureKind};
use crate::borg::init::{init_request_for, initialise_repository};
use crate::borg::list::{probed, verify_repo_location};
use crate::borg::BorgTrait;
use crate::util::text::prefixed;
use crate::util::{ends_process, push_line, LogLevel, LogLine};
use vstd::prelude::*;

verus! {

/// How the guard found or left a repository.
#[derive(Clone, Copy, Debug, PartialEq, Eq, Structural)]
pub enum RepositoryState {
    /// The probe succeeded; nothing was done.
    AlreadyValid,
    /// The probe failed and the repository was initialised.
    Initialized,
}

/// Why the guard could not initialise a repository.
#[derive(Debug)]
pub enum RepoError {
    /// A repository is already in place. The scheduler presumes it usable.
    AlreadyExists(EngineFailure),
    /// Any other failure of the initialisation.
    Other(EngineFailure),
}

impl RepoError {
    /// Whether the scheduler may treat the repository as usable all the same.
    pub open spec fn benign(&self) -> bool {
        self is AlreadyExists
    }

    /// Tells whether the scheduler may treat the repository as usable all the same.
    pub fn is_benign(&self) -> (benign: bool)
        ensures
            benign == self.benign(),
    {
        match self {
            RepoError::AlreadyExists(_) => true,
            RepoError::Other(_) => false,
        }
    }

    /// The failure of the engine behind this error.
    pub open spec fn failure(&self) -> EngineFailure {
        match self {
            RepoError::AlreadyExists(failure) => *failure,
            RepoError::Other(failure) => *failure,
        }
    }
}

/// What the guard concludes from the probe alone: a repository that can be
/// read is valid as it is, any other has to be initialised.
pub open spec fn after_probe_spec(readable: bool) -> Option<RepositoryState> {
    if readable {
        Some(RepositoryState::AlreadyValid)
    } else {
        None
    }
}

/// What the guard concludes from an initialisation: success leaves an
/// initialised repository, a failure is told apart by its kind.
pub open spec fn after_initialisation_spec(initialised: Result<(), EngineFailure>) -> Result<
    RepositoryState,
    RepoError,
> {
    match initialised {
        Ok(()) => Ok(RepositoryState::Initialized),
        Err(failure) => if failure.kind == FailureKind::RepositoryAlreadyExists {
            Err(RepoError::AlreadyExists(failure))
        } else {
            Err(RepoError::Other(failure))
        },
    }
}

/// Concludes from the probe alone; `None` asks for an initialisation.
pub fn after_probe(readable: bool) -> (state: Option<RepositoryState>)
    ensures
        state == after_probe_spec(readable),
{
    if readable {
        Some(RepositoryState::AlreadyValid)
    } else {
        None
    }
}

/// Concludes from the outcome of an initialisation.
pub fn after_initialisation(initialised: Result<(), EngineFailure>) -> (outcome: Result<
    RepositoryState,
    RepoError,
>)
    ensures
        outcome == after_initialisation_spec(initialised),
{
    match initialised {
        Ok(()) => Ok(RepositoryState::Initialized),
        Err(failure) => match failure.kind {
            FailureKind::RepositoryAlreadyExists => Err(RepoError::AlreadyExists(failure)),
            _ => Err(RepoError::Other(failure)),
        },
    }
}

/// Whether `outcome` is what the guard concludes for the repository at
/// `repository` with `passphrase`. The repository was probed. Where the
/// probe succeeded, the repository is valid as it is. Where it failed, the
/// engine was asked for a new repository with the request of
/// [`init_request_for`], at the same location and under the same
/// passphrase, and the outcome is what [`after_initialisation_spec`] makes
/// of its answer.
pub open spec fn repository_ensured(
    repository: Seq<char>,
    passphrase: Seq<char>,
    outcome: Result<RepositoryState, RepoError>,
) -> bool {
    exists|readable: bool| #[trigger]
        probed(repository, passphrase, readable) && match after_probe_spec(readable) {
            Some(state) => outcome == Ok::<RepositoryState, RepoError>(state),
            None => exists|initialised: Result<(), EngineFailure>| #[trigger]
                engine_initialised(init_request_for(repository, passphrase), initialised) && outcome
                    == after_initialisation_spec(initialised),
        }
}

/// Makes sure that the repository of `args` is there: probes it, and
/// initialises it where the probe fails.
///
/// What the engine answers is not for this function to say. A probe that
/// succeeds gives `AlreadyValid`. After a probe that fails, an
/// initialisation that succeeds gives `Initialized`, and one that fails
/// gives an error, [`RepoError::AlreadyExists`] exactly when the engine
/// reported an existing repository.
pub fn ensure_repository<T: BorgTrait>(args: &T) -> (outcome: Result<RepositoryState, RepoError>)
    ensures
        repository_ensured(args.repository_value(), args.passphrase_value(), outcome),
        outcome matches Err(error) ==> (error.benign() <==> error.failure().kind
            == FailureKind::RepositoryAlreadyExists),
{
    let repository = args.repository();
    let passphrase = args.passphrase();
    let readable = verify_repo_location(repository.as_str(), passphrase.as_str());
    match after_probe(readable) {
        Some(state) => Ok(state),
        None => after_initialisation(initialise_repository(args)),
    }
}

/// The lines that report what the guard did: nothing for a repository that
/// was valid, a note for a new one, and the engine's description of a
/// failure, as a warning where a repository already exists and as an error
/// otherwise.
pub open spec fn repository_lines(outcome: Result<RepositoryState, RepoError>) -> Seq<
    (LogLevel, Seq<char>),
> {
    match outcome {
        Ok(RepositoryState::AlreadyValid) => Seq::empty(),
        Ok(RepositoryState::Initialized) => seq![
            (LogLevel::Info, "Repository successfully created"@),
        ],
        Err(RepoError::AlreadyExists(failure)) => seq![
            (LogLevel::Warn, "Operation failed: "@ + failure.summary@),
        ],
        Err(RepoError::Other(failure)) => seq![
            (LogLevel::Error, "Operation failed: "@ + failure.summary@),
        ],
    }
}

/// Writes the lines that report what the guard did.
pub fn repository_report(outcome: &Result<RepositoryState, RepoError>) -> (lines: Vec<LogLine>)
    ensures
        lines.deep_view() == repository_lines(*outcome),
{
    let mut lines: Vec<LogLine> = Vec::new();
    assert(lines.deep_view() =~= Seq::empty());
    match outcome {
        Ok(RepositoryState::AlreadyValid) => {},
        Ok(RepositoryState::Initialized) => {
            push_line(
                &mut lines,
                LogLevel::Info,
                String::from_str("Repository successfully created"),
            );
        },
        Err(RepoError::AlreadyExists(failure)) => {
            push_line(
                &mut lines,
                LogLevel::Warn,
                prefixed("Operation failed: ", failure.summary.as_str()),
            );
        },
        Err(RepoError::Other(failure)) => {
            push_line(
                &mut lines,
                LogLevel::Error,
                prefixed("Operation failed: ", failure.summary.as_str()),
            );
        },
    }
    assert(lines.deep_view() =~= repository_lines(*outcome));
    lines
}

/// What the guard reports of a repository that is valid, new or already in
/// place never ends the process, with or without a log sink: only a failure
/// of another kind is reported as an error.
pub proof fn lemma_usable_repository_is_not_fatal(
    outcome: Result<RepositoryState, RepoError>,
    sink_configured: bool,
)
    requires
        outcome matches Err(error) ==> error.benign(),
    ensures
        !ends_process(repository_lines(outcome), sink_configured),
{
}

/// The guard at work on an engine that never fails by itself: a repository
/// can be read exactly when it is among `repositories`, and initialising one
/// that is not among them adds it. The result is what the guard concludes
/// and the repositories that exist afterwards.
pub open spec fn ensure_on_ideal_engine(repositories: Set<Seq<char>>, repository: Seq<char>) -> (
    Result<RepositoryState, RepoError>,
    Set<Seq<char>>,
) {
    match after_probe_spec(repositories.contains(repository)) {
        Some(state) => (Ok(state), repositories),
        None => (after_initialisation_spec(Ok(())), repositories.insert(repository)),
    }
}

/// On an engine that never fails by itself, the guard initialises a missing
/// repository once: the first call concludes `Initialized`, and every call
/// after it concludes `AlreadyValid` and leaves the repositories as they are.
pub proof fn lemma_guard_initialises_once(repositories: Set<Seq<char>>, repository: Seq<char>)
    ensures
        !repositories.contains(repository) ==> ensure_on_ideal_engine(repositories, repository) == (
            Ok::<RepositoryState, RepoError>(RepositoryState::Initialized),
            repositories.insert(repository),
        ),
        ({
            let first = ensure_on_ideal_engine(repositories, repository);
            let second = ensure_on_ideal_engine(first.1, repository);
            &&& first.1.contains(repository)
            &&& second.0 == Ok::<RepositoryState, RepoError>(RepositoryState::AlreadyValid)
            &&& second.1 == first.1
        }),
{
}

} // verus!
