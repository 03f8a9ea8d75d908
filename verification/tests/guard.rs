use rusty_borg::borg::engine::{EngineFailure, FailureKind};
use rusty_borg::borg::guard::{
    after_initialisation, after_probe, ensure_repository, repository_report, RepoError,
    RepositoryState,
};
use rusty_borg::borg::init::InitArgs;
use rusty_borg::util::{LogLevel, LogLine};

fn failure(kind: FailureKind, summary: &str) -> EngineFailure {
    EngineFailure { kind, summary: summary.to_owned(), detail: format!("{:?}", kind) }
}

fn shown(lines: &[LogLine]) -> Vec<(LogLevel, &str)> {
    lines.iter().map(|line| (line.level, line.message.as_str())).collect()
}

#[test]
fn readable_repository_is_valid_as_it_is() {
    assert_eq!(after_probe(true), Some(RepositoryState::AlreadyValid));
    assert_eq!(after_probe(false), None);
}

#[test]
fn initialisation_success_is_initialized() {
    match after_initialisation(Ok(())) {
        Ok(RepositoryState::Initialized) => {}
        other => panic!("{:?}", other),
    }
}

#[test]
fn existing_repository_is_told_apart_from_other_failures() {
    match after_initialisation(Err(failure(FailureKind::RepositoryAlreadyExists, "Repository already exists"))) {
        Err(error @ RepoError::AlreadyExists(_)) => assert!(error.is_benign()),
        other => panic!("{:?}", other),
    }
    for kind in [
        FailureKind::Other,
        FailureKind::PassphraseWrong,
        FailureKind::RepositoryDoesNotExist,
        FailureKind::ArchiveAlreadyExists,
    ] {
        match after_initialisation(Err(failure(kind, "no"))) {
            Err(error @ RepoError::Other(_)) => assert!(!error.is_benign()),
            other => panic!("{:?}", other),
        }
    }
}

#[test]
fn guard_reports_by_outcome() {
    assert_eq!(repository_report(&Ok(RepositoryState::AlreadyValid)).len(), 0);
    assert_eq!(
        shown(&repository_report(&Ok(RepositoryState::Initialized))),
        vec![(LogLevel::Info, "Repository successfully created")]
    );
    let exists = Err(RepoError::AlreadyExists(failure(
        FailureKind::RepositoryAlreadyExists,
        "Repository already exists",
    )));
    assert_eq!(
        shown(&repository_report(&exists)),
        vec![(LogLevel::Warn, "Operation failed: Repository already exists")]
    );
    let other = Err(RepoError::Other(failure(FailureKind::Other, "disk full")));
    assert_eq!(
        shown(&repository_report(&other)),
        vec![(LogLevel::Error, "Operation failed: disk full")]
    );
}

#[test]
fn guard_cannot_make_a_repository_below_a_missing_directory() {
    let args = InitArgs::new(
        "/nonexistent-parent-directory/of/a/repository".to_owned(),
        "passphrase".to_owned(),
    );
    match ensure_repository(&args) {
        Err(RepoError::Other(failure)) => {
            assert_ne!(failure.kind, FailureKind::RepositoryAlreadyExists);
            assert!(!failure.summary.is_empty());
        }
        other => panic!("{:?}", other),
    }
}
