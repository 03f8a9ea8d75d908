//! Runs against the real `borg` program. Where it is not installed the engine
//! cannot be started at all, and each of these tests says so and stops.

use rand::{distributions::Alphanumeric, Rng};
use rusty_borg::borg::create::{create_archive, CreateArgs};
use rusty_borg::borg::engine::FailureKind;
use rusty_borg::borg::errors::ArchiveError;
use rusty_borg::borg::guard::{ensure_repository, RepositoryState};
use rusty_borg::borg::init::{initialise_repository, InitArgs};
use rusty_borg::borg::list::{list_contents, verify_repo_location, ListArgs};
use rusty_borg::borg::schedule::{completion_of, next_state, report, Completion, SchedulerState};

fn get_temp_directory() -> String {
    tempfile::tempdir()
        .expect("Failed to create a temporary directory")
        .path()
        .to_str()
        .unwrap()
        .to_owned()
}

fn get_random_string(length: usize) -> String {
    rand::thread_rng()
        .sample_iter(&Alphanumeric)
        .take(length)
        .map(char::from)
        .collect()
}

fn borg_is_missing() -> bool {
    let missing = match list_contents(ListArgs::new("test", "test")) {
        Err(failure) => failure.detail.starts_with("CommandFailed"),
        Ok(_) => false,
    };
    if missing {
        println!("the borg program cannot be started: nothing was tried");
    }
    missing
}

fn setup_create_args() -> CreateArgs {
    CreateArgs {
        repository: String::from("repository"),
        passphrase: String::from("passphrase"),
        archive: Some(String::from("archive")),
        paths: Vec::new(),
        include_patterns: Some(Vec::new()),
        exclude_patterns: Some(Vec::new()),
    }
}

fn setup_init_args() -> InitArgs {
    InitArgs {
        repository: String::from("repository"),
        passphrase: String::from("passphrase"),
    }
}

fn setup_list_args() -> ListArgs {
    ListArgs {
        repository: "repository".to_owned(),
        passphrase: "passphrase".to_owned(),
        last_modified: false,
        encryption: false,
        archives: false,
    }
}

#[test]
fn test_create_archive_pass() {
    if borg_is_missing() {
        return;
    }
    let repo_dir = get_temp_directory();
    let target_dir = get_temp_directory();
    let passphrase = "passphrase".to_owned();

    let init_args = InitArgs {
        repository: repo_dir.clone(),
        passphrase: passphrase.clone(),
    };
    let _ = initialise_repository(&init_args);

    let mut create_args = setup_create_args();
    create_args.repository = repo_dir.clone();
    create_args.paths = vec![target_dir.clone()];
    create_args.passphrase = passphrase;

    match create_archive(&create_args) {
        Ok(n) => {
            assert_eq!(n.location, repo_dir);
            assert_eq!(n.name, "archive");
        }
        Err(e) => panic!("{:?}", e),
    }
}

#[test]
fn test_create_archive_passphrase_fail() {
    if borg_is_missing() {
        return;
    }
    let repo_dir = get_temp_directory();
    let target_dir = get_random_string(10);
    let passphrase = "passphrase".to_owned();

    let init_args = InitArgs {
        repository: repo_dir.clone(),
        passphrase: passphrase.clone(),
    };
    let _ = initialise_repository(&init_args);

    let mut create_args = setup_create_args();
    create_args.repository = repo_dir.clone();
    create_args.paths = vec![target_dir.clone()];
    create_args.passphrase = get_random_string(10);

    match create_archive(&create_args) {
        Ok(_) => assert!(false),
        Err(e) => match e {
            ArchiveError::ArchiveCreateError(create_error) => match create_error.kind {
                FailureKind::PassphraseWrong => assert!(true),
                _ => assert!(false),
            },
            ArchiveError::EpochTimeError => assert!(false),
        },
    }
}

#[test]
fn test_initialise_repository_pass() {
    if borg_is_missing() {
        return;
    }
    let repo_dir = get_temp_directory();
    let mut init_args = setup_init_args();
    init_args.repository = repo_dir;

    match initialise_repository(&init_args) {
        Ok(_) => assert!(true),
        Err(_) => assert!(false),
    }
}

#[test]
fn test_initialise_repository_permissions_fail() {
    if borg_is_missing() {
        return;
    }
    let repo_dir = "/".to_owned();
    let mut init_args = setup_init_args();
    init_args.repository = repo_dir;

    match initialise_repository(&init_args) {
        Ok(_) => assert!(false),
        Err(e) => {
            assert_eq!(e.kind, FailureKind::Other);
            assert!(e.detail.starts_with("DeserializeError"));
        }
    }
}

#[test]
fn test_initialise_repository_alreadyexists_fail() {
    if borg_is_missing() {
        return;
    }
    let repo_dir = get_temp_directory();
    let mut init_args1 = setup_init_args();
    init_args1.repository = repo_dir.clone();

    initialise_repository(&init_args1).unwrap();

    let mut init_args2 = setup_init_args();
    init_args2.repository = repo_dir;

    match initialise_repository(&init_args2) {
        Ok(_) => assert!(false),
        Err(e) => match e.kind {
            FailureKind::RepositoryAlreadyExists => assert!(true),
            _ => assert!(false),
        },
    }
}

#[test]
fn test_verify_repo_location_pass() {
    if borg_is_missing() {
        return;
    }
    let passphrase = "passphrase";
    let repo_dir = get_temp_directory();
    let init_args = InitArgs {
        repository: repo_dir.clone(),
        passphrase: passphrase.to_owned(),
    };

    let _ = initialise_repository(&init_args);
    assert!(verify_repo_location(&repo_dir, passphrase));
}

#[test]
fn test_list_contents_pass() {
    if borg_is_missing() {
        return;
    }
    let passphrase = "passphrase";
    let repo_dir = get_temp_directory();
    let init_args = InitArgs {
        repository: repo_dir.clone(),
        passphrase: passphrase.to_owned(),
    };

    let _ = initialise_repository(&init_args);
    let mut list_args = setup_list_args();
    list_args.passphrase = passphrase.to_owned();
    list_args.repository = repo_dir.clone();

    match list_contents(list_args) {
        Ok(_) => assert!(true),
        Err(_) => assert!(false),
    }
}

#[test]
fn test_list_contents_fail() {
    if borg_is_missing() {
        return;
    }
    let list_args1 = setup_list_args();

    match list_contents(list_args1) {
        Ok(_) => assert!(false),
        Err(e) => match e.kind {
            FailureKind::RepositoryDoesNotExist => assert!(true),
            _ => assert!(false),
        },
    }
    let passphrase = "passphrase";
    let repo_dir = get_temp_directory();
    let init_args = InitArgs {
        repository: repo_dir.clone(),
        passphrase: passphrase.to_owned(),
    };

    let _ = initialise_repository(&init_args);
    let mut list_args2 = setup_list_args();
    list_args2.passphrase = "test".to_owned();
    list_args2.repository = repo_dir;

    match list_contents(list_args2) {
        Ok(_) => assert!(false),
        Err(e) => match e.kind {
            FailureKind::PassphraseWrong => assert!(true),
            _ => assert!(false),
        },
    }
}

#[test]
fn fresh_repository_is_initialised_once() {
    if borg_is_missing() {
        return;
    }
    let args = InitArgs { repository: get_temp_directory(), passphrase: "passphrase".to_owned() };
    assert_eq!(ensure_repository(&args).unwrap(), RepositoryState::Initialized);
    assert_eq!(ensure_repository(&args).unwrap(), RepositoryState::AlreadyValid);
    assert_eq!(ensure_repository(&args).unwrap(), RepositoryState::AlreadyValid);
}

#[test]
fn wrong_passphrase_fails_the_creation_and_the_scheduler_goes_on() {
    if borg_is_missing() {
        return;
    }
    let repo_dir = get_temp_directory();
    let init_args = InitArgs { repository: repo_dir.clone(), passphrase: "passphrase".to_owned() };
    initialise_repository(&init_args).unwrap();

    let mut create_args = setup_create_args();
    create_args.repository = repo_dir;
    create_args.passphrase = "another".to_owned();
    let outcome = create_archive(&create_args);
    assert!(matches!(
        &outcome,
        Err(ArchiveError::ArchiveCreateError(failure)) if failure.kind == FailureKind::PassphraseWrong
    ));
    let lines = report(outcome, true);
    assert_eq!(lines.len(), 1);
    let completion = completion_of(true, &lines, true);
    assert_eq!(completion, Completion::Failed);
    assert_eq!(next_state(SchedulerState::Reporting, completion), SchedulerState::Waiting);
}
