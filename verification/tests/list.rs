use rusty_borg::borg::engine::{ArchiveEntry, EncryptionInfo, RepositoryListing};
use rusty_borg::borg::list::{list_contents, listing_lines, verify_repo_location, ListArgs};
use rusty_borg::borg::BorgTrait;
use rusty_borg::util::{LogLevel, LogLine};

fn setup_list_args() -> ListArgs {
    ListArgs {
        repository: "repository".to_owned(),
        passphrase: "passphrase".to_owned(),
        last_modified: false,
        encryption: false,
        archives: false,
    }
}

fn shown(lines: &[LogLine]) -> Vec<(LogLevel, &str)> {
    lines.iter().map(|line| (line.level, line.message.as_str())).collect()
}

fn sample_listing() -> RepositoryListing {
    RepositoryListing {
        last_modified: "2024-01-02 03:04:05".to_owned(),
        encryption: Some(EncryptionInfo {
            mode: "KeyfileBlake2".to_owned(),
            keyfile: Some("/home/me/.config/borg/keys/repo".to_owned()),
        }),
        archives: vec![
            ArchiveEntry {
                id: "ab12".to_owned(),
                name: "first".to_owned(),
                start: "2024-01-01 00:00:00".to_owned(),
            },
            ArchiveEntry {
                id: "cd34".to_owned(),
                name: "second".to_owned(),
                start: "2024-01-02 00:00:00".to_owned(),
            },
        ],
    }
}

#[test]
fn list_test_get_repository() {
    let list_args = setup_list_args();
    assert_eq!(list_args.repository(), "repository");
}

#[test]
fn list_test_get_passphrase() {
    let list_args = setup_list_args();
    assert_eq!(list_args.passphrase(), "passphrase");
}

#[test]
fn test_new() {
    let expected = setup_list_args();
    let result = ListArgs::new("repository", "passphrase");
    assert_eq!(result.repository, expected.repository);
    assert_eq!(result.passphrase, expected.passphrase);
    assert_eq!(result.last_modified, expected.last_modified);
    assert_eq!(result.encryption, expected.encryption);
    assert_eq!(result.archives, expected.archives);
}

#[test]
fn test_verify_repo_location_fail() {
    assert_eq!(verify_repo_location("test", "test"), false);
}

#[test]
fn list_contents_of_missing_repository_fails() {
    let mut list_args = setup_list_args();
    list_args.repository = "/nonexistent-parent-directory/of/a/repository".to_owned();
    match list_contents(list_args) {
        Ok(lines) => panic!("{:?}", lines),
        Err(failure) => assert!(!failure.detail.is_empty()),
    }
}

#[test]
fn listing_shows_nothing_without_switches() {
    let lines = listing_lines(&setup_list_args(), &sample_listing());
    assert_eq!(lines.len(), 0);
}

#[test]
fn listing_shows_everything_in_order() {
    let mut list_args = setup_list_args();
    list_args.last_modified = true;
    list_args.encryption = true;
    list_args.archives = true;
    let lines = listing_lines(&list_args, &sample_listing());
    assert_eq!(
        shown(&lines),
        vec![
            (LogLevel::Info, "Last modified: 2024-01-02 03:04:05"),
            (LogLevel::Info, "Encryption mode: KeyfileBlake2"),
            (LogLevel::Info, "Path of keyfile: /home/me/.config/borg/keys/repo"),
            (LogLevel::Info, "\nArchives:"),
            (LogLevel::Info, "ID: ab12, Name: first, Start: 2024-01-01 00:00:00"),
            (LogLevel::Info, "ID: cd34, Name: second, Start: 2024-01-02 00:00:00"),
        ]
    );
}

#[test]
fn listing_without_encryption_says_so() {
    let mut list_args = setup_list_args();
    list_args.encryption = true;
    let mut listing = sample_listing();
    listing.encryption = None;
    let lines = listing_lines(&list_args, &listing);
    assert_eq!(shown(&lines), vec![(LogLevel::Info, "Repository includes no encryption!")]);
}

#[test]
fn listing_without_keyfile_shows_mode_only() {
    let mut list_args = setup_list_args();
    list_args.encryption = true;
    let mut listing = sample_listing();
    listing.encryption = Some(EncryptionInfo { mode: "Repokey".to_owned(), keyfile: None });
    let lines = listing_lines(&list_args, &listing);
    assert_eq!(shown(&lines), vec![(LogLevel::Info, "Encryption mode: Repokey")]);
}

#[test]
fn listing_without_archives_warns() {
    let mut list_args = setup_list_args();
    list_args.archives = true;
    let mut listing = sample_listing();
    listing.archives = Vec::new();
    let lines = listing_lines(&list_args, &listing);
    assert_eq!(
        shown(&lines),
        vec![(LogLevel::Info, "\nArchives:"), (LogLevel::Warn, "Repository has no archives")]
    );
}

#[test]
fn default_list_args_are_empty() {
    let list_args = ListArgs::default();
    assert_eq!(list_args.repository, "");
    assert_eq!(list_args.passphrase, "");
    assert!(!list_args.last_modified);
    assert!(!list_args.encryption);
    assert!(!list_args.archives);
}
