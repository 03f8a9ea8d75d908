use rusty_borg::borg::create::{
    archive_name, create_archive, display_create_info, epoch_name, generate_pattern_instructions,
    get_epoch_name, new_create_options, print_used_command, CreateArgs,
};
use rusty_borg::borg::engine::{ArchiveResult, Pattern, PatternInstruction};
use rusty_borg::borg::errors::ArchiveError;
use rusty_borg::borg::{BorgTrait, CreateTrait};
use rusty_borg::util::LogLevel;

fn setup_create_args() -> CreateArgs {
    CreateArgs {
        repository: String::from("repository"),
        passphrase: String::from("passphrase"),
        archive: Some(String::from("archive")),
        paths: Vec::new(),
        include_patterns: Some(Vec::new()),
        exclude_patterns: Some(Vec::new()),
    }
}

#[test]
fn create_test_get_repository() {
    let create_args = setup_create_args();
    assert_eq!(create_args.repository(), "repository")
}

#[test]
fn create_test_get_passphrase() {
    let create_args = setup_create_args();
    assert_eq!(create_args.passphrase(), "passphrase")
}

#[test]
fn test_archive_some() {
    let create_args = setup_create_args();
    assert_eq!(create_args.archive(), Some("archive".to_owned()));
}

#[test]
fn test_archive_none() {
    let mut create_args = setup_create_args();
    create_args.archive = None;
    assert_eq!(create_args.archive(), None);
}

#[test]
fn test_paths() {
    let result: Vec<String> = Vec::new();
    assert_eq!(result.len(), 0);

    let create_args = setup_create_args();
    assert_eq!(create_args.paths.len(), 0);

    assert_eq!(create_args.paths(), result);
}

#[test]
fn test_include_patterns_some() {
    let create_args = setup_create_args();
    let result: Option<Vec<String>> = Some(Vec::new());
    assert_eq!(create_args.include_patterns(), result);
}

#[test]
fn test_include_patterns_none() {
    let mut create_args = setup_create_args();
    create_args.include_patterns = None;
    assert_eq!(create_args.include_patterns(), None);
}

#[test]
fn test_exclude_patterns_some() {
    let create_args = setup_create_args();
    let result: Option<Vec<String>> = Some(Vec::new());
    assert_eq!(create_args.exclude_patterns(), result);
}

#[test]
fn test_exclude_patterns_none() {
    let mut create_args = setup_create_args();
    create_args.exclude_patterns = None;
    assert_eq!(create_args.exclude_patterns(), None);
}

#[test]
fn test_new_create_options() {
    let create_options = new_create_options(
        "repository".to_owned(),
        "passphrase".to_owned(),
        Vec::new(),
        "archive".to_owned(),
        Vec::new(),
    );
    assert_eq!(create_options.repository, "repository");
    assert_eq!(create_options.passphrase, Some("passphrase".to_owned()));
    assert_eq!(create_options.paths.len(), 0);
    assert_eq!(create_options.archive, "archive");
    assert_eq!(create_options.patterns.len(), 0);
}

#[test]
fn test_generate_pattern_instructions_some() {
    let included: Option<Vec<String>> = Some(vec!["test_include".to_owned()]);
    let excluded: Option<Vec<String>> = Some(vec!["test_exclude".to_owned()]);

    let result = generate_pattern_instructions(included, excluded);

    assert_eq!(result.len(), 2);
    for p in result.into_iter() {
        match p {
            PatternInstruction::Include(Pattern::Shell(val)) => {
                assert_eq!(val, "test_include")
            }
            PatternInstruction::Exclude(Pattern::Shell(val)) => {
                assert_eq!(val, "test_exclude")
            }
        }
    }
}

#[test]
fn test_generate_pattern_instructions_none() {
    let included: Option<Vec<String>> = None;
    let excluded: Option<Vec<String>> = None;

    let result = generate_pattern_instructions(included, excluded);
    assert_eq!(result.len(), 0)
}

#[test]
fn test_generate_pattern_instructions_mix() {
    let include1: Option<Vec<String>> = Some(vec!["test_include".to_owned()]);
    let exlude1: Option<Vec<String>> = None;
    let result1 = generate_pattern_instructions(include1, exlude1);

    assert_eq!(result1.len(), 1);
    for p in result1.into_iter() {
        match p {
            PatternInstruction::Include(Pattern::Shell(val)) => {
                assert_eq!(val, "test_include");
            }
            _ => assert!(false),
        }
    }

    let include2: Option<Vec<String>> = None;
    let exlude2: Option<Vec<String>> = Some(vec!["test_exclude".to_owned()]);

    let result2 = generate_pattern_instructions(include2, exlude2);
    assert_eq!(result2.len(), 1);
    for p in result2.into_iter() {
        match p {
            PatternInstruction::Exclude(Pattern::Shell(val)) => {
                assert_eq!(val, "test_exclude");
            }
            _ => assert!(false),
        }
    }
}

#[test]
fn pattern_instructions_keep_order_includes_first() {
    let included = Some(vec!["a".to_owned(), "b".to_owned()]);
    let excluded = Some(vec!["c".to_owned(), "d".to_owned(), "e".to_owned()]);
    let rules = generate_pattern_instructions(included, excluded);
    let shown: Vec<String> = rules
        .iter()
        .map(|rule| match rule {
            PatternInstruction::Include(Pattern::Shell(text)) => format!("+{}", text),
            PatternInstruction::Exclude(Pattern::Shell(text)) => format!("-{}", text),
        })
        .collect();
    assert_eq!(shown, vec!["+a", "+b", "-c", "-d", "-e"]);
}

#[test]
fn absent_pattern_lists_equal_empty_lists() {
    let from_absent = generate_pattern_instructions(None, None);
    let from_empty = generate_pattern_instructions(Some(Vec::new()), Some(Vec::new()));
    assert_eq!(from_absent.len(), 0);
    assert_eq!(from_empty.len(), 0);
    let one_sided = generate_pattern_instructions(None, Some(vec!["*.tmp".to_owned()]));
    assert_eq!(one_sided.len(), 1);
    assert!(matches!(&one_sided[0], PatternInstruction::Exclude(Pattern::Shell(text)) if text == "*.tmp"));
}

#[test]
fn epoch_name_is_decimal_seconds() {
    assert_eq!(epoch_name(0), "0");
    assert_eq!(epoch_name(9), "9");
    assert_eq!(epoch_name(10), "10");
    assert_eq!(epoch_name(1_700_000_000), "1700000000");
    assert_eq!(epoch_name(u64::MAX), "18446744073709551615");
}

#[test]
fn epoch_names_of_different_seconds_differ() {
    assert_ne!(epoch_name(1_700_000_000), epoch_name(1_700_000_001));
    assert_ne!(epoch_name(99), epoch_name(100));
    assert_eq!(epoch_name(1_700_000_000), epoch_name(1_700_000_000));
}

#[test]
fn get_epoch_name_is_all_digits() {
    let name = get_epoch_name().expect("the clock of this machine stands after 1970");
    assert!(!name.is_empty());
    assert!(name.chars().all(|c| c.is_ascii_digit()));
    assert!(name.len() == 1 || !name.starts_with('0'));
    let seconds: u64 = name.parse().unwrap();
    assert!(seconds > 1_600_000_000);
}

#[test]
fn archive_name_prefers_configured_name() {
    let named = archive_name(Some("nightly".to_owned()), Some(5)).unwrap();
    assert_eq!(named, "nightly");
    let named_without_clock = archive_name(Some("nightly".to_owned()), None).unwrap();
    assert_eq!(named_without_clock, "nightly");
    let derived = archive_name(None, Some(1_234_567_890)).unwrap();
    assert_eq!(derived, "1234567890");
}

#[test]
fn archive_name_without_name_or_clock_is_clock_error() {
    match archive_name(None, None) {
        Err(ArchiveError::EpochTimeError) => {}
        other => panic!("{:?}", other),
    }
}

#[test]
fn used_command_is_concatenated() {
    let line = print_used_command(vec!["borg".to_owned(), "create".to_owned(), "--json".to_owned()]);
    assert_eq!(line.level, LogLevel::Info);
    assert_eq!(line.message, "Command used: borgcreate--json");
    let empty = print_used_command(Vec::new());
    assert_eq!(empty.message, "Command used: ");
}

#[test]
fn create_info_has_five_lines() {
    let lines = display_create_info(ArchiveResult {
        location: "/srv/repo".to_owned(),
        name: "1700000000".to_owned(),
        start: "2023-11-14 22:13:20".to_owned(),
        end: "2023-11-14 22:13:24".to_owned(),
        duration: "4.5".to_owned(),
        command_line: vec!["borg".to_owned(), " create".to_owned()],
    });
    let shown: Vec<(LogLevel, &str)> =
        lines.iter().map(|line| (line.level, line.message.as_str())).collect();
    assert_eq!(
        shown,
        vec![
            (LogLevel::Info, "Successfully created archive at /srv/repo::1700000000"),
            (LogLevel::Info, "Started at: 2023-11-14 22:13:20"),
            (LogLevel::Info, "Ended at: 2023-11-14 22:13:24"),
            (LogLevel::Info, "Took: 4.5"),
            (LogLevel::Info, "Command used: borg create"),
        ]
    );
}

#[test]
fn create_archive_in_missing_repository_fails_in_engine() {
    let mut create_args = setup_create_args();
    create_args.repository = "/nonexistent-parent-directory/of/a/repository".to_owned();
    create_args.paths = vec!["/nonexistent-path-to-archive".to_owned()];
    match create_archive(&create_args) {
        Err(ArchiveError::ArchiveCreateError(failure)) => {
            assert!(!failure.detail.is_empty());
            assert!(!failure.summary.is_empty());
        }
        other => panic!("{:?}", other),
    }
}
