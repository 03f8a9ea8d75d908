use rusty_borg::util::decimal::decimal_string;
use rusty_borg::util::text::{
    clone_optional_string, clone_optional_strings, clone_strings, concat_all, prefixed,
};
use rusty_borg::util::{
    lines_end_process, log_route, push_line, LogLevel, LogLine, LogRoute, VerifyArgs,
    DEFAULT_PORT, ERROR_EXIT_CODE,
};

#[test]
fn decimal_notation_of_small_and_large_numbers() {
    assert_eq!(decimal_string(0), "0");
    assert_eq!(decimal_string(5), "5");
    assert_eq!(decimal_string(10), "10");
    assert_eq!(decimal_string(909), "909");
    assert_eq!(decimal_string(1_000_000), "1000000");
    assert_eq!(decimal_string(u64::MAX), "18446744073709551615");
}

#[test]
fn decimal_notation_agrees_with_std() {
    for n in [1u64, 9, 11, 99, 100, 101, 65_535, 4_294_967_295, 1_700_000_000, u64::MAX - 1] {
        assert_eq!(decimal_string(n), n.to_string());
    }
}

#[test]
fn with_a_sink_every_line_is_logged_at_its_level() {
    assert_eq!(log_route(LogLevel::Info, true), LogRoute::Sink(LogLevel::Info));
    assert_eq!(log_route(LogLevel::Warn, true), LogRoute::Sink(LogLevel::Warn));
    assert_eq!(log_route(LogLevel::Error, true), LogRoute::Sink(LogLevel::Error));
}

#[test]
fn without_a_sink_errors_end_the_process() {
    assert_eq!(ERROR_EXIT_CODE, 1);
    assert_eq!(log_route(LogLevel::Info, false), LogRoute::Console);
    assert_eq!(log_route(LogLevel::Warn, false), LogRoute::Console);
    assert_eq!(log_route(LogLevel::Error, false), LogRoute::Terminate(1));
}

#[test]
fn lines_end_the_process_only_without_sink_and_with_an_error() {
    let mut lines = Vec::new();
    assert!(!lines_end_process(&lines, false));
    push_line(&mut lines, LogLevel::Info, "one".to_owned());
    push_line(&mut lines, LogLevel::Warn, "two".to_owned());
    assert!(!lines_end_process(&lines, false));
    push_line(&mut lines, LogLevel::Error, "three".to_owned());
    assert!(lines_end_process(&lines, false));
    assert!(!lines_end_process(&lines, true));
    assert_eq!(lines.len(), 3);
    assert_eq!(lines[2].message, "three");
    assert_eq!(lines[2].level, LogLevel::Error);
}

#[test]
fn log_line_keeps_level_and_message() {
    let line = LogLine::new(LogLevel::Warn, "careful".to_owned());
    assert_eq!(line.level, LogLevel::Warn);
    assert_eq!(line.message, "careful");
}

#[test]
fn strings_are_joined_without_separator() {
    assert_eq!(concat_all(&vec![]), "");
    assert_eq!(concat_all(&vec!["a".to_owned()]), "a");
    assert_eq!(concat_all(&vec!["ab".to_owned(), "".to_owned(), "cd".to_owned()]), "abcd");
    assert_eq!(prefixed("Took: ", "4.5"), "Took: 4.5");
    assert_eq!(prefixed("", ""), "");
}

#[test]
fn copies_equal_what_was_copied() {
    let items = vec!["x".to_owned(), "yz".to_owned()];
    assert_eq!(clone_strings(&items), items);
    assert_eq!(clone_strings(&Vec::new()), Vec::<String>::new());
    assert_eq!(clone_optional_strings(&Some(items.clone())), Some(items));
    assert_eq!(clone_optional_strings(&None), None);
    assert_eq!(clone_optional_string(&Some("n".to_owned())), Some("n".to_owned()));
    assert_eq!(clone_optional_string(&None), None);
}

#[test]
fn address_is_host_colon_port() {
    let verify_args = VerifyArgs {
        user: "backup".to_owned(),
        host: "example.org".to_owned(),
        port: DEFAULT_PORT,
        key_file: "./keys/id_rsa".to_owned(),
    };
    assert_eq!(verify_args.address(), "example.org:22");
    let high = VerifyArgs { port: u32::MAX, host: "::1".to_owned(), ..verify_args };
    assert_eq!(high.address(), "::1:4294967295");
}
