use runomicon::error::{Error, NumericField};
use runomicon::league::Lockfile;
use runomicon::text::{parse_usize, split_fields, usize_to_decimal};

fn parsed(text: &str) -> Lockfile {
    match Lockfile::parse(text) {
        Ok(l) => l,
        Err(e) => panic!("unexpected error {:?}", e),
    }
}

#[test]
fn reads_example_lockfile() {
    let l = parsed("LeagueClientUx:1234:61234:abc123:https");
    assert_eq!(l.process, "LeagueClientUx");
    assert_eq!(l.pid, 1234);
    assert_eq!(l.port, 61234);
    assert_eq!(l.password, "abc123");
    assert_eq!(l.protocol, "https");
}

#[test]
fn extra_fields_are_ignored() {
    let l = parsed("proc:1:2:pw:https:extra:more");
    assert_eq!(l.process, "proc");
    assert_eq!(l.pid, 1);
    assert_eq!(l.port, 2);
    assert_eq!(l.password, "pw");
    assert_eq!(l.protocol, "https");
}

#[test]
fn fields_are_not_trimmed() {
    let l = parsed(" proc :7:8: pw :https\n");
    assert_eq!(l.process, " proc ");
    assert_eq!(l.password, " pw ");
    assert_eq!(l.protocol, "https\n");
}

#[test]
fn empty_text_fields_may_be_empty() {
    let l = parsed(":0:0::");
    assert_eq!(l.process, "");
    assert_eq!(l.pid, 0);
    assert_eq!(l.port, 0);
    assert_eq!(l.password, "");
    assert_eq!(l.protocol, "");
}

#[test]
fn too_few_fields_is_malformed() {
    for text in ["", "a", "a:1", "a:1:2", "LeagueClientUx:1234:61234:abc123"] {
        assert!(matches!(Lockfile::parse(text), Err(Error::MalformedDescriptor)), "{}", text);
    }
}

#[test]
fn non_numeric_pid_is_named() {
    let r = Lockfile::parse("LeagueClientUx:abc:61234:pw:https");
    assert!(matches!(r, Err(Error::NumericFieldInvalid(NumericField::ProcessId))));
}

#[test]
fn non_numeric_port_is_named() {
    let r = Lockfile::parse("LeagueClientUx:1234:port:pw:https");
    assert!(matches!(r, Err(Error::NumericFieldInvalid(NumericField::Port))));
}

#[test]
fn pid_is_checked_before_port() {
    let r = Lockfile::parse("LeagueClientUx:x:y:pw:https");
    assert!(matches!(r, Err(Error::NumericFieldInvalid(NumericField::ProcessId))));
}

#[test]
fn negative_and_empty_numbers_are_refused() {
    assert!(matches!(
        Lockfile::parse("p:-1:2:pw:https"),
        Err(Error::NumericFieldInvalid(NumericField::ProcessId))
    ));
    assert!(matches!(
        Lockfile::parse("p:1::pw:https"),
        Err(Error::NumericFieldInvalid(NumericField::Port))
    ));
}

#[test]
fn largest_usize_reads_and_one_more_does_not() {
    let max = usize::MAX.to_string();
    assert_eq!(parse_usize(&max), Some(usize::MAX));
    let text = format!("p:1:{}:pw:https", max);
    assert_eq!(parsed(&text).port, usize::MAX);
    let over = format!("{}0", max);
    assert_eq!(parse_usize(&over), None);
    let text = format!("p:1:{}:pw:https", over);
    assert!(matches!(
        Lockfile::parse(&text),
        Err(Error::NumericFieldInvalid(NumericField::Port))
    ));
}

#[test]
fn decimal_reading() {
    assert_eq!(parse_usize("0"), Some(0));
    assert_eq!(parse_usize("007"), Some(7));
    assert_eq!(parse_usize("61234"), Some(61234));
    assert_eq!(parse_usize(""), None);
    assert_eq!(parse_usize("12a"), None);
    assert_eq!(parse_usize("+5"), Some(5));
    assert_eq!(parse_usize("+007"), Some(7));
    assert_eq!(parse_usize("+"), None);
    assert_eq!(parse_usize("++5"), None);
    assert_eq!(parse_usize("-5"), None);
    assert_eq!(parse_usize("5+"), None);
}

#[test]
fn leading_plus_is_accepted_in_numbers() {
    let l = parsed("a:+1:+61234:pw:https");
    assert_eq!(l.pid, 1);
    assert_eq!(l.port, 61234);
    assert!(matches!(
        Lockfile::parse("a:+1:x:pw:https"),
        Err(Error::NumericFieldInvalid(NumericField::Port))
    ));
    assert!(matches!(
        Lockfile::parse("a:+:2:pw:https"),
        Err(Error::NumericFieldInvalid(NumericField::ProcessId))
    ));
}

#[test]
fn decimal_writing() {
    assert_eq!(usize_to_decimal(0), "0");
    assert_eq!(usize_to_decimal(9), "9");
    assert_eq!(usize_to_decimal(10), "10");
    assert_eq!(usize_to_decimal(61234), "61234");
    assert_eq!(usize_to_decimal(usize::MAX), usize::MAX.to_string());
}

#[test]
fn splitting_keeps_empty_pieces() {
    assert_eq!(split_fields("", ':'), vec![String::new()]);
    assert_eq!(split_fields("a::b:", ':'), vec!["a", "", "b", ""]);
    assert_eq!(split_fields("a,b", ':'), vec!["a,b"]);
    assert_eq!(split_fields("é:ü", ':'), vec!["é", "ü"]);
}

#[test]
fn joined_fields_read_back() {
    let fields = ["LeagueClientUx", "42", "8080", "pass word", "https", "tail"];
    let text = fields.join(":");
    assert_eq!(split_fields(&text, ':'), fields.to_vec());
    let l = parsed(&text);
    assert_eq!(l.process, fields[0]);
    assert_eq!(l.pid, 42);
    assert_eq!(l.port, 8080);
    assert_eq!(l.password, fields[3]);
    assert_eq!(l.protocol, fields[4]);
}
