use catacombs::ChannelType;
use catacombs::dsl::GrammarErrorKind;
use catacombs::dsl::parse_channels;

#[test]
fn parses_two_records_in_order() {
    let specs = parse_channels("Test, mpsc, 10;\nBalls, mpmc, 10;").unwrap();
    assert_eq!(specs.len(), 2);
    assert_eq!(specs[0].name, "Test");
    assert!(matches!(specs[0].channel_type, ChannelType::Mpsc));
    assert_eq!(specs[0].capacity, 10);
    assert_eq!(specs[1].name, "Balls");
    assert!(matches!(specs[1].channel_type, ChannelType::Mpmc));
    assert_eq!(specs[1].capacity, 10);
}

#[test]
fn parses_tags_case_insensitively() {
    let specs = parse_channels("A, MPSC, 1; B, MpMc, 2;").unwrap();
    assert!(matches!(specs[0].channel_type, ChannelType::Mpsc));
    assert!(matches!(specs[1].channel_type, ChannelType::Mpmc));
}

#[test]
fn tolerates_arbitrary_whitespace() {
    let specs = parse_channels("  One ,\tmpsc , 3 ;\n\n Two,mpmc,4;").unwrap();
    assert_eq!(specs.len(), 2);
    assert_eq!(specs[0].name, "One");
    assert_eq!(specs[0].capacity, 3);
    assert_eq!(specs[1].name, "Two");
    assert_eq!(specs[1].capacity, 4);
}

#[test]
fn empty_text_yields_no_records() {
    assert!(parse_channels("").unwrap().is_empty());
    assert!(parse_channels("  \n\t ").unwrap().is_empty());
}

#[test]
fn underscore_names_are_identifiers() {
    let specs = parse_channels("_x, mpsc, 1;").unwrap();
    assert_eq!(specs[0].name, "_x");
}

#[test]
fn missing_commas_name_the_first_missing_separator() {
    let e = parse_channels("Test mpsc 10").unwrap_err();
    assert!(matches!(e.kind, GrammarErrorKind::ExpectedComma));
    assert_eq!(e.at, 5);
}

#[test]
fn missing_semicolon_is_reported_at_text_end() {
    let e = parse_channels("Test, mpsc, 10").unwrap_err();
    assert!(matches!(e.kind, GrammarErrorKind::ExpectedSemicolon));
    assert_eq!(e.at, 14);
}

#[test]
fn unknown_tag_is_reported_at_tag_start() {
    let e = parse_channels("Test, foo, 10;").unwrap_err();
    assert!(matches!(e.kind, GrammarErrorKind::UnknownChannelType));
    assert_eq!(e.at, 6);
}

#[test]
fn missing_name_is_reported() {
    let e = parse_channels(", mpsc, 1;").unwrap_err();
    assert!(matches!(e.kind, GrammarErrorKind::ExpectedName));
    assert_eq!(e.at, 0);
}

#[test]
fn non_identifier_tag_is_reported() {
    let e = parse_channels("Test, 5, 1;").unwrap_err();
    assert!(matches!(e.kind, GrammarErrorKind::ExpectedChannelType));
    assert_eq!(e.at, 6);
}

#[test]
fn non_integer_capacity_is_reported() {
    let e = parse_channels("Test, mpsc, x;").unwrap_err();
    assert!(matches!(e.kind, GrammarErrorKind::ExpectedCapacity));
    assert_eq!(e.at, 12);
}

#[test]
fn zero_capacity_is_invalid() {
    let e = parse_channels("Test, mpsc, 0;").unwrap_err();
    assert!(matches!(e.kind, GrammarErrorKind::InvalidCapacity));
    assert_eq!(e.at, 12);
}

#[test]
fn oversized_capacity_is_invalid() {
    let e = parse_channels("Test, mpsc, 99999999999999999999999999999;").unwrap_err();
    assert!(matches!(e.kind, GrammarErrorKind::InvalidCapacity));
}

#[test]
fn an_error_in_a_later_record_fails_the_whole_parse() {
    let e = parse_channels("Good, mpsc, 1; Bad, mpsc 2;").unwrap_err();
    assert!(matches!(e.kind, GrammarErrorKind::ExpectedComma));
}

#[test]
fn channel_type_from_str_accepts_both_tags() {
    assert!(matches!(ChannelType::from_str("mpsc"), Ok(ChannelType::Mpsc)));
    assert!(matches!(ChannelType::from_str("MPMC"), Ok(ChannelType::Mpmc)));
}

#[test]
fn channel_type_from_str_reports_unknown_tags() {
    let e = ChannelType::from_str("rendezvous").unwrap_err();
    assert_eq!(e, "Unknown channel type: rendezvous");
}
