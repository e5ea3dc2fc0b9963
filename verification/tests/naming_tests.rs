use catacombs::naming::Direction;
use catacombs::naming::basic_name;
use catacombs::naming::build_name;
use catacombs::naming::derive_rx_name;
use catacombs::naming::derive_tx_name;
use catacombs::naming::direction;
use catacombs::naming::is_tx;
use catacombs::naming::to_lower;

#[test]
fn derives_endpoint_type_names() {
    assert_eq!(derive_tx_name("Test"), "TestTx");
    assert_eq!(derive_rx_name("Test"), "TestRx");
    assert_eq!(derive_tx_name(""), "Tx");
}

#[test]
fn derives_direction_from_suffix() {
    assert!(matches!(direction("TestTx"), Ok(Direction::Sender)));
    assert!(matches!(direction("BallsRx"), Ok(Direction::Receiver)));
    assert!(matches!(direction("abcTX"), Ok(Direction::Sender)));
    assert!(matches!(direction("abcrx"), Ok(Direction::Receiver)));
}

#[test]
fn rejects_unrecognized_suffixes() {
    let e = direction("Foo").unwrap_err();
    assert_eq!(e.ident, "Foo");
    assert!(direction("X").is_err());
    assert!(direction("").is_err());
}

#[test]
fn naming_round_trip_on_concrete_names() {
    assert!(matches!(direction(&derive_tx_name("Name")), Ok(Direction::Sender)));
    assert!(matches!(direction(&derive_rx_name("Name")), Ok(Direction::Receiver)));
    assert_eq!(basic_name(&derive_tx_name("Name")).unwrap(), "name");
    assert_eq!(basic_name(&derive_rx_name("Name")).unwrap(), "name");
}

#[test]
fn derives_registry_keys_and_accessor_names() {
    assert_eq!(basic_name("TestTx").unwrap(), "test");
    assert_eq!(build_name("TestTx").unwrap(), "test_tx");
    assert_eq!(build_name("BallsRx").unwrap(), "balls_rx");
    assert!(build_name("Balls").is_err());
}

#[test]
fn is_tx_judges_case_insensitively() {
    assert!(is_tx("abcTX"));
    assert!(is_tx("abctx"));
    assert!(!is_tx("abcRx"));
    assert!(!is_tx("q"));
}

#[test]
fn lowercases_ascii_only() {
    assert_eq!(to_lower("FooBar"), "foobar");
    assert_eq!(to_lower("a_b9Z"), "a_b9z");
    assert_eq!(to_lower(""), "");
}
