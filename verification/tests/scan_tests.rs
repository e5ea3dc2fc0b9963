use catacombs::scan::contains_pattern;
use catacombs::scan::has_any_marker;
use catacombs::scan::has_channel_marker;
use catacombs::scan::has_inject_marker;

#[test]
fn finds_the_channel_marker() {
    let text = "use x;\n#[channel(TestTx, BallsRx)]\nstruct C {}\n";
    assert!(has_channel_marker(text));
    assert!(!has_inject_marker(text));
    assert!(has_any_marker(text));
}

#[test]
fn finds_the_inject_marker() {
    let text = "impl C {\n    #[inject]\n    fn new() -> Self { Self {} }\n}\n";
    assert!(has_inject_marker(text));
    assert!(!has_channel_marker(text));
    assert!(has_any_marker(text));
}

#[test]
fn fragments_without_markers_are_skipped() {
    assert!(!has_any_marker("fn main() {}\n"));
    assert!(!has_any_marker(""));
    // A near miss is not a marker.
    assert!(!has_any_marker("#[channe(TestTx)]"));
    assert!(!has_any_marker("#[injectx"));
}

#[test]
fn substring_search_handles_edges() {
    assert!(contains_pattern("abc", ""));
    assert!(contains_pattern("", ""));
    assert!(!contains_pattern("", "a"));
    assert!(contains_pattern("abc", "abc"));
    assert!(contains_pattern("aabc", "abc"));
    assert!(!contains_pattern("ab", "abc"));
    assert!(contains_pattern("xxabyabc", "abc"));
}
