use docfetch::cache::{lookup, Lookup};
use docfetch::error::FetchError;
use docfetch::probe::probe_length;

#[test]
fn advertised_length_is_the_expected_length() {
    assert_eq!(probe_length("http://example.test/x.pdf", Some(500)), Ok(500));
    assert_eq!(probe_length("http://example.test/x.pdf", Some(0)), Ok(0));
    assert_eq!(probe_length("http://example.test/x.pdf", Some(u64::MAX)), Ok(u64::MAX));
}

#[test]
fn response_without_length_is_missing_length() {
    assert_eq!(
        probe_length("http://example.test/x.pdf", None),
        Err(FetchError::MissingLength { url: "http://example.test/x.pdf".to_string() })
    );
}

#[test]
fn equal_lengths_are_a_hit() {
    assert_eq!(lookup(500, 500), Lookup::Hit);
    assert_eq!(lookup(0, 0), Lookup::Hit);
    assert_eq!(lookup(u64::MAX, u64::MAX), Lookup::Hit);
}

#[test]
fn different_lengths_are_a_miss() {
    assert_eq!(lookup(300, 700), Lookup::Miss);
    assert_eq!(lookup(700, 300), Lookup::Miss);
    assert_eq!(lookup(499, 500), Lookup::Miss);
}

#[test]
fn fresh_empty_slot_is_a_miss_for_a_nonempty_document() {
    assert_eq!(lookup(0, 1), Lookup::Miss);
}
