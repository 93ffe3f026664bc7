use heart_core::text::str_contains;

#[test]
fn finds_a_needle_in_the_middle() {
    assert!(str_contains("device was removed during discovery", "removed"));
}

#[test]
fn finds_a_needle_at_the_edges() {
    assert!(str_contains("not found", "not found"));
    assert!(str_contains("not found: device", "not found"));
    assert!(str_contains("error: not found", "not found"));
}

#[test]
fn rejects_an_absent_needle() {
    assert!(!str_contains("connection reset", "not found"));
    assert!(!str_contains("not", "not found"));
    assert!(!str_contains("", "a"));
}

#[test]
fn empty_needle_always_occurs() {
    assert!(str_contains("", ""));
    assert!(str_contains("anything", ""));
}

#[test]
fn needle_must_be_contiguous() {
    assert!(!str_contains("not x found", "not found"));
}
