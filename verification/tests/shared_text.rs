use first_class::shared_text::SharedText;
use std::sync::Arc;

#[test]
fn fresh_cell_has_one_handle() {
    let cell = SharedText::new(String::from("Hello, world"));
    assert_eq!(cell.live_handles(), 1);
    assert_eq!(cell.read(), "Hello, world");
}

#[test]
fn two_handles_after_one_clone() {
    let mut cell = SharedText::new(String::from("Hello, world"));
    cell.clone_handle();
    assert_eq!(cell.live_handles(), 2);
}

#[test]
fn reads_agree_in_any_order() {
    let mut cell = SharedText::new(String::from("Hello, world"));
    cell.clone_handle();
    let first = cell.read().clone();
    let second = cell.read().clone();
    assert_eq!(first, "Hello, world");
    assert_eq!(second, "Hello, world");
    assert_eq!(first, second);
}

#[test]
fn value_destroyed_only_at_last_drop() {
    let mut cell = SharedText::new(String::from("Hello, world"));
    cell.clone_handle();
    assert!(!cell.drop_handle());
    assert_eq!(cell.read(), "Hello, world");
    assert!(cell.drop_handle());
    assert_eq!(cell.live_handles(), 0);
}

#[test]
fn arc_count_matches_the_model() {
    let s = Arc::new("Hello, world");
    let s1 = s.clone();
    assert_eq!(Arc::strong_count(&s), 2);
    assert_eq!(format!("{:?}", s), format!("{:?}", s1));
    drop(s);
    assert_eq!(Arc::strong_count(&s1), 1);
}
