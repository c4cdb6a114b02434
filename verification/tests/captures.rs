use renderdoc::captures::{remaining_len, Capture, Captures};
use renderdoc::version::V100;

fn capture(name: &str, timestamp: u64) -> Capture {
    Capture {
        path: name.to_string(),
        timestamp,
    }
}

fn three() -> Captures<V100> {
    Captures::new(vec![
        capture("a.rdc", 10),
        capture("b.rdc", 20),
        capture("c.rdc", 30),
    ])
}

#[test]
fn calculates_remaining_len_correctly() {
    assert_eq!(remaining_len(0, 0), 0);
    assert_eq!(remaining_len(5, 1), 4);
}

#[test]
fn remaining_len_does_not_panic() {
    assert_eq!(remaining_len(0, 100), 0);
}

#[test]
fn remaining_len_at_the_limits() {
    assert_eq!(remaining_len(usize::MAX, 0), usize::MAX);
    assert_eq!(remaining_len(0, usize::MAX), 0);
    assert_eq!(remaining_len(7, 7), 0);
    assert_eq!(remaining_len(7, 8), 0);
    assert_eq!(remaining_len(8, 7), 1);
}

#[test]
fn get_finds_captures_by_index() {
    let captures = three();
    assert_eq!(captures.len(), 3);
    let first = captures.get(0).unwrap();
    assert_eq!(first.path, "a.rdc");
    assert_eq!(first.timestamp, 10);
    let last = captures.get(2).unwrap();
    assert_eq!(last.path, "c.rdc");
    assert_eq!(last.timestamp, 30);
    assert!(captures.get(3).is_none());
    assert!(captures.get(usize::MAX).is_none());
}

#[test]
fn get_on_an_empty_list_finds_nothing() {
    let captures: Captures<V100> = Captures::new(Vec::new());
    assert_eq!(captures.len(), 0);
    assert!(captures.get(0).is_none());
    assert!(captures.iter().next().is_none());
    assert!(captures.iter().last().is_none());
    assert_eq!(captures.iter().count(), 0);
}

#[test]
fn iter_walks_in_order_and_stops() {
    let captures = three();
    let mut walk = captures.iter();
    assert_eq!(walk.size_hint(), (3, None));
    assert_eq!(walk.next().unwrap().path, "a.rdc");
    assert_eq!(walk.size_hint(), (2, None));
    assert_eq!(walk.next().unwrap().path, "b.rdc");
    assert_eq!(walk.next().unwrap().path, "c.rdc");
    assert_eq!(walk.size_hint(), (0, None));
    assert!(walk.next().is_none());
    assert!(walk.next().is_none());
    assert_eq!(walk.count(), 0);
}

#[test]
fn count_is_what_is_left() {
    let captures = three();
    let mut walk = captures.iter();
    assert_eq!(captures.iter().count(), 3);
    walk.next();
    assert_eq!(walk.count(), 2);
}

#[test]
fn last_is_the_last_of_the_list() {
    let captures = three();
    assert_eq!(captures.iter().last().unwrap().path, "c.rdc");
    let mut walk = captures.iter();
    walk.next();
    walk.next();
    walk.next();
    assert_eq!(walk.last().unwrap().timestamp, 30);
}

#[test]
fn nth_skips_and_moves_on() {
    let captures = three();
    let mut walk = captures.iter();
    assert!(walk.can_skip(1));
    assert_eq!(walk.nth(1).unwrap().path, "b.rdc");
    assert_eq!(walk.next().unwrap().path, "c.rdc");
    let mut walk = captures.iter();
    assert_eq!(walk.nth(0).unwrap().path, "a.rdc");
    assert!(walk.nth(5).is_none());
    assert!(walk.next().is_none());
    assert!(walk.can_skip(usize::MAX - 6));
    assert!(!walk.can_skip(usize::MAX - 5));
}

#[test]
fn capture_clone_is_equal_in_both_fields() {
    let source = capture("frame.rdc", 1_700_000_000);
    let copy = source.clone();
    assert_eq!(copy.path, source.path);
    assert_eq!(copy.timestamp, source.timestamp);
}

#[test]
fn into_iter_walks_a_list_of_its_own() {
    let mut walk = three().into_iter();
    assert_eq!(walk.size_hint(), (3, None));
    assert_eq!(walk.next().unwrap().path, "a.rdc");
    assert_eq!(walk.nth(1).unwrap().path, "c.rdc");
    assert!(walk.next().is_none());
    assert_eq!(three().into_iter().last().unwrap().timestamp, 30);
    assert_eq!(three().into_iter().count(), 3);
}
