use walkman::queue::TrackQueue;
use walkman::track::TrackRef;

fn track(path: &str) -> TrackRef {
    TrackRef::new(path.to_string())
}

fn queue_of(paths: &[&str]) -> TrackQueue {
    let mut queue = TrackQueue::new();
    for path in paths {
        queue.push(track(path));
    }
    queue
}

#[test]
fn new_queue_is_empty() {
    let queue = TrackQueue::new();
    assert!(queue.is_empty());
    assert_eq!(queue.len(), 0);
    assert_eq!(queue.position(), 0);
    assert_eq!(queue.current(), None);
    assert_eq!(queue.upcoming(), None);
    assert_eq!(queue.preceding(), None);
    assert_eq!(queue.get(0), None);
}

#[test]
fn track_keeps_its_path() {
    let t = track("/music/a.mp3");
    assert_eq!(t.path(), "/music/a.mp3");
    assert_eq!(t.clone(), t);
    assert_ne!(t, track("/music/b.mp3"));
}

#[test]
fn push_appends_in_order() {
    let queue = queue_of(&["a", "b", "c"]);
    assert_eq!(queue.len(), 3);
    assert!(!queue.is_empty());
    assert_eq!(queue.get(0), Some(&track("a")));
    assert_eq!(queue.get(1), Some(&track("b")));
    assert_eq!(queue.get(2), Some(&track("c")));
    assert_eq!(queue.get(3), None);
}

#[test]
fn first_push_makes_the_track_current() {
    let mut queue = TrackQueue::new();
    queue.push(track("a"));
    assert_eq!(queue.position(), 0);
    assert_eq!(queue.current(), Some(&track("a")));
}

#[test]
fn push_keeps_the_current_track() {
    let mut queue = queue_of(&["a", "b"]);
    queue.advance();
    assert_eq!(queue.current(), Some(&track("b")));
    queue.push(track("c"));
    assert_eq!(queue.position(), 1);
    assert_eq!(queue.current(), Some(&track("b")));
    assert_eq!(queue.len(), 3);
}

#[test]
fn advance_moves_on_by_one() {
    let mut queue = queue_of(&["a", "b", "c"]);
    queue.advance();
    assert_eq!(queue.position(), 1);
    queue.advance();
    assert_eq!(queue.position(), 2);
    assert_eq!(queue.current(), Some(&track("c")));
}

#[test]
fn advance_wraps_from_last_to_first() {
    let mut queue = queue_of(&["a", "b", "c"]);
    queue.advance();
    queue.advance();
    assert_eq!(queue.position(), 2);
    queue.advance();
    assert_eq!(queue.position(), 0);
    assert_eq!(queue.current(), Some(&track("a")));
}

#[test]
fn retreat_wraps_from_first_to_last() {
    let mut queue = queue_of(&["a", "b", "c"]);
    assert_eq!(queue.position(), 0);
    queue.retreat();
    assert_eq!(queue.position(), 2);
    assert_eq!(queue.current(), Some(&track("c")));
    queue.retreat();
    assert_eq!(queue.position(), 1);
}

#[test]
fn advance_and_retreat_on_one_track_stay() {
    let mut queue = queue_of(&["a"]);
    queue.advance();
    assert_eq!(queue.position(), 0);
    queue.retreat();
    assert_eq!(queue.position(), 0);
    assert_eq!(queue.current(), Some(&track("a")));
}

#[test]
fn advance_and_retreat_on_empty_queue_do_nothing() {
    let mut queue = TrackQueue::new();
    queue.advance();
    assert_eq!(queue.position(), 0);
    assert!(queue.is_empty());
    queue.retreat();
    assert_eq!(queue.position(), 0);
    assert!(queue.is_empty());
    assert_eq!(queue.current(), None);
}

#[test]
fn advance_then_retreat_returns_from_every_position() {
    for start in 0..4 {
        let mut queue = queue_of(&["a", "b", "c", "d"]);
        for _ in 0..start {
            queue.advance();
        }
        assert_eq!(queue.position(), start);
        queue.advance();
        queue.retreat();
        assert_eq!(queue.position(), start);
        queue.retreat();
        queue.advance();
        assert_eq!(queue.position(), start);
    }
}

#[test]
fn position_follows_the_modulo_formula() {
    let mut queue = queue_of(&["a", "b", "c", "d", "e"]);
    for step in 1..=12usize {
        queue.advance();
        assert_eq!(queue.position(), step % 5);
    }
    for step in 1..=12usize {
        queue.retreat();
        assert_eq!(queue.position(), (12 + 60 - step) % 5);
    }
}

#[test]
fn upcoming_and_preceding_look_without_moving() {
    let mut queue = queue_of(&["a", "b", "c"]);
    assert_eq!(queue.upcoming(), Some(&track("b")));
    assert_eq!(queue.preceding(), Some(&track("c")));
    assert_eq!(queue.position(), 0);
    queue.advance();
    queue.advance();
    assert_eq!(queue.upcoming(), Some(&track("a")));
    assert_eq!(queue.preceding(), Some(&track("b")));
    assert_eq!(queue.position(), 2);
}

#[test]
fn clear_empties_and_resets_the_cursor() {
    let mut queue = queue_of(&["a", "b", "c"]);
    queue.advance();
    queue.advance();
    queue.clear();
    assert!(queue.is_empty());
    assert_eq!(queue.position(), 0);
    assert_eq!(queue.current(), None);
    queue.push(track("z"));
    assert_eq!(queue.current(), Some(&track("z")));
}
