use walkman::sink::SinkSlot;
use walkman::track::TrackRef;

fn track(path: &str) -> TrackRef {
    TrackRef::new(path.to_string())
}

fn loaded(paused: bool, paths: &[&str]) -> SinkSlot {
    SinkSlot::Loaded { paused, tracks: paths.iter().map(|path| track(path)).collect() }
}

#[test]
fn absent_slot_has_no_sink() {
    let slot = SinkSlot::Absent;
    assert!(!slot.is_present());
    assert!(!slot.is_paused());
}

#[test]
fn load_and_play_makes_a_playing_sink() {
    let mut slot = SinkSlot::Absent;
    slot.load_and_play(track("a"));
    assert_eq!(slot, loaded(false, &["a"]));
    assert!(slot.is_present());
    assert!(!slot.is_paused());
}

#[test]
fn load_and_play_replaces_what_the_sink_held() {
    let mut slot = loaded(true, &["a", "b"]);
    slot.load_and_play(track("c"));
    assert_eq!(slot, loaded(false, &["c"]));
}

#[test]
fn append_adds_behind_what_the_sink_holds() {
    let mut slot = loaded(false, &["a"]);
    slot.append(track("b"));
    slot.append(track("c"));
    assert_eq!(slot, loaded(false, &["a", "b", "c"]));
}

#[test]
fn append_keeps_a_paused_sink_paused() {
    let mut slot = loaded(true, &["a"]);
    slot.append(track("b"));
    assert_eq!(slot, loaded(true, &["a", "b"]));
}

#[test]
fn append_without_sink_makes_one() {
    let mut slot = SinkSlot::Absent;
    slot.append(track("a"));
    assert_eq!(slot, loaded(false, &["a"]));
}

#[test]
fn stop_releases_the_sink() {
    let mut slot = loaded(false, &["a"]);
    slot.stop();
    assert_eq!(slot, SinkSlot::Absent);
    slot.stop();
    assert_eq!(slot, SinkSlot::Absent);
}

#[test]
fn pause_and_resume_switch_a_sink() {
    let mut slot = loaded(false, &["a"]);
    slot.pause();
    assert_eq!(slot, loaded(true, &["a"]));
    assert!(slot.is_paused());
    slot.pause();
    assert_eq!(slot, loaded(true, &["a"]));
    slot.resume();
    assert_eq!(slot, loaded(false, &["a"]));
    assert!(!slot.is_paused());
    slot.resume();
    assert_eq!(slot, loaded(false, &["a"]));
}

#[test]
fn pause_and_resume_without_sink_do_nothing() {
    let mut slot = SinkSlot::Absent;
    slot.pause();
    assert_eq!(slot, SinkSlot::Absent);
    slot.resume();
    assert_eq!(slot, SinkSlot::Absent);
}

#[test]
fn drained_needs_a_sink_that_reports_empty() {
    let slot = loaded(false, &["a"]);
    assert!(slot.is_drained(true));
    assert!(!slot.is_drained(false));
    let paused = loaded(true, &["a"]);
    assert!(paused.is_drained(true));
    let absent = SinkSlot::Absent;
    assert!(!absent.is_drained(true));
    assert!(!absent.is_drained(false));
}
