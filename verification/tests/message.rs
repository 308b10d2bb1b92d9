use walkman::message::DeviceError;
use walkman::message::PlaybackError;
use walkman::track::TrackRef;

fn track(path: &str) -> TrackRef {
    TrackRef::new(path.to_string())
}

#[test]
fn not_found_names_cause_and_track() {
    let text = PlaybackError::NotFound.describe(&track("/music/a.mp3"));
    assert_eq!(text, "file not found: /music/a.mp3");
}

#[test]
fn bad_format_names_cause_and_track() {
    let text = PlaybackError::BadFormat.describe(&track("/music/b.mp3"));
    assert_eq!(text, "unsupported or malformed audio data: /music/b.mp3");
}

#[test]
fn device_busy_names_cause_and_track() {
    let text = PlaybackError::DeviceBusy.describe(&track("c"));
    assert_eq!(text, "audio output is busy: c");
}

#[test]
fn describe_with_empty_path() {
    let text = PlaybackError::NotFound.describe(&track(""));
    assert_eq!(text, "file not found: ");
}

#[test]
fn device_error_text() {
    assert_eq!(DeviceError::Unavailable.describe(), "no audio output device is available");
}
