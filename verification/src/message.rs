//! What goes into the controller and what comes out of it: control messages
//! from the front end, notifications back to it, and the errors of playback.

use vstd::prelude::*;
use vstd::string::StringExecFns;
use crate::track::TrackRef;

verus! {

/// Why a track could not be loaded into the sink or added to it. None of
/// these ends the controller.
#[derive(Clone, Copy, Debug, PartialEq, Eq, Structural)]
pub enum PlaybackError {
    /// The file of the track is missing or cannot be read.
    NotFound,
    /// The file does not hold audio that can be decoded.
    BadFormat,
    /// No sink could be made on the output device.
    DeviceBusy,
}

impl PlaybackError {
    /// The cause in words.
    pub open spec fn cause(self) -> Seq<char> {
        match self {
            PlaybackError::NotFound => "file not found"@,
            PlaybackError::BadFormat => "unsupported or malformed audio data"@,
            PlaybackError::DeviceBusy => "audio output is busy"@,
        }
    }

    /// The text that tells the user that `track` failed for this cause: the
    /// cause, a colon and a space, and the path of the track.
    pub open spec fn failure_text(self, track: Seq<char>) -> Seq<char> {
        self.cause() + ": "@ + track
    }

    /// Writes the text that tells the user that `track` failed for this cause.
    pub fn describe(&self, track: &TrackRef) -> (text: String)
        ensures
            text@ == self.failure_text(track@),
    {
        let cause = match self {
            PlaybackError::NotFound => "file not found",
            PlaybackError::BadFormat => "unsupported or malformed audio data",
            PlaybackError::DeviceBusy => "audio output is busy",
        };
        let mut text = String::from_str(cause);
        text.append(": ");
        text.append(track.path());
        text
    }
}

/// No audio output device could be opened. Without one no controller is
/// started.
#[derive(Clone, Copy, Debug, PartialEq, Eq, Structural)]
pub enum DeviceError {
    /// The machine offers no output device, or the device could not be set up.
    Unavailable,
}

impl DeviceError {
    /// The text that tells the user of this error.
    pub open spec fn text(self) -> Seq<char> {
        "no audio output device is available"@
    }

    /// Writes the text that tells the user of this error.
    pub fn describe(&self) -> (text: String)
        ensures
            text@ == self.text(),
    {
        String::from_str("no audio output device is available")
    }
}

/// The mathematical value of a [`ControlMessage`].
pub enum MessageView {
    Play(Seq<char>),
    Queue(Seq<char>),
    Stop,
    Pause,
    Resume,
    Next,
    Previous,
}

/// A command of the front end to the controller.
#[derive(Debug, PartialEq, Eq)]
pub enum ControlMessage {
    /// Drop the queue and play this track.
    Play(TrackRef),
    /// Add this track at the end of the queue.
    Queue(TrackRef),
    /// Halt output and release the sink.
    Stop,
    /// Suspend output.
    Pause,
    /// Take output up again.
    Resume,
    /// Play the track after the current one.
    Next,
    /// Play the track before the current one.
    Previous,
}

impl View for ControlMessage {
    type V = MessageView;

    open spec fn view(&self) -> MessageView {
        match self {
            ControlMessage::Play(track) => MessageView::Play(track@),
            ControlMessage::Queue(track) => MessageView::Queue(track@),
            ControlMessage::Stop => MessageView::Stop,
            ControlMessage::Pause => MessageView::Pause,
            ControlMessage::Resume => MessageView::Resume,
            ControlMessage::Next => MessageView::Next,
            ControlMessage::Previous => MessageView::Previous,
        }
    }
}

/// The mathematical value of a [`NotificationMessage`].
pub enum NotificationView {
    Finished,
    Error(Seq<char>),
}

/// What the controller tells the front end.
#[derive(Debug, PartialEq, Eq)]
pub enum NotificationMessage {
    /// The sink has played its audio to the end.
    Finished,
    /// An operation failed. The text says which and why.
    Error(String),
}

impl View for NotificationMessage {
    type V = NotificationView;

    open spec fn view(&self) -> NotificationView {
        match self {
            NotificationMessage::Finished => NotificationView::Finished,
            NotificationMessage::Error(text) => NotificationView::Error(text@),
        }
    }
}

/// The views of a sequence of notifications, in the same order.
pub open spec fn notification_views(notes: Seq<NotificationMessage>) -> Seq<NotificationView> {
    notes.map_values(|note: NotificationMessage| note@)
}

} // verus!
