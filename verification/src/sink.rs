//! The sink slot: what the controller knows of the one audio sink.
//!
//! The audio engine holds at most one sink, which is playing or paused and
//! which has been handed the audio of some tracks. The slot records just that.
//! It is a model: the sink itself lives with the program around this library,
//! which carries out the operations that the controller plans.

use vstd::prelude::*;
use crate::track::TrackRef;
use crate::track::track_views;

verus! {

/// The mathematical value of a [`SinkSlot`].
pub enum SinkView {
    /// No sink exists.
    Absent,
    /// A sink exists.
    Loaded {
        /// Whether output is suspended.
        paused: bool,
        /// The tracks whose audio the sink was handed, in the order of output.
        tracks: Seq<Seq<char>>,
    },
}

impl SinkView {
    /// Whether a sink exists.
    pub open spec fn present(self) -> bool {
        self is Loaded
    }

    /// The slot after `track` was loaded: a playing sink that holds `track`
    /// alone, whatever was there before.
    pub open spec fn loaded(track: Seq<char>) -> SinkView {
        SinkView::Loaded { paused: false, tracks: seq![track] }
    }

    /// The slot after the audio of `track` was added behind what the sink
    /// holds. Where there was no sink, a playing one is made first.
    pub open spec fn appended(self, track: Seq<char>) -> SinkView {
        match self {
            SinkView::Absent => SinkView::loaded(track),
            SinkView::Loaded { paused, tracks } => SinkView::Loaded {
                paused,
                tracks: tracks.push(track),
            },
        }
    }

    /// The slot after a request to pause: a sink, if there is one, is paused.
    pub open spec fn paused(self) -> SinkView {
        match self {
            SinkView::Absent => SinkView::Absent,
            SinkView::Loaded { paused, tracks } => SinkView::Loaded { paused: true, tracks },
        }
    }

    /// The slot after a request to resume: a sink, if there is one, plays.
    pub open spec fn resumed(self) -> SinkView {
        match self {
            SinkView::Absent => SinkView::Absent,
            SinkView::Loaded { paused, tracks } => SinkView::Loaded { paused: false, tracks },
        }
    }

    /// Whether the sink has come to the end of its audio, given what the
    /// engine says of it. A slot without a sink has nothing to drain.
    pub open spec fn drained(self, reports_empty: bool) -> bool {
        self.present() && reports_empty
    }
}

/// What the controller knows of the one audio sink.
#[derive(Debug, PartialEq, Eq)]
pub enum SinkSlot {
    /// No sink exists.
    Absent,
    /// A sink exists.
    Loaded {
        /// Whether output is suspended.
        paused: bool,
        /// The tracks whose audio the sink was handed, in the order of output.
        tracks: Vec<TrackRef>,
    },
}

impl View for SinkSlot {
    type V = SinkView;

    open spec fn view(&self) -> SinkView {
        match self {
            SinkSlot::Absent => SinkView::Absent,
            SinkSlot::Loaded { paused, tracks } => SinkView::Loaded {
                paused: *paused,
                tracks: track_views(tracks@),
            },
        }
    }
}

impl SinkSlot {
    /// Whether a sink exists.
    pub fn is_present(&self) -> (present: bool)
        ensures
            present == self@.present(),
    {
        match self {
            SinkSlot::Absent => false,
            SinkSlot::Loaded { .. } => true,
        }
    }

    /// Whether a sink exists and is paused.
    pub fn is_paused(&self) -> (paused: bool)
        ensures
            paused == (self@ matches SinkView::Loaded { paused: p, .. } && p),
    {
        match self {
            SinkSlot::Absent => false,
            SinkSlot::Loaded { paused, .. } => *paused,
        }
    }

    /// Whether the sink has come to the end of its audio, where `reports_empty`
    /// is what the engine says of it. Without a sink the answer is no.
    pub fn is_drained(&self, reports_empty: bool) -> (drained: bool)
        ensures
            drained == self@.drained(reports_empty),
    {
        self.is_present() && reports_empty
    }

    /// Records that `track` was loaded: the slot holds a playing sink with
    /// `track` alone, whatever it held before.
    pub fn load_and_play(&mut self, track: TrackRef)
        ensures
            final(self)@ == SinkView::loaded(track@),
    {
        let mut tracks: Vec<TrackRef> = Vec::new();
        tracks.push(track);
        assert(track_views(tracks@) =~= seq![track@]);
        *self = SinkSlot::Loaded { paused: false, tracks };
    }

    /// Records that the audio of `track` was added behind what the sink holds.
    /// Where there was no sink, a playing one is made first.
    pub fn append(&mut self, track: TrackRef)
        ensures
            final(self)@ == old(self)@.appended(track@),
    {
        match self {
            SinkSlot::Absent => {
                self.load_and_play(track);
            },
            SinkSlot::Loaded { tracks, .. } => {
                tracks.push(track);
                assert(track_views(tracks@) =~= track_views(old(self)->tracks@).push(track@));
            },
        }
    }

    /// Records that the sink was halted and released. Without a sink nothing
    /// changes.
    pub fn stop(&mut self)
        ensures
            final(self)@ == SinkView::Absent,
    {
        *self = SinkSlot::Absent;
    }

    /// Records a request to pause. Without a sink nothing changes.
    pub fn pause(&mut self)
        ensures
            final(self)@ == old(self)@.paused(),
    {
        match self {
            SinkSlot::Absent => {},
            SinkSlot::Loaded { paused, .. } => {
                *paused = true;
            },
        }
    }

    /// Records a request to resume. Without a sink nothing changes.
    pub fn resume(&mut self)
        ensures
            final(self)@ == old(self)@.resumed(),
    {
        match self {
            SinkSlot::Absent => {},
            SinkSlot::Loaded { paused, .. } => {
                *paused = false;
            },
        }
    }
}

} // verus!
