//! Track identifiers.

use vstd::prelude::*;

verus! {

/// The resolved identifier of one playable audio item, in practice a file path.
///
/// A track is viewed as the characters of its path. It cannot be changed once
/// it has been made.
#[derive(Debug, PartialEq, Eq)]
pub struct TrackRef {
    path: String,
}

impl View for TrackRef {
    type V = Seq<char>;

    closed spec fn view(&self) -> Seq<char> {
        self.path@
    }
}

impl TrackRef {
    /// Makes the track that `path` identifies.
    pub fn new(path: String) -> (track: TrackRef)
        ensures
            track@ == path@,
    {
        TrackRef { path }
    }

    /// The path that identifies the track.
    pub fn path(&self) -> (path: &str)
        ensures
            path@ == self@,
    {
        self.path.as_str()
    }
}

impl Clone for TrackRef {
    fn clone(&self) -> (copy: TrackRef)
        ensures
            copy@ == self@,
    {
        TrackRef { path: self.path.clone() }
    }
}

/// The views of a sequence of tracks, in the same order.
pub open spec fn track_views(tracks: Seq<TrackRef>) -> Seq<Seq<char>> {
    tracks.map_values(|track: TrackRef| track@)
}

} // verus!
