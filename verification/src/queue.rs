//! The track queue: an ordered list of tracks and a cursor into it.

use vstd::prelude::*;
use crate::track::TrackRef;
use crate::track::track_views;

verus! {

/// The mathematical value of a [`TrackQueue`].
pub struct QueueView {
    /// The tracks, oldest first.
    pub tracks: Seq<Seq<char>>,
    /// The position of the current track. It is 0 while the queue is empty.
    pub current: nat,
}

impl QueueView {
    /// The cursor points into the queue, or is 0 where the queue is empty.
    pub open spec fn valid(self) -> bool {
        if self.tracks.len() == 0 {
            self.current == 0
        } else {
            self.current < self.tracks.len()
        }
    }

    /// The queue without tracks.
    pub open spec fn empty() -> QueueView {
        QueueView { tracks: Seq::empty(), current: 0 }
    }

    /// The queue that holds `track` alone, which is current.
    pub open spec fn single(track: Seq<char>) -> QueueView {
        QueueView { tracks: seq![track], current: 0 }
    }

    /// The queue with `track` added at its end. The cursor stays where it is.
    pub open spec fn pushed(self, track: Seq<char>) -> QueueView {
        QueueView { tracks: self.tracks.push(track), current: self.current }
    }

    /// The track under the cursor.
    pub open spec fn current_track(self) -> Option<Seq<char>> {
        if self.current < self.tracks.len() {
            Some(self.tracks[self.current as int])
        } else {
            None
        }
    }

    /// The queue with the cursor one place on, from the last place back to the
    /// first. An empty queue stays as it is.
    pub open spec fn advanced(self) -> QueueView {
        if self.tracks.len() == 0 {
            self
        } else {
            QueueView {
                tracks: self.tracks,
                current: if self.current + 1 == self.tracks.len() {
                    0
                } else {
                    self.current + 1
                },
            }
        }
    }

    /// The queue with the cursor one place back, from the first place to the
    /// last. An empty queue stays as it is.
    pub open spec fn retreated(self) -> QueueView {
        if self.tracks.len() == 0 {
            self
        } else if self.current == 0 {
            QueueView { tracks: self.tracks, current: (self.tracks.len() - 1) as nat }
        } else {
            QueueView { tracks: self.tracks, current: (self.current - 1) as nat }
        }
    }
}

/// An ordered list of tracks with a cursor on the current one.
#[derive(Debug)]
pub struct TrackQueue {
    tracks: Vec<TrackRef>,
    current: usize,
}

impl View for TrackQueue {
    type V = QueueView;

    closed spec fn view(&self) -> QueueView {
        QueueView { tracks: track_views(self.tracks@), current: self.current as nat }
    }
}

impl TrackQueue {
    /// What holds of every queue: its cursor points at one of its tracks, or
    /// is 0 where it has none.
    #[verifier::type_invariant]
    pub open spec fn in_order(self) -> bool {
        self@.valid()
    }

    /// Makes an empty queue.
    pub fn new() -> (queue: TrackQueue)
        ensures
            queue@ == QueueView::empty(),
    {
        let queue = TrackQueue { tracks: Vec::new(), current: 0 };
        assert(queue@.tracks =~= Seq::<Seq<char>>::empty());
        queue
    }

    /// The number of tracks.
    pub fn len(&self) -> (len: usize)
        ensures
            len == self@.tracks.len(),
    {
        self.tracks.len()
    }

    /// Whether the queue holds no track.
    pub fn is_empty(&self) -> (empty: bool)
        ensures
            empty == (self@.tracks.len() == 0),
    {
        self.tracks.len() == 0
    }

    /// The position of the cursor.
    pub fn position(&self) -> (position: usize)
        ensures
            position == self@.current,
    {
        self.current
    }

    /// The track under the cursor: some track unless the queue is empty.
    pub fn current(&self) -> (track: Option<&TrackRef>)
        ensures
            match track {
                Some(track) => self@.current_track() == Some(track@),
                None => self@.current_track().is_none() && self@.tracks.len() == 0,
            },
    {
        proof {
            use_type_invariant(self);
        }
        if self.current < self.tracks.len() {
            Some(&self.tracks[self.current])
        } else {
            None
        }
    }

    /// The track at `index`, counted from 0: some track where `index` is below
    /// the number of tracks.
    pub fn get(&self, index: usize) -> (track: Option<&TrackRef>)
        ensures
            match track {
                Some(track) => index < self@.tracks.len() && self@.tracks[index as int] == track@,
                None => index >= self@.tracks.len(),
            },
    {
        if index < self.tracks.len() {
            Some(&self.tracks[index])
        } else {
            None
        }
    }

    /// The track that would be current after [`TrackQueue::advance`].
    pub fn upcoming(&self) -> (track: Option<&TrackRef>)
        ensures
            match track {
                Some(track) => self@.advanced().current_track() == Some(track@),
                None => self@.advanced().current_track().is_none() && self@.tracks.len() == 0,
            },
    {
        proof {
            use_type_invariant(self);
        }
        let len = self.tracks.len();
        if len == 0 {
            None
        } else {
            let index = if self.current + 1 == len { 0 } else { self.current + 1 };
            Some(&self.tracks[index])
        }
    }

    /// The track that would be current after [`TrackQueue::retreat`].
    pub fn preceding(&self) -> (track: Option<&TrackRef>)
        ensures
            match track {
                Some(track) => self@.retreated().current_track() == Some(track@),
                None => self@.retreated().current_track().is_none() && self@.tracks.len() == 0,
            },
    {
        proof {
            use_type_invariant(self);
        }
        let len = self.tracks.len();
        if len == 0 {
            None
        } else {
            let index = if self.current == 0 { len - 1 } else { self.current - 1 };
            Some(&self.tracks[index])
        }
    }

    /// Adds `track` at the end.
    pub fn push(&mut self, track: TrackRef)
        ensures
            final(self)@ == old(self)@.pushed(track@),
    {
        proof {
            use_type_invariant(&*self);
        }
        // The list is taken out of the queue while it grows, so that the queue
        // is in order at every point even if the allocation fails.
        let position = self.current;
        self.current = 0;
        let mut tracks: Vec<TrackRef> = Vec::new();
        core::mem::swap(&mut tracks, &mut self.tracks);
        tracks.push(track);
        self.tracks = tracks;
        self.current = position;
        assert(track_views(self.tracks@) =~= track_views(old(self).tracks@).push(track@));
    }

    /// Moves the cursor one place on, from the last track back to the first.
    pub fn advance(&mut self)
        ensures
            final(self)@ == old(self)@.advanced(),
    {
        proof {
            use_type_invariant(&*self);
        }
        let len = self.tracks.len();
        if len > 0 {
            self.current = if self.current + 1 == len { 0 } else { self.current + 1 };
        }
    }

    /// Moves the cursor one place back, from the first track to the last.
    pub fn retreat(&mut self)
        ensures
            final(self)@ == old(self)@.retreated(),
    {
        proof {
            use_type_invariant(&*self);
        }
        let len = self.tracks.len();
        if len > 0 {
            self.current = if self.current == 0 { len - 1 } else { self.current - 1 };
        }
    }

    /// Removes every track and puts the cursor back to the start.
    pub fn clear(&mut self)
        ensures
            final(self)@ == QueueView::empty(),
    {
        self.current = 0;
        self.tracks = Vec::new();
        assert(track_views(self.tracks@) =~= Seq::<Seq<char>>::empty());
    }
}

} // verus!
