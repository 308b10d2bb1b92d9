//! The playback controller: the state machine that owns the track queue and
//! the sink slot.
//!
//! The controller does no work on the audio engine itself. For an event it
//! first plans the transport operations ([`Controller::plan`]). The program
//! around it carries them out in order and reports how that went. With that
//! outcome the controller moves to its next state and says what the front end
//! is to be told ([`Controller::apply`]).
//!
//! A plan holds at most one operation that can fail, a load or an append, and
//! it stands last. The outcome is the result of that operation. Where the plan
//! holds none, the outcome has no bearing.

use vstd::prelude::*;
use crate::message::ControlMessage;
use crate::message::MessageView;
use crate::message::NotificationMessage;
use crate::message::NotificationView;
use crate::message::PlaybackError;
use crate::message::notification_views;
use crate::queue::QueueView;
use crate::queue::TrackQueue;
use crate::sink::SinkSlot;
use crate::sink::SinkView;
use crate::track::TrackRef;

verus! {

/// The longest time, in milliseconds, between two looks at the sink while no
/// message waits: it bounds how late the end of a track is noticed.
pub const POLL_INTERVAL_MS: u64 = 100;

/// The mathematical value of a [`TransportOp`].
pub enum OpView {
    LoadAndPlay(Seq<char>),
    Append(Seq<char>),
    Stop,
    Pause,
    Resume,
}

/// One operation on the audio engine, for the surrounding program to carry
/// out.
#[derive(Debug, PartialEq, Eq)]
pub enum TransportOp {
    /// Open and decode the track and make a sink that plays it, in place of
    /// the sink that exists, if any. If this fails, an existing sink is left
    /// as it is.
    LoadAndPlay(TrackRef),
    /// Open and decode the track and add its audio behind what the sink holds.
    Append(TrackRef),
    /// Halt output and release the sink.
    Stop,
    /// Suspend output.
    Pause,
    /// Take output up again.
    Resume,
}

impl View for TransportOp {
    type V = OpView;

    open spec fn view(&self) -> OpView {
        match self {
            TransportOp::LoadAndPlay(track) => OpView::LoadAndPlay(track@),
            TransportOp::Append(track) => OpView::Append(track@),
            TransportOp::Stop => OpView::Stop,
            TransportOp::Pause => OpView::Pause,
            TransportOp::Resume => OpView::Resume,
        }
    }
}

/// The views of a sequence of operations, in the same order.
pub open spec fn op_views(ops: Seq<TransportOp>) -> Seq<OpView> {
    ops.map_values(|op: TransportOp| op@)
}

/// The mathematical value of an [`Event`].
pub enum EventView {
    Message(MessageView),
    Poll { sink_empty: bool },
    Closed,
}

/// What the controller reacts to.
#[derive(Debug, PartialEq, Eq)]
pub enum Event {
    /// The next control message, in the order in which the front end sent it.
    Message(ControlMessage),
    /// A look at the sink, taken after each message and at a fixed interval
    /// while no message waits. `sink_empty` is what the engine says of the
    /// sink: that it has no audio left. Without a sink it is of no account.
    Poll { sink_empty: bool },
    /// The front end has gone and no message will follow.
    Closed,
}

impl View for Event {
    type V = EventView;

    open spec fn view(&self) -> EventView {
        match self {
            Event::Message(message) => EventView::Message(message@),
            Event::Poll { sink_empty } => EventView::Poll { sink_empty: *sink_empty },
            Event::Closed => EventView::Closed,
        }
    }
}

/// The mathematical value of a [`Controller`].
pub struct ControllerView {
    pub queue: QueueView,
    pub sink: SinkView,
}

impl ControllerView {
    /// The controller at its start: no track and no sink.
    pub open spec fn initial() -> ControllerView {
        ControllerView { queue: QueueView::empty(), sink: SinkView::Absent }
    }

    /// Whether the controller is idle, which is to say without a sink.
    pub open spec fn idle(self) -> bool {
        !self.sink.present()
    }

    /// The operations that release the sink: a stop where there is one.
    pub open spec fn release(self) -> Seq<OpView> {
        if self.sink.present() {
            seq![OpView::Stop]
        } else {
            Seq::empty()
        }
    }

    /// The operations that bring the current track of `target` to play: the
    /// sink is released and the track loaded. An empty `target` asks for none.
    pub open spec fn switch(self, target: QueueView) -> Seq<OpView> {
        match target.current_track() {
            Some(track) => self.release().push(OpView::LoadAndPlay(track)),
            None => Seq::empty(),
        }
    }

    /// The state after the sink was released and the current track of `target`
    /// loaded with `outcome`: the queue is `target` in any case, and the sink
    /// plays that track or, where the load failed, is absent. An empty `target`
    /// leaves the state as it is.
    pub open spec fn switched(self, target: QueueView, outcome: Result<(), PlaybackError>) -> ControllerView {
        match target.current_track() {
            Some(track) => ControllerView {
                queue: target,
                sink: if outcome is Ok {
                    SinkView::loaded(track)
                } else {
                    SinkView::Absent
                },
            },
            None => self,
        }
    }

    /// The one notification of a failure on `track`, or none on success.
    pub open spec fn complaint(track: Seq<char>, outcome: Result<(), PlaybackError>) -> Seq<NotificationView> {
        match outcome {
            Ok(_) => Seq::empty(),
            Err(error) => seq![NotificationView::Error(error.failure_text(track))],
        }
    }

    /// What [`ControllerView::switched`] has to tell: the failure of the load,
    /// if it failed.
    pub open spec fn switch_complaint(target: QueueView, outcome: Result<(), PlaybackError>) -> Seq<NotificationView> {
        match target.current_track() {
            Some(track) => Self::complaint(track, outcome),
            None => Seq::empty(),
        }
    }

    /// The transport operations that `event` calls for in this state, in the
    /// order in which they are to be carried out.
    pub open spec fn plan(self, event: EventView) -> Seq<OpView> {
        match event {
            EventView::Message(MessageView::Play(track)) => seq![OpView::LoadAndPlay(track)],
            EventView::Message(MessageView::Queue(track)) => if self.sink.present() {
                seq![OpView::Append(track)]
            } else {
                Seq::empty()
            },
            EventView::Message(MessageView::Stop) => self.release(),
            EventView::Message(MessageView::Pause) => if self.sink.present() {
                seq![OpView::Pause]
            } else {
                Seq::empty()
            },
            EventView::Message(MessageView::Resume) => if self.sink.present() {
                seq![OpView::Resume]
            } else {
                Seq::empty()
            },
            EventView::Message(MessageView::Next) => self.switch(self.queue.advanced()),
            EventView::Message(MessageView::Previous) => self.switch(self.queue.retreated()),
            EventView::Poll { sink_empty } => if !self.sink.drained(sink_empty) {
                Seq::empty()
            } else if self.queue.tracks.len() == 0 {
                self.release()
            } else {
                self.switch(self.queue.advanced())
            },
            EventView::Closed => self.release(),
        }
    }

    /// The state after `event`, where `outcome` is the result of the operation
    /// of the plan that can fail.
    pub open spec fn apply(self, event: EventView, outcome: Result<(), PlaybackError>) -> ControllerView {
        match event {
            EventView::Message(MessageView::Play(track)) => if outcome is Ok {
                ControllerView { queue: QueueView::single(track), sink: SinkView::loaded(track) }
            } else {
                self
            },
            EventView::Message(MessageView::Queue(track)) => if !self.sink.present() {
                ControllerView { queue: self.queue.pushed(track), sink: self.sink }
            } else if outcome is Ok {
                ControllerView { queue: self.queue.pushed(track), sink: self.sink.appended(track) }
            } else {
                self
            },
            EventView::Message(MessageView::Stop) => ControllerView {
                queue: self.queue,
                sink: SinkView::Absent,
            },
            EventView::Message(MessageView::Pause) => ControllerView {
                queue: self.queue,
                sink: self.sink.paused(),
            },
            EventView::Message(MessageView::Resume) => ControllerView {
                queue: self.queue,
                sink: self.sink.resumed(),
            },
            EventView::Message(MessageView::Next) => self.switched(self.queue.advanced(), outcome),
            EventView::Message(MessageView::Previous) => self.switched(
                self.queue.retreated(),
                outcome,
            ),
            EventView::Poll { sink_empty } => if !self.sink.drained(sink_empty) {
                self
            } else if self.queue.tracks.len() == 0 {
                ControllerView { queue: self.queue, sink: SinkView::Absent }
            } else {
                self.switched(self.queue.advanced(), outcome)
            },
            EventView::Closed => ControllerView { queue: self.queue, sink: SinkView::Absent },
        }
    }

    /// The state after the events of `events`, one after the other, where
    /// `outcomes` holds the outcome of each at the same place.
    pub open spec fn run(
        self,
        events: Seq<EventView>,
        outcomes: Seq<Result<(), PlaybackError>>,
    ) -> ControllerView
        decreases events.len(),
    {
        if events.len() == 0 {
            self
        } else {
            self.run(events.drop_last(), outcomes.drop_last()).apply(
                events.last(),
                outcomes.last(),
            )
        }
    }

    /// What the front end is told after `event`, in order.
    pub open spec fn notify(self, event: EventView, outcome: Result<(), PlaybackError>) -> Seq<NotificationView> {
        match event {
            EventView::Message(MessageView::Play(track)) => Self::complaint(track, outcome),
            EventView::Message(MessageView::Queue(track)) => if self.sink.present() {
                Self::complaint(track, outcome)
            } else {
                Seq::empty()
            },
            EventView::Message(MessageView::Next) => Self::switch_complaint(
                self.queue.advanced(),
                outcome,
            ),
            EventView::Message(MessageView::Previous) => Self::switch_complaint(
                self.queue.retreated(),
                outcome,
            ),
            EventView::Poll { sink_empty } => if !self.sink.drained(sink_empty) {
                Seq::empty()
            } else {
                seq![NotificationView::Finished] + Self::switch_complaint(
                    self.queue.advanced(),
                    outcome,
                )
            },
            _ => Seq::empty(),
        }
    }
}

/// The state machine of playback: the track queue and what is known of the
/// sink.
#[derive(Debug)]
pub struct Controller {
    queue: TrackQueue,
    sink: SinkSlot,
}

impl View for Controller {
    type V = ControllerView;

    closed spec fn view(&self) -> ControllerView {
        ControllerView { queue: self.queue@, sink: self.sink@ }
    }
}

/// A list with one notification: that `track` failed with `error`.
fn complain(error: PlaybackError, track: &TrackRef) -> (notes: Vec<NotificationMessage>)
    ensures
        notification_views(notes@) == ControllerView::complaint(track@, Err(error)),
{
    let mut notes: Vec<NotificationMessage> = Vec::new();
    notes.push(NotificationMessage::Error(error.describe(track)));
    assert(notification_views(notes@) =~= seq![
        NotificationView::Error(error.failure_text(track@)),
    ]);
    notes
}

/// No notification.
fn silence() -> (notes: Vec<NotificationMessage>)
    ensures
        notification_views(notes@) == Seq::<NotificationView>::empty(),
{
    let notes: Vec<NotificationMessage> = Vec::new();
    assert(notification_views(notes@) =~= Seq::<NotificationView>::empty());
    notes
}

/// Whether the move that a message or a drained sink asks for goes on or back.
enum Direction {
    Forward,
    Backward,
}

impl Direction {
    spec fn target(self, queue: QueueView) -> QueueView {
        match self {
            Direction::Forward => queue.advanced(),
            Direction::Backward => queue.retreated(),
        }
    }
}

impl Controller {
    /// Makes a controller without tracks and without a sink.
    pub fn new() -> (controller: Controller)
        ensures
            controller@ == ControllerView::initial(),
    {
        Controller { queue: TrackQueue::new(), sink: SinkSlot::Absent }
    }

    /// Makes a controller that holds `queue` and knows `sink` of the sink.
    pub fn from_parts(queue: TrackQueue, sink: SinkSlot) -> (controller: Controller)
        ensures
            controller@ == (ControllerView { queue: queue@, sink: sink@ }),
    {
        Controller { queue, sink }
    }

    /// The track queue.
    pub fn queue(&self) -> (queue: &TrackQueue)
        ensures
            queue@ == self@.queue,
    {
        &self.queue
    }

    /// What is known of the sink.
    pub fn sink(&self) -> (sink: &SinkSlot)
        ensures
            sink@ == self@.sink,
    {
        &self.sink
    }

    /// Whether the controller is idle, which is to say without a sink.
    pub fn is_idle(&self) -> (idle: bool)
        ensures
            idle == self@.idle(),
    {
        !self.sink.is_present()
    }

    /// The operations that release the sink.
    fn release(&self) -> (ops: Vec<TransportOp>)
        ensures
            op_views(ops@) == self@.release(),
    {
        let mut ops: Vec<TransportOp> = Vec::new();
        if self.sink.is_present() {
            ops.push(TransportOp::Stop);
            assert(op_views(ops@) =~= seq![OpView::Stop]);
        } else {
            assert(op_views(ops@) =~= Seq::<OpView>::empty());
        }
        ops
    }

    /// The operations that bring the track one place on or back to play.
    fn switch(&self, direction: Direction) -> (ops: Vec<TransportOp>)
        ensures
            op_views(ops@) == self@.switch(direction.target(self@.queue)),
    {
        let target = match direction {
            Direction::Forward => self.queue.upcoming(),
            Direction::Backward => self.queue.preceding(),
        };
        match target {
            Some(track) => {
                let mut ops = self.release();
                let ghost released = ops@;
                ops.push(TransportOp::LoadAndPlay(track.clone()));
                assert(op_views(ops@) =~= op_views(released).push(OpView::LoadAndPlay(track@)));
                ops
            },
            None => {
                let ops: Vec<TransportOp> = Vec::new();
                assert(op_views(ops@) =~= Seq::<OpView>::empty());
                ops
            },
        }
    }

    /// One operation alone.
    fn only(op: TransportOp) -> (ops: Vec<TransportOp>)
        ensures
            op_views(ops@) == seq![op@],
    {
        let mut ops: Vec<TransportOp> = Vec::new();
        ops.push(op);
        assert(op_views(ops@) =~= seq![op@]);
        ops
    }

    /// One operation where a sink exists, none where it does not.
    fn on_sink(&self, op: TransportOp) -> (ops: Vec<TransportOp>)
        ensures
            op_views(ops@) == if self@.sink.present() {
                seq![op@]
            } else {
                Seq::<OpView>::empty()
            },
    {
        if self.sink.is_present() {
            Self::only(op)
        } else {
            let ops: Vec<TransportOp> = Vec::new();
            assert(op_views(ops@) =~= Seq::<OpView>::empty());
            ops
        }
    }

    /// Plans the transport operations that `event` calls for, in the order in
    /// which they are to be carried out. The controller itself does not
    /// change.
    ///
    /// At most one of them can fail, a load or an append, and it stands last.
    pub fn plan(&self, event: &Event) -> (ops: Vec<TransportOp>)
        ensures
            op_views(ops@) == self@.plan(event@),
    {
        match event {
            Event::Message(ControlMessage::Play(track)) => Self::only(
                TransportOp::LoadAndPlay(track.clone()),
            ),
            Event::Message(ControlMessage::Queue(track)) => self.on_sink(
                TransportOp::Append(track.clone()),
            ),
            Event::Message(ControlMessage::Stop) => self.release(),
            Event::Message(ControlMessage::Pause) => self.on_sink(TransportOp::Pause),
            Event::Message(ControlMessage::Resume) => self.on_sink(TransportOp::Resume),
            Event::Message(ControlMessage::Next) => self.switch(Direction::Forward),
            Event::Message(ControlMessage::Previous) => self.switch(Direction::Backward),
            Event::Poll { sink_empty } => {
                if !self.sink.is_drained(*sink_empty) {
                    let ops: Vec<TransportOp> = Vec::new();
                    assert(op_views(ops@) =~= Seq::<OpView>::empty());
                    ops
                } else if self.queue.is_empty() {
                    self.release()
                } else {
                    self.switch(Direction::Forward)
                }
            },
            Event::Closed => self.release(),
        }
    }

    /// Takes `track` as the whole queue and as what the sink plays, if loading
    /// it went well. If not, nothing changes and the failure is reported.
    fn play(&mut self, track: TrackRef, outcome: Result<(), PlaybackError>) -> (notes: Vec<
        NotificationMessage,
    >)
        ensures
            final(self)@ == old(self)@.apply(EventView::Message(MessageView::Play(track@)), outcome),
            notification_views(notes@) == ControllerView::complaint(track@, outcome),
    {
        match outcome {
            Ok(_) => {
                self.queue.clear();
                self.queue.push(track.clone());
                self.sink.load_and_play(track);
                assert(self.queue@.tracks =~= seq![track@]);
                silence()
            },
            Err(error) => complain(error, &track),
        }
    }

    /// Adds `track` to the queue. With a sink, its audio was to be added to
    /// the sink: if that failed, nothing changes and the failure is reported.
    fn enqueue(&mut self, track: TrackRef, outcome: Result<(), PlaybackError>) -> (notes: Vec<
        NotificationMessage,
    >)
        ensures
            final(self)@ == old(self)@.apply(EventView::Message(MessageView::Queue(track@)), outcome),
            notification_views(notes@) == old(self)@.notify(
                EventView::Message(MessageView::Queue(track@)),
                outcome,
            ),
    {
        if !self.sink.is_present() {
            self.queue.push(track);
            silence()
        } else {
            match outcome {
                Ok(_) => {
                    self.queue.push(track.clone());
                    self.sink.append(track);
                    silence()
                },
                Err(error) => complain(error, &track),
            }
        }
    }

    /// Moves the cursor one place on or back and takes the track there as what
    /// the sink plays, if loading it went well. If not, the sink is gone and
    /// the failure is reported. With an empty queue nothing changes.
    fn switched(&mut self, direction: Direction, outcome: Result<(), PlaybackError>) -> (notes: Vec<
        NotificationMessage,
    >)
        ensures
            final(self)@ == old(self)@.switched(direction.target(old(self)@.queue), outcome),
            notification_views(notes@) == ControllerView::switch_complaint(
                direction.target(old(self)@.queue),
                outcome,
            ),
    {
        match direction {
            Direction::Forward => self.queue.advance(),
            Direction::Backward => self.queue.retreat(),
        }
        let track = match self.queue.current() {
            Some(track) => track.clone(),
            None => {
                return silence();
            },
        };
        match outcome {
            Ok(_) => {
                self.sink.load_and_play(track);
                silence()
            },
            Err(error) => {
                self.sink.stop();
                complain(error, &track)
            },
        }
    }

    /// Moves to the state after `event` and returns what the front end is to
    /// be told, in order. `outcome` is the result of the operation of the plan
    /// that can fail; where the plan for `event` holds none, it has no
    /// bearing.
    pub fn apply(&mut self, event: Event, outcome: Result<(), PlaybackError>) -> (notes: Vec<
        NotificationMessage,
    >)
        ensures
            final(self)@ == old(self)@.apply(event@, outcome),
            notification_views(notes@) == old(self)@.notify(event@, outcome),
    {
        let ghost before = self@;
        match event {
            Event::Message(ControlMessage::Play(track)) => self.play(track, outcome),
            Event::Message(ControlMessage::Queue(track)) => self.enqueue(track, outcome),
            Event::Message(ControlMessage::Stop) => {
                self.sink.stop();
                silence()
            },
            Event::Message(ControlMessage::Pause) => {
                self.sink.pause();
                silence()
            },
            Event::Message(ControlMessage::Resume) => {
                self.sink.resume();
                silence()
            },
            Event::Message(ControlMessage::Next) => self.switched(Direction::Forward, outcome),
            Event::Message(ControlMessage::Previous) => self.switched(Direction::Backward, outcome),
            Event::Poll { sink_empty } => {
                if !self.sink.is_drained(sink_empty) {
                    silence()
                } else {
                    let mut notes: Vec<NotificationMessage> = Vec::new();
                    notes.push(NotificationMessage::Finished);
                    if self.queue.is_empty() {
                        self.sink.stop();
                    } else {
                        let mut complaints = self.switched(Direction::Forward, outcome);
                        let ghost first = notes@;
                        let ghost rest = complaints@;
                        notes.append(&mut complaints);
                        assert(notification_views(notes@) =~= notification_views(first)
                            + notification_views(rest));
                    }
                    assert(notification_views(notes@) =~= before.notify(event@, outcome));
                    notes
                }
            },
            Event::Closed => {
                self.sink.stop();
                silence()
            },
        }
    }
}

} // verus!
