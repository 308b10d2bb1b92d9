//! What holds of the queue and of the controller in every state. Each law is
//! a proof over the models that the contracts of the library speak of.

use vstd::prelude::*;
use vstd::arithmetic::div_mod::lemma_mod_self_0;
use vstd::arithmetic::div_mod::lemma_small_mod;
use crate::controller::ControllerView;
use crate::controller::EventView;
use crate::controller::OpView;
use crate::message::MessageView;
use crate::message::NotificationView;
use crate::message::PlaybackError;
use crate::queue::QueueView;
use crate::sink::SinkView;

verus! {

/// The messages that queue the tracks of `tracks`, one message for each track
/// and in the same order.
pub open spec fn queue_messages(tracks: Seq<Seq<char>>) -> Seq<EventView> {
    tracks.map_values(|track: Seq<char>| EventView::Message(MessageView::Queue(track)))
}

/// Moving the cursor keeps a queue in order, and so does adding a track.
pub proof fn queue_stays_valid(queue: QueueView, track: Seq<char>)
    requires
        queue.valid(),
    ensures
        queue.advanced().valid(),
        queue.retreated().valid(),
        queue.pushed(track).valid(),
        QueueView::empty().valid(),
        QueueView::single(track).valid(),
{
}

/// Adding a track leaves the current track as it is, unless the queue was
/// empty: then the new track is current.
pub proof fn push_keeps_current(queue: QueueView, track: Seq<char>)
    requires
        queue.valid(),
    ensures
        queue.tracks.len() > 0 ==> queue.pushed(track).current_track() == queue.current_track(),
        queue.tracks.len() == 0 ==> queue.pushed(track).current_track() == Some(track),
{
}

/// The cursor moves on by one modulo the number of tracks, and back by one
/// modulo the number of tracks.
pub proof fn cursor_moves_modulo_len(queue: QueueView)
    requires
        queue.valid(),
        queue.tracks.len() > 0,
    ensures
        queue.advanced().current == (queue.current + 1) % queue.tracks.len(),
        queue.retreated().current == (queue.current + queue.tracks.len() - 1) % (
        queue.tracks.len() as int),
        queue.advanced().tracks == queue.tracks,
        queue.retreated().tracks == queue.tracks,
{
    let len = queue.tracks.len() as int;
    if queue.current + 1 == len {
        lemma_mod_self_0(len);
    } else {
        lemma_small_mod((queue.current + 1) as nat, len as nat);
    }
    if queue.current == 0 {
        lemma_small_mod((len - 1) as nat, len as nat);
    } else {
        let back = queue.current - 1;
        lemma_small_mod(back as nat, len as nat);
        assert((back + len) % len == back % len) by (nonlinear_arith)
            requires
                len > 0,
        ;
    }
}

/// Moving on and then back, or back and then on, puts the cursor where it
/// was, wherever in the queue it stood.
pub proof fn advance_and_retreat_are_inverse(queue: QueueView)
    requires
        queue.valid(),
    ensures
        queue.advanced().retreated() == queue,
        queue.retreated().advanced() == queue,
{
}

/// From the last track the cursor moves on to the first, and from the first
/// track it moves back to the last.
pub proof fn cursor_wraps_around(queue: QueueView)
    requires
        queue.valid(),
        queue.tracks.len() > 0,
    ensures
        queue.current == queue.tracks.len() - 1 ==> queue.advanced().current == 0,
        queue.current == 0 ==> queue.retreated().current == queue.tracks.len() - 1,
{
}

/// No event puts the queue out of order.
pub proof fn controller_keeps_queue_valid(
    state: ControllerView,
    event: EventView,
    outcome: Result<(), PlaybackError>,
)
    requires
        state.queue.valid(),
    ensures
        state.apply(event, outcome).queue.valid(),
{
}

/// Of the operations of a plan only the last can be a load or an append: all
/// before it are stops.
pub proof fn plan_fails_only_at_its_end(state: ControllerView, event: EventView)
    ensures
        state.plan(event).len() <= 2,
        forall|i: int|
            0 <= i < state.plan(event).len() - 1 ==> #[trigger] state.plan(event)[i]
                == OpView::Stop,
{
}

/// While the controller is idle, a message that queues a track asks for no
/// operation, tells the front end nothing, adds the track at the end of the
/// queue and leaves the controller idle, whatever outcome is handed in.
pub proof fn queue_message_while_idle(
    state: ControllerView,
    track: Seq<char>,
    outcome: Result<(), PlaybackError>,
)
    requires
        state.idle(),
    ensures
        state.plan(EventView::Message(MessageView::Queue(track))) == Seq::<OpView>::empty(),
        state.notify(EventView::Message(MessageView::Queue(track)), outcome) == Seq::<
            NotificationView,
        >::empty(),
        state.apply(EventView::Message(MessageView::Queue(track)), outcome) == (ControllerView {
            queue: state.queue.pushed(track),
            sink: SinkView::Absent,
        }),
{
}

/// After any number of messages that queue a track, sent while the controller
/// is idle, the queue has grown by exactly those tracks, in the order in which
/// they were sent; the cursor has not moved and the controller is still idle.
/// None of the messages asked for an operation on the sink.
pub proof fn queue_messages_while_idle(
    state: ControllerView,
    tracks: Seq<Seq<char>>,
    outcomes: Seq<Result<(), PlaybackError>>,
)
    requires
        state.idle(),
        outcomes.len() == tracks.len(),
    ensures
        state.run(queue_messages(tracks), outcomes).queue.tracks == state.queue.tracks + tracks,
        state.run(queue_messages(tracks), outcomes).queue.current == state.queue.current,
        state.run(queue_messages(tracks), outcomes).idle(),
        forall|sent: int|
            0 <= sent < tracks.len() ==> (#[trigger] state.run(
                queue_messages(tracks.take(sent)),
                outcomes.take(sent),
            )).plan(EventView::Message(MessageView::Queue(tracks[sent]))) == Seq::<OpView>::empty(),
    decreases tracks.len(),
{
    if tracks.len() == 0 {
        assert(state.queue.tracks + tracks =~= state.queue.tracks);
    } else {
        let events = queue_messages(tracks);
        assert(events.drop_last() =~= queue_messages(tracks.drop_last()));
        queue_messages_while_idle(state, tracks.drop_last(), outcomes.drop_last());
        let before = state.run(events.drop_last(), outcomes.drop_last());
        queue_message_while_idle(before, tracks.last(), outcomes.last());
        assert(events.last() == EventView::Message(MessageView::Queue(tracks.last())));
        assert(state.queue.tracks + tracks =~= (state.queue.tracks + tracks.drop_last()).push(
            tracks.last(),
        ));
    }
    assert forall|sent: int| 0 <= sent < tracks.len() implies (#[trigger] state.run(
        queue_messages(tracks.take(sent)),
        outcomes.take(sent),
    )).plan(EventView::Message(MessageView::Queue(tracks[sent]))) == Seq::<OpView>::empty() by {
        queue_messages_while_idle(state, tracks.take(sent), outcomes.take(sent));
    }
}

/// A sink is never left over an empty queue: if a state holds a track
/// wherever it holds a sink, so does the state after any event.
pub proof fn sink_has_a_track_to_play(
    state: ControllerView,
    event: EventView,
    outcome: Result<(), PlaybackError>,
)
    requires
        state.queue.valid(),
        state.sink.present() ==> state.queue.tracks.len() > 0,
    ensures
        state.apply(event, outcome).sink.present() ==> state.apply(
            event,
            outcome,
        ).queue.tracks.len() > 0,
{
}

/// A message to go on followed by one to go back, or the two the other way
/// round, leaves the queue and its cursor as they were, however the loads
/// went.
pub proof fn next_and_previous_are_inverse(
    state: ControllerView,
    first: Result<(), PlaybackError>,
    second: Result<(), PlaybackError>,
)
    requires
        state.queue.valid(),
    ensures
        state.apply(EventView::Message(MessageView::Next), first).apply(
            EventView::Message(MessageView::Previous),
            second,
        ).queue == state.queue,
        state.apply(EventView::Message(MessageView::Previous), first).apply(
            EventView::Message(MessageView::Next),
            second,
        ).queue == state.queue,
{
}

/// A message to go on or back moves the cursor by one place, around the ends
/// of the queue, and with an empty queue changes nothing at all.
pub proof fn next_and_previous_move_cursor(state: ControllerView, outcome: Result<(), PlaybackError>)
    requires
        state.queue.valid(),
    ensures
        state.apply(EventView::Message(MessageView::Next), outcome).queue
            == state.queue.advanced(),
        state.apply(EventView::Message(MessageView::Previous), outcome).queue
            == state.queue.retreated(),
        state.queue.tracks.len() == 0 ==> state.apply(
            EventView::Message(MessageView::Next),
            outcome,
        ) == state && state.apply(EventView::Message(MessageView::Previous), outcome) == state,
{
}

/// A message to play a track whose load went well leaves that track as the
/// whole queue, with the cursor on it, and as what the sink plays, whatever
/// the queue and the sink were before. Nothing is told to the front end.
pub proof fn play_resets_queue(state: ControllerView, track: Seq<char>)
    ensures
        state.apply(EventView::Message(MessageView::Play(track)), Ok(())).queue.tracks == seq![
            track,
        ],
        state.apply(EventView::Message(MessageView::Play(track)), Ok(())).queue.current == 0,
        state.apply(EventView::Message(MessageView::Play(track)), Ok(())).sink == SinkView::loaded(
            track,
        ),
        state.notify(EventView::Message(MessageView::Play(track)), Ok(())) == Seq::<
            NotificationView,
        >::empty(),
{
}

/// A message that queues a track right after one that plays a track finds the
/// queue already reset: the two tracks are all that it holds.
pub proof fn queue_after_play(
    state: ControllerView,
    played: Seq<char>,
    queued: Seq<char>,
)
    ensures
        state.apply(EventView::Message(MessageView::Play(played)), Ok(())).apply(
            EventView::Message(MessageView::Queue(queued)),
            Ok(()),
        ).queue.tracks == seq![played, queued],
{
    assert(seq![played].push(queued) =~= seq![played, queued]);
}

/// When the sink has drained and the queue holds a track, the front end is
/// told exactly once that playback finished, and the cursor has moved on by
/// one place, around the end of the queue. This is what a message to go on
/// does, but for the notification.
pub proof fn drained_sink_advances(state: ControllerView, outcome: Result<(), PlaybackError>)
    requires
        state.queue.valid(),
        state.sink.present(),
        state.queue.tracks.len() > 0,
    ensures
        state.notify(EventView::Poll { sink_empty: true }, outcome).len() >= 1,
        state.notify(EventView::Poll { sink_empty: true }, outcome)[0]
            == NotificationView::Finished,
        forall|i: int|
            1 <= i < state.notify(EventView::Poll { sink_empty: true }, outcome).len()
                ==> #[trigger] state.notify(EventView::Poll { sink_empty: true }, outcome)[i]
                != NotificationView::Finished,
        state.apply(EventView::Poll { sink_empty: true }, outcome).queue.tracks
            == state.queue.tracks,
        state.apply(EventView::Poll { sink_empty: true }, outcome).queue.current == (
        state.queue.current + 1) % state.queue.tracks.len(),
        state.apply(EventView::Poll { sink_empty: true }, outcome) == state.apply(
            EventView::Message(MessageView::Next),
            outcome,
        ),
        state.plan(EventView::Poll { sink_empty: true }) == state.plan(
            EventView::Message(MessageView::Next),
        ),
        state.notify(EventView::Poll { sink_empty: true }, outcome) == seq![
            NotificationView::Finished,
        ] + state.notify(EventView::Message(MessageView::Next), outcome),
{
    cursor_moves_modulo_len(state.queue);
}

/// When the sink has drained and the queue is empty, the sink is released and
/// the front end is told once that playback finished, and nothing else.
pub proof fn drained_sink_without_tracks(state: ControllerView, outcome: Result<(), PlaybackError>)
    requires
        state.queue.valid(),
        state.sink.present(),
        state.queue.tracks.len() == 0,
    ensures
        state.apply(EventView::Poll { sink_empty: true }, outcome).sink == SinkView::Absent,
        state.apply(EventView::Poll { sink_empty: true }, outcome).queue == state.queue,
        state.notify(EventView::Poll { sink_empty: true }, outcome) == seq![
            NotificationView::Finished,
        ],
        state.plan(EventView::Poll { sink_empty: true }) == seq![OpView::Stop],
{
    assert(state.notify(EventView::Poll { sink_empty: true }, outcome) =~= seq![
        NotificationView::Finished,
    ]);
}

/// A look at a sink that has audio left, or at no sink at all, changes
/// nothing, asks for no operation and tells the front end nothing.
pub proof fn poll_without_drain(
    state: ControllerView,
    sink_empty: bool,
    outcome: Result<(), PlaybackError>,
)
    requires
        !sink_empty || state.idle(),
    ensures
        state.apply(EventView::Poll { sink_empty }, outcome) == state,
        state.plan(EventView::Poll { sink_empty }) == Seq::<OpView>::empty(),
        state.notify(EventView::Poll { sink_empty }, outcome) == Seq::<NotificationView>::empty(),
{
}

/// The end of one stretch of audio is told once: where a drained sink could
/// not be filled again, a later look at the sink tells the front end nothing.
pub proof fn finished_is_not_repeated(
    state: ControllerView,
    error: PlaybackError,
    sink_empty: bool,
    outcome: Result<(), PlaybackError>,
)
    requires
        state.queue.valid(),
        state.sink.present(),
    ensures
        state.apply(EventView::Poll { sink_empty: true }, Err(error)).notify(
            EventView::Poll { sink_empty },
            outcome,
        ) == Seq::<NotificationView>::empty(),
{
}

/// A message to play a track whose load failed changes neither the queue nor
/// the sink, and the front end is told of exactly one error.
pub proof fn failed_play_changes_nothing(
    state: ControllerView,
    track: Seq<char>,
    error: PlaybackError,
)
    ensures
        state.apply(EventView::Message(MessageView::Play(track)), Err(error)) == state,
        state.notify(EventView::Message(MessageView::Play(track)), Err(error)) == seq![
            NotificationView::Error(error.failure_text(track)),
        ],
{
}

/// A message to queue a track whose audio could not be added to the sink
/// changes neither the queue nor the sink, and the front end is told of
/// exactly one error. The audio is added only where a sink exists.
pub proof fn failed_queue_changes_nothing(
    state: ControllerView,
    track: Seq<char>,
    error: PlaybackError,
)
    requires
        state.sink.present(),
    ensures
        state.plan(EventView::Message(MessageView::Queue(track))) == seq![OpView::Append(track)],
        state.apply(EventView::Message(MessageView::Queue(track)), Err(error)) == state,
        state.notify(EventView::Message(MessageView::Queue(track)), Err(error)) == seq![
            NotificationView::Error(error.failure_text(track)),
        ],
{
}

/// Without a sink, messages to pause and to resume change nothing, ask for no
/// operation and tell the front end nothing.
pub proof fn pause_and_resume_without_sink(state: ControllerView, outcome: Result<(), PlaybackError>)
    requires
        state.idle(),
    ensures
        state.apply(EventView::Message(MessageView::Pause), outcome) == state,
        state.apply(EventView::Message(MessageView::Resume), outcome) == state,
        state.plan(EventView::Message(MessageView::Pause)) == Seq::<OpView>::empty(),
        state.plan(EventView::Message(MessageView::Resume)) == Seq::<OpView>::empty(),
        state.notify(EventView::Message(MessageView::Pause), outcome) == Seq::<
            NotificationView,
        >::empty(),
        state.notify(EventView::Message(MessageView::Resume), outcome) == Seq::<
            NotificationView,
        >::empty(),
{
}

/// A message to stop releases the sink and leaves the queue as it is.
pub proof fn stop_keeps_queue(state: ControllerView, outcome: Result<(), PlaybackError>)
    ensures
        state.apply(EventView::Message(MessageView::Stop), outcome).sink == SinkView::Absent,
        state.apply(EventView::Message(MessageView::Stop), outcome).queue == state.queue,
        state.notify(EventView::Message(MessageView::Stop), outcome) == Seq::<
            NotificationView,
        >::empty(),
{
}

} // verus!
