//! What holds of queues, sessions and status messages whatever the order of
//! commands and reports, proved over the functions that the contracts of
//! this crate are written in.

use vstd::prelude::*;

use crate::logic::{joined, teardown_of};
use crate::models::{MessageHandle, QueuedTrack};
use crate::state::SessionView;

verus! {

/// The queue after a series of appends: each batch is added behind what is
/// there, as `Queue::append` does.
pub open spec fn appended(queue: Seq<QueuedTrack>, batches: Seq<Seq<QueuedTrack>>) -> Seq<
    QueuedTrack,
>
    decreases batches.len(),
{
    if batches.len() == 0 {
        queue
    } else {
        appended(queue, batches.drop_last()) + batches.last()
    }
}

/// The position in the queue of the first track of batch `k`.
pub open spec fn batch_offset(queue: Seq<QueuedTrack>, batches: Seq<Seq<QueuedTrack>>, k: int) -> int
    decreases k,
{
    if k <= 0 {
        queue.len() as int
    } else {
        batch_offset(queue, batches, k - 1) + batches[k - 1].len()
    }
}

proof fn lemma_appended_length(queue: Seq<QueuedTrack>, batches: Seq<Seq<QueuedTrack>>)
    ensures
        appended(queue, batches).len() == batch_offset(queue, batches, batches.len() as int),
    decreases batches.len(),
{
    if batches.len() > 0 {
        lemma_appended_length(queue, batches.drop_last());
        lemma_offset_of_prefix(queue, batches, batches.len() - 1);
    }
}

proof fn lemma_offset_of_prefix(queue: Seq<QueuedTrack>, batches: Seq<Seq<QueuedTrack>>, k: int)
    requires
        0 <= k < batches.len(),
    ensures
        batch_offset(queue, batches.drop_last(), k) == batch_offset(queue, batches, k),
    decreases k,
{
    if k > 0 {
        lemma_offset_of_prefix(queue, batches, k - 1);
    }
}

proof fn lemma_appended_prefix(queue: Seq<QueuedTrack>, batches: Seq<Seq<QueuedTrack>>)
    ensures
        queue.len() <= appended(queue, batches).len(),
        forall|i: int| 0 <= i < queue.len() ==> appended(queue, batches)[i] == queue[i],
    decreases batches.len(),
{
    if batches.len() > 0 {
        lemma_appended_prefix(queue, batches.drop_last());
    }
}

proof fn lemma_batch_position(
    queue: Seq<QueuedTrack>,
    batches: Seq<Seq<QueuedTrack>>,
    k: int,
    p: int,
)
    requires
        0 <= k < batches.len(),
        0 <= p < batches[k].len(),
    ensures
        0 <= batch_offset(queue, batches, k) + p < appended(queue, batches).len(),
        appended(queue, batches)[batch_offset(queue, batches, k) + p] == batches[k][p],
    decreases batches.len(),
{
    let earlier = batches.drop_last();
    lemma_appended_length(queue, earlier);
    lemma_offset_of_prefix(queue, batches, k);
    if k < batches.len() - 1 {
        lemma_batch_position(queue, earlier, k, p);
    }
}

/// Insertion order is playback order: after any series of appends, the
/// tracks that were queued before come first, then every batch in the order
/// of the appends, each batch in its own order.
pub proof fn law_queue_keeps_insertion_order(
    queue: Seq<QueuedTrack>,
    batches: Seq<Seq<QueuedTrack>>,
)
    ensures
        appended(queue, batches).len() == batch_offset(queue, batches, batches.len() as int),
        forall|i: int| 0 <= i < queue.len() ==> appended(queue, batches)[i] == queue[i],
        forall|k: int, p: int|
            0 <= k < batches.len() && 0 <= p < batches[k].len() ==> #[trigger] appended(
                queue,
                batches,
            )[batch_offset(queue, batches, k) + p] == batches[k][p],
{
    lemma_appended_length(queue, batches);
    lemma_appended_prefix(queue, batches);
    assert forall|k: int, p: int|
        0 <= k < batches.len() && 0 <= p < batches[k].len() implies #[trigger] appended(
        queue,
        batches,
    )[batch_offset(queue, batches, k) + p] == batches[k][p] by {
        lemma_batch_position(queue, batches, k, p);
    }
}

/// Removing the track at a position closes the gap: the tracks before it
/// stay where they are, and every later track moves up by one.
pub proof fn law_remove_excises_one(queue: Seq<QueuedTrack>, index: int)
    requires
        0 <= index < queue.len(),
    ensures
        queue.remove(index).len() == queue.len() - 1,
        forall|i: int| 0 <= i < index ==> queue.remove(index)[i] == queue[i],
        forall|i: int| index <= i < queue.len() - 1 ==> queue.remove(index)[i] == queue[i + 1],
{
}

/// The messages that an optional handle names: one or none.
pub open spec fn handles(message: Option<MessageHandle>) -> Set<MessageHandle> {
    match message {
        Some(handle) => set![handle],
        None => Set::empty(),
    }
}

/// The status messages of a session that exist on the platform are exactly
/// those that its slot names.
pub open spec fn slot_accounts_for(session: SessionView, live: Set<MessageHandle>) -> bool {
    live == handles(session.shown_message())
}

/// The live messages once the caller has deleted `delete`.
pub open spec fn after_delete(live: Set<MessageHandle>, delete: Option<MessageHandle>) -> Set<
    MessageHandle,
> {
    live.difference(handles(delete))
}

/// A report about a session's playback.
pub enum Report {
    /// A track started; the caller deletes what `track_start` returns.
    Started,
    /// The caller posted `message` for the track and recorded it with
    /// `status_posted`, deleting what that returns.
    Posted { track_identifier: String, message: MessageHandle },
    /// A track ended; the caller deletes what `track_end` returns.
    Ended { ended_identifier: Seq<char> },
}

/// A session and its live status messages after one report was handled.
pub open spec fn handled(state: (SessionView, Set<MessageHandle>), report: Report) -> (
    SessionView,
    Set<MessageHandle>,
) {
    let (session, live) = state;
    match report {
        Report::Started => (session.retired(), after_delete(live, session.shown_message())),
        Report::Posted { track_identifier, message } => (
            session.showing(track_identifier, message),
            after_delete(live.insert(message), session.replaced_by(message)),
        ),
        Report::Ended { ended_identifier } => (
            session.track_ended(ended_identifier),
            after_delete(live, session.retired_by_end(ended_identifier)),
        ),
    }
}

/// A session and its live status messages after a series of reports.
pub open spec fn handled_all(state: (SessionView, Set<MessageHandle>), reports: Seq<Report>) -> (
    SessionView,
    Set<MessageHandle>,
)
    decreases reports.len(),
{
    if reports.len() == 0 {
        state
    } else {
        handled(handled_all(state, reports.drop_last()), reports.last())
    }
}

/// One report keeps slot and live messages in step.
pub proof fn law_report_keeps_slot_in_step(
    session: SessionView,
    live: Set<MessageHandle>,
    report: Report,
)
    requires
        slot_accounts_for(session, live),
    ensures
        slot_accounts_for(handled((session, live), report).0, handled((session, live), report).1),
{
    let (after, alive) = handled((session, live), report);
    assert(alive =~= handles(after.shown_message()));
}

/// A session has at most one live status message, whatever is reported and
/// in whatever order; and once a start was handled none is left, so the
/// earlier message is gone before the next one is posted.
pub proof fn law_at_most_one_status_message(
    voice_channel_id: u64,
    channel_id: u64,
    reports: Seq<Report>,
)
    ensures
        ({
            let (session, live) = handled_all(
                (SessionView::fresh(voice_channel_id, channel_id), Set::empty()),
                reports,
            );
            &&& slot_accounts_for(session, live)
            &&& live.finite()
            &&& live.len() <= 1
            &&& reports.len() > 0 && reports.last() is Started ==> live.len() == 0
        }),
    decreases reports.len(),
{
    let start = (SessionView::fresh(voice_channel_id, channel_id), Set::<MessageHandle>::empty());
    if reports.len() == 0 {
        assert(start.1 =~= handles(start.0.shown_message()));
    } else {
        law_at_most_one_status_message(voice_channel_id, channel_id, reports.drop_last());
        let (session, live) = handled_all(start, reports.drop_last());
        law_report_keeps_slot_in_step(session, live, reports.last());
    }
    let (session, live) = handled_all(start, reports);
    lemma_handles_small(session.shown_message());
    if reports.len() > 0 && reports.last() is Started {
        assert(session.shown_message() is None);
    }
}

proof fn lemma_handles_small(message: Option<MessageHandle>)
    ensures
        handles(message).finite(),
        handles(message).len() <= 1,
        message is None ==> handles(message).len() == 0,
{
}

/// No command touches the status message: joining again, routing, queueing,
/// moving on, clearing, pausing and removing all leave the slot as it is.
pub proof fn law_commands_leave_the_slot_alone(
    session: SessionView,
    tracks: Seq<QueuedTrack>,
    voice_channel_id: u64,
    channel_id: u64,
    paused: bool,
    index: int,
)
    ensures
        session.rejoined(voice_channel_id, channel_id).now_playing_embed
            == session.now_playing_embed,
        session.routed_to(channel_id).now_playing_embed == session.now_playing_embed,
        session.enqueue(tracks).now_playing_embed == session.now_playing_embed,
        session.advance().now_playing_embed == session.now_playing_embed,
        session.cleared().now_playing_embed == session.now_playing_embed,
        session.with_pause(paused).now_playing_embed == session.now_playing_embed,
        session.without(index).now_playing_embed == session.now_playing_embed,
{
}

/// The end of a track clears the slot only if the slot shows that track,
/// and then the message to delete is the one that was shown. A report for a
/// track that is neither shown nor current changes nothing at all.
pub proof fn law_stale_end_is_ignored(session: SessionView, track_identifier: Seq<char>)
    ensures
        !session.shows(track_identifier) ==> {
            &&& session.track_ended(track_identifier).now_playing_embed
                == session.now_playing_embed
            &&& session.retired_by_end(track_identifier) is None
        },
        session.shows(track_identifier) ==> {
            &&& session.track_ended(track_identifier).now_playing_embed is None
            &&& session.retired_by_end(track_identifier) == session.shown_message()
        },
        !session.shows(track_identifier) && !session.plays(track_identifier)
            ==> session.track_ended(track_identifier) == session,
{
}

/// A join puts exactly one session for the guild into the store and
/// touches no other guild; a leave takes it out again, so that a second
/// leave finds none.
pub proof fn law_leave_undoes_join(
    sessions: Map<u64, SessionView>,
    guild_id: u64,
    text_channel_id: u64,
    voice_channel_id: u64,
)
    ensures
        joined(sessions, guild_id, text_channel_id, voice_channel_id).contains_key(guild_id),
        joined(sessions, guild_id, text_channel_id, voice_channel_id).dom() == sessions.dom().insert(
            guild_id,
        ),
        forall|other: u64|
            other != guild_id && sessions.contains_key(other) ==> joined(
                sessions,
                guild_id,
                text_channel_id,
                voice_channel_id,
            )[other] == sessions[other],
        !joined(sessions, guild_id, text_channel_id, voice_channel_id).remove(guild_id).contains_key(
            guild_id,
        ),
        joined(sessions, guild_id, text_channel_id, voice_channel_id)[guild_id].channel_id
            == text_channel_id,
        joined(sessions, guild_id, text_channel_id, voice_channel_id)[guild_id].voice_channel_id
            == voice_channel_id,
{
    assert(joined(sessions, guild_id, text_channel_id, voice_channel_id).dom()
        =~= sessions.dom().insert(guild_id));
}

/// A teardown leaves no status message behind: once the caller has deleted
/// the message that the teardown names, none of the session's is live.
pub proof fn law_teardown_leaves_no_status_message(
    session: SessionView,
    live: Set<MessageHandle>,
    grace_period_secs: u64,
)
    requires
        slot_accounts_for(session, live),
    ensures
        after_delete(live, teardown_of(session, grace_period_secs).retire_message)
            == Set::<MessageHandle>::empty(),
        teardown_of(session, grace_period_secs).stop_playback == session.is_playing(),
{
    assert(after_delete(live, teardown_of(session, grace_period_secs).retire_message)
        =~= Set::<MessageHandle>::empty());
}

/// Every transition of a session keeps it settled.
pub proof fn law_sessions_stay_settled(
    session: SessionView,
    tracks: Seq<QueuedTrack>,
    track_identifier: Seq<char>,
    shown_identifier: String,
    message: MessageHandle,
    voice_channel_id: u64,
    channel_id: u64,
    paused: bool,
    index: int,
)
    requires
        session.settled(),
    ensures
        SessionView::fresh(voice_channel_id, channel_id).settled(),
        session.rejoined(voice_channel_id, channel_id).settled(),
        session.routed_to(channel_id).settled(),
        session.enqueue(tracks).advance().settled(),
        session.track_ended(track_identifier).settled(),
        session.cleared().settled(),
        session.with_pause(paused).settled(),
        session.retired().settled(),
        session.showing(shown_identifier, message).settled(),
        0 <= index < session.queue.len() ==> session.without(index).settled(),
{
}

/// While a track is current, a `play` request only queues: no second track
/// is started, and the current one stays.
pub proof fn law_play_starts_one_track(session: SessionView, tracks: Seq<QueuedTrack>)
    ensures
        session.is_playing() ==> {
            &&& session.enqueue(tracks).next_to_start() is None
            &&& session.enqueue(tracks).advance() == session.enqueue(tracks)
            &&& session.enqueue(tracks).advance().current == session.current
            &&& session.enqueue(tracks).advance().queue == session.queue + tracks
        },
        !session.is_playing() && session.settled() && tracks.len() > 0 ==> {
            &&& session.enqueue(tracks).next_to_start() == Some(tracks[0])
            &&& session.enqueue(tracks).advance().current == Some(tracks[0])
            &&& session.enqueue(tracks).advance().queue == tracks.drop_first()
        },
{
    if !session.is_playing() && session.settled() && tracks.len() > 0 {
        assert(session.queue + tracks =~= tracks);
    }
}

} // verus!
