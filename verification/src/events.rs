//! What the outside world reports: tracks that start and end, status
//! messages that were posted, and members who come and go.
//!
//! The functions here are the only ones that fill or empty a session's
//! now-playing slot while the session lives.

use vstd::prelude::*;

use crate::logic::{leave_voice_channel, teardown_of, Teardown};
use crate::models::{MessageHandle, QueuedTrack, VoiceState};
use crate::state::{AudioPlayerState, SessionView};

verus! {

/// Seconds that an automatic leave waits after it stopped playback.
pub const AUTO_LEAVE_GRACE_SECS: u64 = 5;

/// What to do about the status message when a track starts: first delete
/// the old message, then post the new one.
#[derive(Debug, PartialEq, Eq, Clone, Copy, Structural)]
pub struct StatusUpdate {
    /// The message shown until now: delete it before posting.
    pub delete: Option<MessageHandle>,
    /// The text channel to post the new message to.
    pub channel_id: u64,
}

/// What to do when a track has ended.
#[derive(Debug, PartialEq, Eq)]
pub struct TrackEnded {
    /// The status message of the ended track: delete it.
    pub delete: Option<MessageHandle>,
    /// The next track: hand it to the audio server.
    pub start: Option<QueuedTrack>,
}

/// A track started playing. The slot is emptied at once, so the message it
/// held is the caller's to delete, and it is deleted before the new one is
/// posted; the new message is recorded with [`status_posted`]. A guild
/// without a session is left alone.
pub fn track_start(state: &mut AudioPlayerState, guild_id: u64) -> (update: Option<StatusUpdate>)
    ensures
        old(state)@.contains_key(guild_id) ==> {
            &&& update == Some(
                StatusUpdate {
                    delete: old(state)@[guild_id].shown_message(),
                    channel_id: old(state)@[guild_id].channel_id,
                },
            )
            &&& final(state)@ == old(state)@.insert(guild_id, old(state)@[guild_id].retired())
        },
        !old(state)@.contains_key(guild_id) ==> update is None && final(state)@ == old(state)@,
{
    match state.take(guild_id) {
        Some(mut session) => {
            let delete = session.retire();
            let channel_id = session.channel_id();
            state.put(guild_id, session);
            Some(StatusUpdate { delete, channel_id })
        },
        None => {
            assert(state@ =~= old(state)@);
            None
        },
    }
}

/// The status message for track `track_identifier` was posted as `message`.
/// Returns the message to delete: the one that the new message replaces,
/// or the new message itself if the session has ended meanwhile.
pub fn status_posted(
    state: &mut AudioPlayerState,
    guild_id: u64,
    track_identifier: String,
    message: MessageHandle,
) -> (delete: Option<MessageHandle>)
    ensures
        old(state)@.contains_key(guild_id) ==> {
            &&& delete == old(state)@[guild_id].replaced_by(message)
            &&& final(state)@ == old(state)@.insert(
                guild_id,
                old(state)@[guild_id].showing(track_identifier, message),
            )
        },
        !old(state)@.contains_key(guild_id) ==> delete == Some(message) && final(state)@ == old(
            state,
        )@,
{
    match state.take(guild_id) {
        Some(mut session) => {
            let delete = session.show(track_identifier, message);
            state.put(guild_id, session);
            delete
        },
        None => {
            assert(state@ =~= old(state)@);
            Some(message)
        },
    }
}

/// The track `track_identifier` has ended. If the status message shows that
/// track it is retired; if the track is the current one, playback moves on
/// to the front of the queue. A report for any other track, or for a guild
/// without a session, changes nothing.
pub fn track_end(state: &mut AudioPlayerState, guild_id: u64, track_identifier: &str) -> (ended:
    TrackEnded)
    ensures
        old(state)@.contains_key(guild_id) ==> {
            &&& ended.delete == old(state)@[guild_id].retired_by_end(track_identifier@)
            &&& ended.start == old(state)@[guild_id].started_by_end(track_identifier@)
            &&& final(state)@ == old(state)@.insert(
                guild_id,
                old(state)@[guild_id].track_ended(track_identifier@),
            )
            &&& final(state)@[guild_id].settled()
        },
        !old(state)@.contains_key(guild_id) ==> {
            &&& ended.delete is None
            &&& ended.start is None
            &&& final(state)@ == old(state)@
        },
{
    match state.take(guild_id) {
        Some(mut session) => {
            let (delete, start) = session.end_track(track_identifier);
            state.put(guild_id, session);
            TrackEnded { delete, start }
        },
        None => {
            assert(state@ =~= old(state)@);
            TrackEnded { delete: None, start: None }
        },
    }
}

/// A member who listens in `channel_id`: present there, and no bot.
pub open spec fn is_listener(voice_state: VoiceState, channel_id: u64) -> bool {
    voice_state.channel_id == Some(channel_id) && !voice_state.is_bot
}

/// The number of members who listen in `channel_id`.
pub open spec fn listeners(voice_states: Seq<VoiceState>, channel_id: u64) -> nat
    decreases voice_states.len(),
{
    if voice_states.len() == 0 {
        0
    } else {
        listeners(voice_states.drop_last(), channel_id) + if is_listener(
            voice_states.last(),
            channel_id,
        ) {
            1nat
        } else {
            0nat
        }
    }
}

/// Counts the members who listen in `channel_id`.
pub fn count_listeners(voice_states: &Vec<VoiceState>, channel_id: u64) -> (count: usize)
    ensures
        count == listeners(voice_states@, channel_id),
{
    let mut count: usize = 0;
    let mut i: usize = 0;
    assert(voice_states@.take(0) =~= Seq::<VoiceState>::empty());
    while i < voice_states.len()
        invariant
            i <= voice_states@.len(),
            count <= i,
            count == listeners(voice_states@.take(i as int), channel_id),
        decreases voice_states@.len() - i,
    {
        assert(voice_states@.take(i + 1).drop_last() =~= voice_states@.take(i as int));
        let voice_state = &voice_states[i];
        let present = match voice_state.channel_id {
            Some(id) => id == channel_id,
            None => false,
        };
        if present && !voice_state.is_bot {
            count += 1;
        }
        i += 1;
    }
    assert(voice_states@.take(i as int) =~= voice_states@);
    count
}

/// The membership of a guild's voice channels changed. If the guild has a
/// session and nobody listens in its channel any more, the session ends as
/// by a leave, with the longer grace period; else nothing happens.
pub fn handler(state: &mut AudioPlayerState, guild_id: u64, voice_states: &Vec<VoiceState>) -> (teardown:
    Option<Teardown>)
    ensures
        old(state)@.contains_key(guild_id) && listeners(
            voice_states@,
            old(state)@[guild_id].voice_channel_id,
        ) == 0 ==> {
            &&& teardown == Some(teardown_of(old(state)@[guild_id], AUTO_LEAVE_GRACE_SECS))
            &&& final(state)@ == old(state)@.remove(guild_id)
        },
        !(old(state)@.contains_key(guild_id) && listeners(
            voice_states@,
            old(state)@[guild_id].voice_channel_id,
        ) == 0) ==> teardown is None && final(state)@ == old(state)@,
{
    let channel_id = match state.session(guild_id) {
        Some(session) => session.voice_channel_id(),
        None => {
            return None;
        },
    };
    if count_listeners(voice_states, channel_id) > 0 {
        return None;
    }
    match leave_voice_channel(state, guild_id, AUTO_LEAVE_GRACE_SECS) {
        Ok(teardown) => Some(teardown),
        Err(_) => None,
    }
}

/// The audio server came up anew and knows of no player: every session is
/// forgotten.
pub fn ready_event(state: &mut AudioPlayerState)
    ensures
        final(state)@ == Map::<u64, SessionView>::empty(),
{
    state.reset();
}

} // verus!
