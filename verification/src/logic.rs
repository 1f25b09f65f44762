//! Establishing and tearing down sessions.

use vstd::prelude::*;

use crate::errors::{JoinError, LeaveError, SongbirdError};
use crate::models::{MessageHandle, VoiceState};
use crate::state::{AudioPlayerState, PlayerSession, SessionView};

verus! {

/// How the two outside steps of a join went: first the voice transport,
/// then, only if that succeeded, the audio server's player.
#[derive(Debug, PartialEq, Eq)]
pub enum ConnectOutcome {
    /// Both steps succeeded.
    Connected,
    /// The voice transport failed; the audio server was not asked.
    GatewayFailed(String),
    /// The voice transport is up, the audio server refused.
    PlayerFailed(String),
}

/// The outside work that ends a session, in the order to perform it: stop
/// playback and wait, delete the status message, then destroy the audio
/// server's player and disconnect the voice transport.
#[derive(Debug, PartialEq, Eq, Clone, Copy, Structural)]
pub struct Teardown {
    /// Playback was on: signal the audio server to stop.
    pub stop_playback: bool,
    /// Seconds to wait after the stop signal; 0 if nothing was playing.
    pub grace_period_secs: u64,
    /// The status message that was still shown: delete it.
    pub retire_message: Option<MessageHandle>,
}

/// The voice channel of a member: that of the first entry for the member.
pub open spec fn member_channel(voice_states: Seq<VoiceState>, user_id: u64) -> Option<u64>
    decreases voice_states.len(),
{
    if voice_states.len() == 0 {
        None
    } else if voice_states[0].user_id == user_id {
        voice_states[0].channel_id
    } else {
        member_channel(voice_states.drop_first(), user_id)
    }
}

/// The channel a join goes to: the one named, else the requester's own.
pub open spec fn target_voice_channel(
    voice_channel: Option<u64>,
    voice_states: Seq<VoiceState>,
    author_id: u64,
) -> Option<u64> {
    match voice_channel {
        Some(id) => Some(id),
        None => member_channel(voice_states, author_id),
    }
}

fn find_member_channel(voice_states: &Vec<VoiceState>, user_id: u64) -> (found: Option<u64>)
    ensures
        found == member_channel(voice_states@, user_id),
{
    let mut i: usize = 0;
    assert(voice_states@.skip(0) =~= voice_states@);
    while i < voice_states.len()
        invariant
            i <= voice_states@.len(),
            member_channel(voice_states@, user_id) == member_channel(
                voice_states@.skip(i as int),
                user_id,
            ),
        decreases voice_states@.len() - i,
    {
        let ghost rest = voice_states@.skip(i as int);
        assert(rest[0] == voice_states@[i as int]);
        assert(rest.drop_first() =~= voice_states@.skip(i + 1));
        if voice_states[i].user_id == user_id {
            return voice_states[i].channel_id;
        }
        i += 1;
    }
    assert(voice_states@.skip(i as int).len() == 0);
    None
}

pub fn resolve_target_voice_channel_id(
    voice_channel: Option<u64>,
    voice_states: &Vec<VoiceState>,
    author_id: u64,
) -> (target: Result<u64, JoinError>)
    ensures
        match target_voice_channel(voice_channel, voice_states@, author_id) {
            Some(id) => target == Ok::<u64, JoinError>(id),
            None => target == Err::<u64, JoinError>(JoinError::MissingTargetVoiceChannel),
        },
{
    if let Some(id) = voice_channel {
        return Ok(id);
    }
    match find_member_channel(voice_states, author_id) {
        Some(id) => Ok(id),
        None => Err(JoinError::MissingTargetVoiceChannel),
    }
}

/// The store after a guild joined: a guild without a session gets a fresh
/// one; a guild with a session keeps it, moved to the new channels.
pub open spec fn joined(
    sessions: Map<u64, SessionView>,
    guild_id: u64,
    text_channel_id: u64,
    voice_channel_id: u64,
) -> Map<u64, SessionView> {
    if sessions.contains_key(guild_id) {
        sessions.insert(guild_id, sessions[guild_id].rejoined(voice_channel_id, text_channel_id))
    } else {
        sessions.insert(guild_id, SessionView::fresh(voice_channel_id, text_channel_id))
    }
}

/// The error that a failed connection is reported as.
pub open spec fn connect_error(outcome: ConnectOutcome) -> Option<JoinError> {
    match outcome {
        ConnectOutcome::Connected => None,
        ConnectOutcome::GatewayFailed(detail) => Some(
            JoinError::SongbirdError(SongbirdError::JoinError(detail)),
        ),
        ConnectOutcome::PlayerFailed(detail) => Some(JoinError::LavalinkError(detail)),
    }
}

/// Records the outcome of connecting a guild to a voice channel. On success
/// the guild has exactly one session, routed to `text_channel_id`; on failure
/// the store is left as it was.
pub fn join_voice_channel(
    state: &mut AudioPlayerState,
    guild_id: u64,
    text_channel_id: u64,
    voice_channel_id: u64,
    outcome: ConnectOutcome,
) -> (result: Result<(), JoinError>)
    ensures
        match connect_error(outcome) {
            None => {
                &&& result is Ok
                &&& final(state)@ == joined(
                    old(state)@,
                    guild_id,
                    text_channel_id,
                    voice_channel_id,
                )
                &&& final(state)@[guild_id].settled()
            },
            Some(error) => result == Err::<(), JoinError>(error) && final(state)@ == old(state)@,
        },
{
    match outcome {
        ConnectOutcome::Connected => {
            let session = match state.take(guild_id) {
                Some(mut session) => {
                    session.rejoin(voice_channel_id, text_channel_id);
                    session
                },
                None => PlayerSession::new(voice_channel_id, text_channel_id),
            };
            state.put(guild_id, session);
            assert(state@ =~= joined(old(state)@, guild_id, text_channel_id, voice_channel_id));
            Ok(())
        },
        ConnectOutcome::GatewayFailed(detail) => Err(
            JoinError::SongbirdError(SongbirdError::JoinError(detail)),
        ),
        ConnectOutcome::PlayerFailed(detail) => Err(JoinError::LavalinkError(detail)),
    }
}

/// Tells whether a voice transport has to be taken down again after a
/// connection attempt: it is up with nothing to use it when the audio server
/// refused and the guild has no session. Ask before the outcome is handed to
/// `join` or `play`, and disconnect afterwards if the answer is yes.
pub fn connect_cleanup(state: &AudioPlayerState, guild_id: u64, outcome: &ConnectOutcome) -> (disconnect:
    bool)
    ensures
        disconnect == (*outcome is PlayerFailed && !state@.contains_key(guild_id)),
{
    match outcome {
        ConnectOutcome::PlayerFailed(_) => !state.has_session(guild_id),
        _ => false,
    }
}

/// The outside work that ends the session `session`.
pub open spec fn teardown_of(session: SessionView, grace_period_secs: u64) -> Teardown {
    Teardown {
        stop_playback: session.is_playing(),
        grace_period_secs: if session.is_playing() {
            grace_period_secs
        } else {
            0
        },
        retire_message: session.shown_message(),
    }
}

/// Ends a guild's session: the session leaves the store at once, and the
/// outside work that remains is returned. A guild without a session is
/// refused with `NotConnected`.
pub fn leave_voice_channel(state: &mut AudioPlayerState, guild_id: u64, grace_period_secs: u64) -> (result:
    Result<Teardown, LeaveError>)
    ensures
        old(state)@.contains_key(guild_id) ==> result == Ok::<Teardown, LeaveError>(
            teardown_of(old(state)@[guild_id], grace_period_secs),
        ),
        !old(state)@.contains_key(guild_id) ==> result == Err::<Teardown, LeaveError>(
            LeaveError::NotConnected,
        ),
        final(state)@ == old(state)@.remove(guild_id),
{
    match state.take(guild_id) {
        Some(mut session) => {
            let playing = session.is_playing();
            let retire_message = session.retire();
            Ok(
                Teardown {
                    stop_playback: playing,
                    grace_period_secs: if playing {
                        grace_period_secs
                    } else {
                        0
                    },
                    retire_message,
                },
            )
        },
        None => Err(LeaveError::NotConnected),
    }
}

/// The error to report after the outside teardown, from the reports of the
/// audio server and of the voice transport. Both were attempted; the audio
/// server's failure is reported first.
pub open spec fn teardown_error(audio_server: Option<String>, transport: Option<String>) -> Option<
    LeaveError,
> {
    match (audio_server, transport) {
        (Some(detail), _) => Some(LeaveError::LavalinkError(detail)),
        (None, Some(detail)) => Some(LeaveError::SongbirdError(SongbirdError::JoinError(detail))),
        (None, None) => None,
    }
}

/// Turns the failure reports of the outside teardown into the command's
/// result; `None` stands for a step that succeeded.
pub fn finish_leave(audio_server: Option<String>, transport: Option<String>) -> (result: Result<
    (),
    LeaveError,
>)
    ensures
        match teardown_error(audio_server, transport) {
            Some(error) => result == Err::<(), LeaveError>(error),
            None => result is Ok,
        },
{
    match audio_server {
        Some(detail) => Err(LeaveError::LavalinkError(detail)),
        None => match transport {
            Some(detail) => Err(LeaveError::SongbirdError(SongbirdError::JoinError(detail))),
            None => Ok(()),
        },
    }
}

/// Routes a session's status messages to another text channel. A guild
/// without a session is left alone.
pub fn set_now_playing_text_channel(state: &mut AudioPlayerState, guild_id: u64, text_channel_id: u64)
    ensures
        old(state)@.contains_key(guild_id) ==> final(state)@ == old(state)@.insert(
            guild_id,
            old(state)@[guild_id].routed_to(text_channel_id),
        ),
        !old(state)@.contains_key(guild_id) ==> final(state)@ == old(state)@,
{
    match state.take(guild_id) {
        Some(mut session) => {
            session.set_channel(text_channel_id);
            state.put(guild_id, session);
            assert(state@ =~= old(state)@.insert(
                guild_id,
                old(state)@[guild_id].routed_to(text_channel_id),
            ));
        },
        None => {
            assert(state@ =~= old(state)@);
        },
    }
}

} // verus!
