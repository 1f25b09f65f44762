//! The session controller: what each user command does to the store, and
//! what it leaves for the caller to carry out.
//!
//! No command performs outside work. Where a command's result calls for a
//! signal to the audio server, its documentation says which.

use vstd::prelude::*;

use crate::errors::{CommandError, JoinError, LeaveError};
use crate::logic::{
    connect_error, join_voice_channel, joined, leave_voice_channel, resolve_target_voice_channel_id,
    set_now_playing_text_channel, target_voice_channel, teardown_of, ConnectOutcome, Teardown,
};
use crate::models::{clone_text, QueuedTrack, Track, TrackUserData, VoiceState};
use crate::render::{create_queue_embed, queue_embed, Embed};
use crate::resolver::LoadResult;
use crate::state::{AudioPlayerState, SessionView};

verus! {

/// Seconds that `leave` waits after it stopped playback.
pub const LEAVE_GRACE_SECS: u64 = 1;

/// Connects a guild: to the channel named, else to the requester's own.
///
/// The caller resolves the target with
/// [`resolve_target_voice_channel_id`], connects, and hands in how that went.
/// Returns the channel joined. A failed connection leaves the store as it
/// was; whether a voice transport is left to take down,
/// [`crate::logic::connect_cleanup`] tells.
pub fn join(
    state: &mut AudioPlayerState,
    guild_id: u64,
    voice_channel: Option<u64>,
    text_channel_id: u64,
    voice_states: &Vec<VoiceState>,
    author_id: u64,
    outcome: ConnectOutcome,
) -> (result: Result<u64, JoinError>)
    ensures
        match target_voice_channel(voice_channel, voice_states@, author_id) {
            None => {
                &&& result == Err::<u64, JoinError>(JoinError::MissingTargetVoiceChannel)
                &&& final(state)@ == old(state)@
            },
            Some(target) => match connect_error(outcome) {
                Some(error) => {
                    &&& result == Err::<u64, JoinError>(error)
                    &&& final(state)@ == old(state)@
                },
                None => {
                    &&& result == Ok::<u64, JoinError>(target)
                    &&& final(state)@ == joined(old(state)@, guild_id, text_channel_id, target)
                },
            },
        },
{
    let target = match resolve_target_voice_channel_id(voice_channel, voice_states, author_id) {
        Ok(target) => target,
        Err(error) => {
            return Err(error);
        },
    };
    match join_voice_channel(state, guild_id, text_channel_id, target, outcome) {
        Ok(()) => Ok(target),
        Err(error) => Err(error),
    }
}

/// Ends a guild's session. The session is gone when this returns; the
/// caller carries out the teardown returned.
pub fn leave(state: &mut AudioPlayerState, guild_id: u64) -> (result: Result<Teardown, LeaveError>)
    ensures
        old(state)@.contains_key(guild_id) ==> result == Ok::<Teardown, LeaveError>(
            teardown_of(old(state)@[guild_id], LEAVE_GRACE_SECS),
        ),
        !old(state)@.contains_key(guild_id) ==> result == Err::<Teardown, LeaveError>(
            LeaveError::NotConnected,
        ),
        final(state)@ == old(state)@.remove(guild_id),
{
    leave_voice_channel(state, guild_id, LEAVE_GRACE_SECS)
}

/// What a `play` request added to the queue.
#[derive(Debug, PartialEq, Eq)]
pub enum Added {
    /// The audio server found nothing.
    Nothing,
    /// One track: its title and address.
    Track { title: String, uri: Option<String> },
    /// A playlist: its name and the number of its tracks.
    Playlist { name: String, count: usize },
}

/// The result of a `play` request.
#[derive(Debug, PartialEq, Eq)]
pub struct PlayReply {
    pub added: Added,
    /// The track to hand to the audio server now, if playback starts.
    pub start: Option<QueuedTrack>,
}

/// The tracks with the request's metadata attached to each.
pub open spec fn stamped(tracks: Seq<Track>, user_data: TrackUserData) -> Seq<QueuedTrack> {
    Seq::new(tracks.len(), |i: int| QueuedTrack { track: tracks[i], user_data })
}

/// What a `play` request reports as added.
pub open spec fn added_by(loaded: LoadResult) -> Added {
    match loaded.playlist_name() {
        Some(name) => Added::Playlist { name, count: loaded.selected().len() as usize },
        None => if loaded.selected().len() > 0 {
            Added::Track { title: loaded.selected()[0].title, uri: loaded.selected()[0].uri }
        } else {
            Added::Nothing
        },
    }
}

/// What a `play` request does first.
#[derive(Debug, PartialEq, Eq, Clone, Copy, Structural)]
pub enum PlayRoute {
    /// Connect to this voice channel: the requester's own.
    Connect(u64),
    /// The requester is in no voice channel, but the guild has a session:
    /// go on with it as it is connected.
    Stay,
    /// The requester is in no voice channel and the guild has no session.
    Refuse,
}

/// What a `play` request does first, from the store and the requester's
/// voice presence.
pub open spec fn play_route(
    sessions: Map<u64, SessionView>,
    guild_id: u64,
    voice_states: Seq<VoiceState>,
    author_id: u64,
) -> PlayRoute {
    match target_voice_channel(None, voice_states, author_id) {
        Some(target) => PlayRoute::Connect(target),
        None => if sessions.contains_key(guild_id) {
            PlayRoute::Stay
        } else {
            PlayRoute::Refuse
        },
    }
}

/// The session that a `play` request queues into, once it is through with
/// connecting: joined anew, or the existing one routed to the request's text
/// channel.
pub open spec fn play_session(
    sessions: Map<u64, SessionView>,
    guild_id: u64,
    text_channel_id: u64,
    route: PlayRoute,
) -> SessionView {
    match route {
        PlayRoute::Connect(target) => joined(sessions, guild_id, text_channel_id, target)[guild_id],
        _ => sessions[guild_id].routed_to(text_channel_id),
    }
}

/// The session of a guild after a `play` request queued what was found,
/// before playback moves on.
pub open spec fn played(
    sessions: Map<u64, SessionView>,
    guild_id: u64,
    text_channel_id: u64,
    route: PlayRoute,
    loaded: LoadResult,
    user_data: TrackUserData,
) -> SessionView {
    play_session(sessions, guild_id, text_channel_id, route).enqueue(
        stamped(loaded.selected(), user_data),
    )
}

/// Tells what a `play` request does first: which channel to connect to, or
/// that the existing session is used as it is, or that the request is
/// refused.
pub fn route_play(
    state: &AudioPlayerState,
    guild_id: u64,
    voice_states: &Vec<VoiceState>,
    author_id: u64,
) -> (route: PlayRoute)
    ensures
        route == play_route(state@, guild_id, voice_states@, author_id),
{
    match resolve_target_voice_channel_id(None, voice_states, author_id) {
        Ok(target) => PlayRoute::Connect(target),
        Err(_) => if state.has_session(guild_id) {
            PlayRoute::Stay
        } else {
            PlayRoute::Refuse
        },
    }
}

fn stamp(tracks: Vec<Track>, user_data: &TrackUserData) -> (queued: Vec<QueuedTrack>)
    ensures
        queued@ == stamped(tracks@, *user_data),
{
    let ghost all = tracks@;
    let mut queued: Vec<QueuedTrack> = Vec::new();
    for track in it: tracks
        invariant
            it.seq() == all,
            queued@ == stamped(all.subrange(0, it.index() as int), *user_data),
    {
        queued.push(QueuedTrack { track, user_data: user_data.clone() });
        assert(queued@ =~= stamped(all.subrange(0, it.index() + 1), *user_data));
    }
    assert(all.subrange(0, all.len() as int) =~= all);
    queued
}

fn describe(tracks: &Vec<Track>, playlist: Option<String>) -> (added: Added)
    ensures
        added == match playlist {
            Some(name) => Added::Playlist { name, count: tracks@.len() as usize },
            None => if tracks@.len() > 0 {
                Added::Track { title: tracks@[0].title, uri: tracks@[0].uri }
            } else {
                Added::Nothing
            },
        },
{
    match playlist {
        Some(name) => Added::Playlist { name, count: tracks.len() },
        None => if tracks.len() > 0 {
            Added::Track { title: tracks[0].title.clone(), uri: clone_text(&tracks[0].uri) }
        } else {
            Added::Nothing
        },
    }
}

/// Queues what the audio server found for a request and starts playback if
/// the session was idle.
///
/// A requester who is in a voice channel takes the session there: the
/// caller connects to the channel that [`route_play`] names and hands in how
/// that went. A requester who is in none can still add to a session that
/// exists; no connection is made then and `outcome` is not looked at.
/// Either way the session is routed to `text_channel_id`, and every track
/// found is stamped with `user_data`. While a track is current, the tracks
/// are only queued: `start` is then `None`.
pub fn play(
    state: &mut AudioPlayerState,
    guild_id: u64,
    text_channel_id: u64,
    voice_states: &Vec<VoiceState>,
    author_id: u64,
    outcome: ConnectOutcome,
    loaded: LoadResult,
    user_data: &TrackUserData,
) -> (result: Result<PlayReply, JoinError>)
    ensures
        ({
            let route = play_route(old(state)@, guild_id, voice_states@, author_id);
            let session = played(
                old(state)@,
                guild_id,
                text_channel_id,
                route,
                loaded,
                *user_data,
            );
            let refusal = match route {
                PlayRoute::Refuse => Some(JoinError::MissingTargetVoiceChannel),
                PlayRoute::Connect(target) => connect_error(outcome),
                PlayRoute::Stay => None,
            };
            match refusal {
                Some(error) => {
                    &&& result == Err::<PlayReply, JoinError>(error)
                    &&& final(state)@ == old(state)@
                },
                None => {
                    &&& result == Ok::<PlayReply, JoinError>(
                        PlayReply { added: added_by(loaded), start: session.next_to_start() },
                    )
                    &&& final(state)@ == old(state)@.insert(guild_id, session.advance())
                    &&& final(state)@[guild_id].settled()
                },
            }
        }),
{
    let route = route_play(state, guild_id, voice_states, author_id);
    match route {
        PlayRoute::Refuse => {
            return Err(JoinError::MissingTargetVoiceChannel);
        },
        PlayRoute::Connect(target) => {
            match join_voice_channel(state, guild_id, text_channel_id, target, outcome) {
                Ok(()) => {},
                Err(error) => {
                    return Err(error);
                },
            }
        },
        PlayRoute::Stay => {
            set_now_playing_text_channel(state, guild_id, text_channel_id);
        },
    }
    let ghost ready = state@;
    assert(ready.contains_key(guild_id));
    assert(ready[guild_id] == play_session(old(state)@, guild_id, text_channel_id, route));
    let (tracks, playlist) = loaded.select();
    let added = describe(&tracks, playlist);
    let queued = stamp(tracks, user_data);
    match state.take(guild_id) {
        Some(mut session) => {
            let start = session.enqueue_and_start(queued);
            state.put(guild_id, session);
            assert(state@ =~= old(state)@.insert(
                guild_id,
                played(old(state)@, guild_id, text_channel_id, route, loaded, *user_data).advance(),
            ));
            Ok(PlayReply { added, start })
        },
        None => {
            proof {
                assert(false);
            }
            Ok(PlayReply { added, start: None })
        },
    }
}

/// The refusal that a playback command meets, if any: no session, or
/// nothing playing.
pub open spec fn playback_refusal(sessions: Map<u64, SessionView>, guild_id: u64) -> Option<
    CommandError,
> {
    if !sessions.contains_key(guild_id) {
        Some(CommandError::NotConnected)
    } else if !sessions[guild_id].is_playing() {
        Some(CommandError::NothingPlaying)
    } else {
        None
    }
}

/// Stops playback: the queue is emptied, and on `Ok` the caller signals the
/// audio server to end the current track.
pub fn stop(state: &mut AudioPlayerState, guild_id: u64) -> (result: Result<(), CommandError>)
    ensures
        match playback_refusal(old(state)@, guild_id) {
            Some(error) => result == Err::<(), CommandError>(error) && final(state)@ == old(
                state,
            )@,
            None => result is Ok && final(state)@ == old(state)@.insert(
                guild_id,
                old(state)@[guild_id].cleared(),
            ),
        },
{
    match state.take(guild_id) {
        None => {
            assert(state@ =~= old(state)@);
            Err(CommandError::NotConnected)
        },
        Some(mut session) => {
            let playing = session.is_playing();
            if playing {
                session.clear_queue();
            }
            state.put(guild_id, session);
            if playing {
                Ok(())
            } else {
                assert(state@ =~= old(state)@);
                Err(CommandError::NothingPlaying)
            }
        },
    }
}

fn set_pause(state: &mut AudioPlayerState, guild_id: u64, paused: bool) -> (result: Result<
    (),
    CommandError,
>)
    ensures
        match playback_refusal(old(state)@, guild_id) {
            Some(error) => result == Err::<(), CommandError>(error) && final(state)@ == old(
                state,
            )@,
            None => result is Ok && final(state)@ == old(state)@.insert(
                guild_id,
                old(state)@[guild_id].with_pause(paused),
            ),
        },
{
    match state.take(guild_id) {
        None => {
            assert(state@ =~= old(state)@);
            Err(CommandError::NotConnected)
        },
        Some(mut session) => {
            let playing = session.is_playing();
            session.set_pause(paused);
            state.put(guild_id, session);
            if playing {
                Ok(())
            } else {
                assert(state@ =~= old(state)@);
                Err(CommandError::NothingPlaying)
            }
        },
    }
}

/// Pauses the current track: on `Ok` the caller tells the audio server to
/// pause.
pub fn pause(state: &mut AudioPlayerState, guild_id: u64) -> (result: Result<(), CommandError>)
    ensures
        match playback_refusal(old(state)@, guild_id) {
            Some(error) => result == Err::<(), CommandError>(error) && final(state)@ == old(
                state,
            )@,
            None => result is Ok && final(state)@ == old(state)@.insert(
                guild_id,
                old(state)@[guild_id].with_pause(true),
            ),
        },
{
    set_pause(state, guild_id, true)
}

/// Resumes the current track: on `Ok` the caller tells the audio server to
/// go on.
pub fn resume(state: &mut AudioPlayerState, guild_id: u64) -> (result: Result<(), CommandError>)
    ensures
        match playback_refusal(old(state)@, guild_id) {
            Some(error) => result == Err::<(), CommandError>(error) && final(state)@ == old(
                state,
            )@,
            None => result is Ok && final(state)@ == old(state)@.insert(
                guild_id,
                old(state)@[guild_id].with_pause(false),
            ),
        },
{
    set_pause(state, guild_id, false)
}

/// The track that a `skip` cut short.
#[derive(Debug, PartialEq, Eq)]
pub struct Skipped {
    pub title: String,
    pub uri: Option<String>,
}

/// Skips the current track: on `Ok` the caller signals the audio server to
/// end it, and the queue moves on when the end is reported. The store is
/// not changed.
pub fn skip(state: &AudioPlayerState, guild_id: u64) -> (result: Result<Skipped, CommandError>)
    ensures
        match playback_refusal(state@, guild_id) {
            Some(error) => result == Err::<Skipped, CommandError>(error),
            None => result == Ok::<Skipped, CommandError>(
                Skipped {
                    title: state@[guild_id].current.unwrap().track.title,
                    uri: state@[guild_id].current.unwrap().track.uri,
                },
            ),
        },
{
    match state.session(guild_id) {
        None => Err(CommandError::NotConnected),
        Some(session) => match session.current() {
            Some(queued) => Ok(
                Skipped { title: queued.track.title.clone(), uri: clone_text(&queued.track.uri) },
            ),
            None => Err(CommandError::NothingPlaying),
        },
    }
}

/// The page of the queue that a request for page number `page` shows,
/// counted from zero: the first page if none was named.
pub open spec fn requested_page(page: Option<usize>) -> usize {
    match page {
        Some(number) if number > 0 => (number - 1) as usize,
        _ => 0,
    }
}

/// One page of the waiting tracks; page numbers count from one, and a page
/// past the end shows the last page.
pub fn list(state: &AudioPlayerState, guild_id: u64, page: Option<usize>) -> (result: Result<
    Embed,
    CommandError,
>)
    ensures
        !state@.contains_key(guild_id) ==> result == Err::<Embed, CommandError>(
            CommandError::NotConnected,
        ),
        state@.contains_key(guild_id) ==> result is Ok && result.unwrap()@ == queue_embed(
            state@[guild_id].queue,
            requested_page(page),
        ),
{
    match state.session(guild_id) {
        None => Err(CommandError::NotConnected),
        Some(session) => {
            let page = match page {
                Some(number) => if number > 0 {
                    number - 1
                } else {
                    0
                },
                None => 0,
            };
            Ok(create_queue_embed(session.queue(), page))
        },
    }
}

/// Takes the track with the given number, counted from one, out of the
/// queue and returns it. A number outside `1..=count` is refused and the
/// queue is left as it was.
pub fn remove(state: &mut AudioPlayerState, guild_id: u64, track_number: usize) -> (result: Result<
    QueuedTrack,
    CommandError,
>)
    ensures
        !old(state)@.contains_key(guild_id) ==> {
            &&& result == Err::<QueuedTrack, CommandError>(CommandError::NotConnected)
            &&& final(state)@ == old(state)@
        },
        old(state)@.contains_key(guild_id) && !(1 <= track_number <= old(
            state,
        )@[guild_id].queue.len()) ==> {
            &&& result == Err::<QueuedTrack, CommandError>(CommandError::InvalidTrackNumber)
            &&& final(state)@ == old(state)@
        },
        old(state)@.contains_key(guild_id) && 1 <= track_number <= old(
            state,
        )@[guild_id].queue.len() ==> {
            &&& result == Ok::<QueuedTrack, CommandError>(
                old(state)@[guild_id].queue[track_number - 1],
            )
            &&& final(state)@ == old(state)@.insert(
                guild_id,
                old(state)@[guild_id].without(track_number - 1),
            )
        },
{
    match state.take(guild_id) {
        None => {
            assert(state@ =~= old(state)@);
            Err(CommandError::NotConnected)
        },
        Some(mut session) => {
            let removed = session.remove_queued(track_number);
            state.put(guild_id, session);
            match removed {
                Some(track) => Ok(track),
                None => {
                    assert(state@ =~= old(state)@);
                    Err(CommandError::InvalidTrackNumber)
                },
            }
        },
    }
}

/// Empties the queue. The current track plays on.
pub fn clear(state: &mut AudioPlayerState, guild_id: u64) -> (result: Result<(), CommandError>)
    ensures
        !old(state)@.contains_key(guild_id) ==> {
            &&& result == Err::<(), CommandError>(CommandError::NotConnected)
            &&& final(state)@ == old(state)@
        },
        old(state)@.contains_key(guild_id) ==> {
            &&& result is Ok
            &&& final(state)@ == old(state)@.insert(guild_id, old(state)@[guild_id].cleared())
        },
{
    match state.take(guild_id) {
        None => {
            assert(state@ =~= old(state)@);
            Err(CommandError::NotConnected)
        },
        Some(mut session) => {
            session.clear_queue();
            state.put(guild_id, session);
            Ok(())
        },
    }
}

} // verus!
