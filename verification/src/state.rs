//! One guild's playback session, and the store that holds the sessions of
//! all guilds.
//!
//! A session is described by its view, [`SessionView`]; every transition is
//! first a function on views and then a method that carries it out.

use std::collections::HashMap;
use vstd::prelude::*;

use crate::models::{MessageHandle, NowPlayingEmbed, PlayerContextData, QueuedTrack};
use crate::queue::Queue;

verus! {

broadcast use vstd::std_specs::hash::group_hash_axioms;

/// What a session is, as plain mathematics.
pub struct SessionView {
    /// The voice channel the session is connected to.
    pub voice_channel_id: u64,
    /// The text channel that status messages go to.
    pub channel_id: u64,
    /// The live status message, if one is shown.
    pub now_playing_embed: Option<NowPlayingEmbed>,
    /// The tracks waiting to be played, front first.
    pub queue: Seq<QueuedTrack>,
    /// The track handed to the audio server, until its end is reported.
    pub current: Option<QueuedTrack>,
    pub paused: bool,
}

impl SessionView {
    /// A session right after it was established: nothing queued, nothing
    /// playing, no status message.
    pub open spec fn fresh(voice_channel_id: u64, channel_id: u64) -> SessionView {
        SessionView {
            voice_channel_id,
            channel_id,
            now_playing_embed: None,
            queue: Seq::empty(),
            current: None,
            paused: false,
        }
    }

    pub open spec fn is_playing(self) -> bool {
        self.current is Some
    }

    /// An idle session has nothing waiting: whenever no track is current,
    /// the queue is empty. Every session that the store holds is settled.
    pub open spec fn settled(self) -> bool {
        self.current is None ==> self.queue.len() == 0
    }

    /// The session now posts to `channel_id`.
    pub open spec fn routed_to(self, channel_id: u64) -> SessionView {
        SessionView { channel_id, ..self }
    }

    /// The session is now connected to `voice_channel_id` and posts to
    /// `channel_id`; queue, playback and status message are kept.
    pub open spec fn rejoined(self, voice_channel_id: u64, channel_id: u64) -> SessionView {
        SessionView { voice_channel_id, channel_id, ..self }
    }

    pub open spec fn enqueue(self, tracks: Seq<QueuedTrack>) -> SessionView {
        SessionView { queue: self.queue + tracks, ..self }
    }

    /// The track that playback moves on to: the front of the queue, provided
    /// that nothing is playing.
    pub open spec fn next_to_start(self) -> Option<QueuedTrack> {
        if self.current is None && self.queue.len() > 0 {
            Some(self.queue[0])
        } else {
            None
        }
    }

    /// Playback moves on: an idle session takes the front of its queue as
    /// its current track; any other session stays as it is.
    pub open spec fn advance(self) -> SessionView {
        match self.next_to_start() {
            Some(track) => SessionView {
                current: Some(track),
                queue: self.queue.drop_first(),
                ..self
            },
            None => self,
        }
    }

    /// The status message shows the track with this identifier.
    pub open spec fn shows(self, identifier: Seq<char>) -> bool {
        self.now_playing_embed matches Some(embed) && embed.track_identifier@ == identifier
    }

    /// The current track has this identifier.
    pub open spec fn plays(self, identifier: Seq<char>) -> bool {
        self.current matches Some(queued) && queued.track.identifier@ == identifier
    }

    /// The handle of the status message shown, if any.
    pub open spec fn shown_message(self) -> Option<MessageHandle> {
        match self.now_playing_embed {
            Some(embed) => Some(embed.message),
            None => None,
        }
    }

    /// The slot is emptied.
    pub open spec fn retired(self) -> SessionView {
        SessionView { now_playing_embed: None, ..self }
    }

    /// The slot now holds `message` for the track `identifier`.
    pub open spec fn showing(self, identifier: String, message: MessageHandle) -> SessionView {
        SessionView {
            now_playing_embed: Some(NowPlayingEmbed { track_identifier: identifier, message }),
            ..self
        }
    }

    /// The message that a newly posted `message` replaces: the one shown, if
    /// it is another message.
    pub open spec fn replaced_by(self, message: MessageHandle) -> Option<MessageHandle> {
        match self.now_playing_embed {
            Some(embed) if embed.message != message => Some(embed.message),
            _ => None,
        }
    }

    /// The message to delete when the end of track `identifier` is reported:
    /// the one shown, if it shows that track.
    pub open spec fn retired_by_end(self, identifier: Seq<char>) -> Option<MessageHandle> {
        if self.shows(identifier) {
            self.shown_message()
        } else {
            None
        }
    }

    /// The track to start when the end of track `identifier` is reported: the
    /// front of the queue, if the ended track is the current one.
    pub open spec fn started_by_end(self, identifier: Seq<char>) -> Option<QueuedTrack> {
        if self.plays(identifier) && self.queue.len() > 0 {
            Some(self.queue[0])
        } else {
            None
        }
    }

    /// The session after the end of track `identifier` was reported. A
    /// report for a track that is neither shown nor current changes nothing.
    pub open spec fn track_ended(self, identifier: Seq<char>) -> SessionView {
        let slot = if self.shows(identifier) {
            None
        } else {
            self.now_playing_embed
        };
        if self.plays(identifier) {
            SessionView { now_playing_embed: slot, current: None, ..self }.advance()
        } else {
            SessionView { now_playing_embed: slot, ..self }
        }
    }

    /// The queue is emptied; the current track is left alone.
    pub open spec fn cleared(self) -> SessionView {
        SessionView { queue: Seq::empty(), ..self }
    }

    /// The pause flag is set to `paused`, while playing only.
    pub open spec fn with_pause(self, paused: bool) -> SessionView {
        if self.is_playing() {
            SessionView { paused, ..self }
        } else {
            self
        }
    }

    /// The queue without its entry at `index`, counted from zero.
    pub open spec fn without(self, index: int) -> SessionView {
        SessionView { queue: self.queue.remove(index), ..self }
    }
}

/// One guild's live playback state.
#[derive(Debug, PartialEq, Eq)]
pub struct PlayerSession {
    voice_channel_id: u64,
    data: PlayerContextData,
    queue: Queue,
    current: Option<QueuedTrack>,
    paused: bool,
}

impl View for PlayerSession {
    type V = SessionView;

    closed spec fn view(&self) -> SessionView {
        SessionView {
            voice_channel_id: self.voice_channel_id,
            channel_id: self.data.channel_id,
            now_playing_embed: self.data.now_playing_embed,
            queue: self.queue@,
            current: self.current,
            paused: self.paused,
        }
    }
}

impl PlayerSession {
    #[verifier::type_invariant]
    spec fn idle_means_empty(self) -> bool {
        self.current is None ==> self.queue@.len() == 0
    }

    pub fn new(voice_channel_id: u64, channel_id: u64) -> (session: PlayerSession)
        ensures
            session@ == SessionView::fresh(voice_channel_id, channel_id),
    {
        PlayerSession {
            voice_channel_id,
            data: PlayerContextData { channel_id, now_playing_embed: None },
            queue: Queue::new(),
            current: None,
            paused: false,
        }
    }

    pub fn voice_channel_id(&self) -> (id: u64)
        ensures
            id == self@.voice_channel_id,
    {
        self.voice_channel_id
    }

    /// The text channel that status messages go to.
    pub fn channel_id(&self) -> (id: u64)
        ensures
            id == self@.channel_id,
    {
        self.data.channel_id
    }

    pub fn now_playing_embed(&self) -> (embed: &Option<NowPlayingEmbed>)
        ensures
            *embed == self@.now_playing_embed,
    {
        &self.data.now_playing_embed
    }

    pub fn queue(&self) -> (queue: &Queue)
        ensures
            queue@ == self@.queue,
            self@.settled(),
    {
        proof {
            use_type_invariant(self);
        }
        &self.queue
    }

    /// The track handed to the audio server, if its end was not reported yet.
    pub fn current(&self) -> (current: &Option<QueuedTrack>)
        ensures
            *current == self@.current,
            self@.settled(),
    {
        proof {
            use_type_invariant(self);
        }
        &self.current
    }

    pub fn is_playing(&self) -> (playing: bool)
        ensures
            playing == self@.is_playing(),
    {
        self.current.is_some()
    }

    pub fn is_paused(&self) -> (paused: bool)
        ensures
            paused == self@.paused,
    {
        self.paused
    }

    pub(crate) fn set_channel(&mut self, channel_id: u64)
        ensures
            final(self)@ == old(self)@.routed_to(channel_id),
    {
        proof {
            use_type_invariant(&*self);
        }
        self.data.channel_id = channel_id;
    }

    pub(crate) fn rejoin(&mut self, voice_channel_id: u64, channel_id: u64)
        ensures
            final(self)@ == old(self)@.rejoined(voice_channel_id, channel_id),
    {
        proof {
            use_type_invariant(&*self);
        }
        self.voice_channel_id = voice_channel_id;
        self.data.channel_id = channel_id;
    }

    /// Takes the queue out of the session, leaving an empty one, so that it
    /// can be changed and put back in one step.
    fn take_queue(&mut self) -> (queue: Queue)
        ensures
            queue@ == old(self)@.queue,
            final(self)@ == old(self)@.cleared(),
    {
        let mut queue = Queue::new();
        std::mem::swap(&mut self.queue, &mut queue);
        queue
    }

    /// Queues the tracks and, if the session is idle, moves playback on to
    /// the first of them. Returns the track to hand to the audio server.
    pub(crate) fn enqueue_and_start(&mut self, tracks: Vec<QueuedTrack>) -> (started: Option<
        QueuedTrack,
    >)
        ensures
            final(self)@ == old(self)@.enqueue(tracks@).advance(),
            started == old(self)@.enqueue(tracks@).next_to_start(),
    {
        proof {
            use_type_invariant(&*self);
        }
        let mut queue = self.take_queue();
        queue.append(tracks);
        let started = if self.current.is_some() {
            None
        } else {
            assert(old(self)@.queue + tracks@ =~= tracks@);
            match queue.pop_front() {
                Some(first) => {
                    let started = first.clone();
                    self.current = Some(first);
                    Some(started)
                },
                None => None,
            }
        };
        self.queue = queue;
        started
    }

    /// Empties the slot and returns the handle of the message it held.
    pub(crate) fn retire(&mut self) -> (message: Option<MessageHandle>)
        ensures
            final(self)@ == old(self)@.retired(),
            message == old(self)@.shown_message(),
    {
        proof {
            use_type_invariant(&*self);
        }
        let message = match &self.data.now_playing_embed {
            Some(embed) => Some(embed.message),
            None => None,
        };
        self.data.now_playing_embed = None;
        message
    }

    /// Records a posted status message, and returns the handle of the
    /// message it replaces.
    pub(crate) fn show(&mut self, identifier: String, message: MessageHandle) -> (replaced: Option<
        MessageHandle,
    >)
        ensures
            final(self)@ == old(self)@.showing(identifier, message),
            replaced == old(self)@.replaced_by(message),
    {
        proof {
            use_type_invariant(&*self);
        }
        let replaced = match &self.data.now_playing_embed {
            Some(embed) => {
                if embed.message.channel_id != message.channel_id || embed.message.message_id
                    != message.message_id {
                    Some(embed.message)
                } else {
                    None
                }
            },
            None => None,
        };
        self.data.now_playing_embed = Some(NowPlayingEmbed { track_identifier: identifier, message });
        replaced
    }

    fn shows(&self, identifier: &str) -> (shows: bool)
        ensures
            shows == self@.shows(identifier@),
    {
        match &self.data.now_playing_embed {
            Some(embed) => crate::text::same_text(embed.track_identifier.as_str(), identifier),
            None => false,
        }
    }

    fn plays(&self, identifier: &str) -> (plays: bool)
        ensures
            plays == self@.plays(identifier@),
    {
        match &self.current {
            Some(queued) => crate::text::same_text(queued.track.identifier.as_str(), identifier),
            None => false,
        }
    }

    /// Takes note that the track `identifier` has ended. Returns the status
    /// message to delete and the track to start, if any.
    pub(crate) fn end_track(&mut self, identifier: &str) -> (outcome: (
        Option<MessageHandle>,
        Option<QueuedTrack>,
    ))
        ensures
            final(self)@ == old(self)@.track_ended(identifier@),
            outcome.0 == old(self)@.retired_by_end(identifier@),
            outcome.1 == old(self)@.started_by_end(identifier@),
    {
        proof {
            use_type_invariant(&*self);
        }
        let retired = if self.shows(identifier) {
            self.retire()
        } else {
            None
        };
        let started = if self.plays(identifier) {
            let mut queue = self.take_queue();
            let next = queue.pop_front();
            let started = match &next {
                Some(track) => Some(track.clone()),
                None => None,
            };
            self.current = next;
            self.queue = queue;
            started
        } else {
            None
        };
        (retired, started)
    }

    pub(crate) fn clear_queue(&mut self)
        ensures
            final(self)@ == old(self)@.cleared(),
    {
        self.queue = Queue::new();
    }

    pub(crate) fn set_pause(&mut self, paused: bool)
        ensures
            final(self)@ == old(self)@.with_pause(paused),
    {
        proof {
            use_type_invariant(&*self);
        }
        if self.current.is_some() {
            self.paused = paused;
        }
    }

    pub(crate) fn remove_queued(&mut self, track_number: usize) -> (removed: Option<QueuedTrack>)
        ensures
            1 <= track_number <= old(self)@.queue.len() ==> {
                &&& removed == Some(old(self)@.queue[track_number - 1])
                &&& final(self)@ == old(self)@.without(track_number - 1)
            },
            !(1 <= track_number <= old(self)@.queue.len()) ==> {
                &&& removed is None
                &&& final(self)@ == old(self)@
            },
    {
        proof {
            use_type_invariant(&*self);
        }
        let mut queue = self.take_queue();
        let removed = match queue.remove(track_number) {
            Ok(track) => Some(track),
            Err(_) => None,
        };
        self.queue = queue;
        removed
    }
}

/// The sessions of all guilds, by guild identifier: the one place that says
/// whether a guild is connected.
#[derive(Debug)]
pub struct AudioPlayerState {
    sessions: HashMap<u64, PlayerSession>,
}

impl View for AudioPlayerState {
    type V = Map<u64, SessionView>;

    closed spec fn view(&self) -> Map<u64, SessionView> {
        Map::new(|guild_id: u64| self.sessions@.contains_key(guild_id), |guild_id: u64|
            self.sessions@[guild_id]@)
    }
}

impl AudioPlayerState {
    /// A store without sessions.
    pub fn new() -> (state: AudioPlayerState)
        ensures
            state@ == Map::<u64, SessionView>::empty(),
    {
        let state = AudioPlayerState { sessions: HashMap::new() };
        assert(state@ =~= Map::<u64, SessionView>::empty());
        state
    }

    pub fn has_session(&self, guild_id: u64) -> (present: bool)
        ensures
            present == self@.contains_key(guild_id),
    {
        self.sessions.contains_key(&guild_id)
    }

    /// The number of guilds with a session.
    pub fn session_count(&self) -> (count: usize)
        ensures
            count == self@.dom().len(),
    {
        assert(self@.dom() =~= self.sessions@.dom());
        self.sessions.len()
    }

    pub fn session(&self, guild_id: u64) -> (found: Option<&PlayerSession>)
        ensures
            self@.contains_key(guild_id) ==> found is Some && found.unwrap()@ == self@[guild_id],
            !self@.contains_key(guild_id) ==> found is None,
            found is Some ==> found.unwrap()@.settled(),
    {
        let found = self.sessions.get(&guild_id);
        proof {
            if let Some(session) = found {
                use_type_invariant(session);
            }
        }
        found
    }

    /// Takes a guild's session out of the store.
    pub(crate) fn take(&mut self, guild_id: u64) -> (taken: Option<PlayerSession>)
        ensures
            old(self)@.contains_key(guild_id) ==> taken is Some && taken.unwrap()@ == old(
                self,
            )@[guild_id],
            !old(self)@.contains_key(guild_id) ==> taken is None,
            final(self)@ == old(self)@.remove(guild_id),
    {
        let taken = self.sessions.remove(&guild_id);
        assert(self@ =~= old(self)@.remove(guild_id));
        taken
    }

    /// Puts a session into the store, in place of the guild's earlier one.
    pub(crate) fn put(&mut self, guild_id: u64, session: PlayerSession)
        ensures
            final(self)@ == old(self)@.insert(guild_id, session@),
            session@.settled(),
    {
        proof {
            use_type_invariant(&session);
        }
        self.sessions.insert(guild_id, session);
        assert(self@ =~= old(self)@.insert(guild_id, session@));
    }

    /// Forgets every session.
    pub(crate) fn reset(&mut self)
        ensures
            final(self)@ == Map::<u64, SessionView>::empty(),
    {
        self.sessions.clear();
        assert(self@ =~= Map::<u64, SessionView>::empty());
    }
}

} // verus!
