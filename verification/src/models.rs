//! The data a session works on: tracks, request metadata, voice presence and
//! the handle of the status message.

use vstd::prelude::*;

use crate::text::same_text;

verus! {

/// Where a track comes from.
#[derive(Debug, PartialEq, Eq, Clone, Copy, Structural)]
pub enum Source {
    Youtube,
    Spotify,
    Soundcloud,
    Twitch,
    Other,
}

impl Source {
    /// The source that the audio server's source name stands for.
    pub open spec fn of_name(name: Seq<char>) -> Source {
        if name == "youtube"@ {
            Source::Youtube
        } else if name == "spotify"@ {
            Source::Spotify
        } else if name == "soundcloud"@ {
            Source::Soundcloud
        } else if name == "twitch"@ {
            Source::Twitch
        } else {
            Source::Other
        }
    }

    /// The brand colour as `0xRRGGBB`; `Other` has none and gets 0.
    pub open spec fn rgb(self) -> u32 {
        match self {
            Source::Youtube => 0xff0000,
            Source::Spotify => 0x1ed760,
            Source::Soundcloud => 0xff5500,
            Source::Twitch => 0x9147ff,
            Source::Other => 0,
        }
    }

    /// The address of the brand icon.
    pub open spec fn icon(self) -> Seq<char> {
        match self {
            Source::Youtube => "https://cdn.brandfetch.io/idVfYwcuQz/w/400/h/400/theme/dark/icon.jpeg?c=1dxbfHSJFAPEGdCLU4o5B"@,
            Source::Spotify => "https://cdn.brandfetch.io/id20mQyGeY/w/400/h/400/theme/dark/icon.jpeg?c=1dxbfHSJFAPEGdCLU4o5B"@,
            Source::Soundcloud => "https://cdn.brandfetch.io/id3ytDFop3/w/400/h/400/theme/dark/icon.jpeg?c=1dxbfHSJFAPEGdCLU4o5B"@,
            Source::Twitch => "https://cdn.brandfetch.io/idIwZCwD2f/w/400/h/400/theme/dark/icon.jpeg?c=1dxbfHSJFAPEGdCLU4o5B"@,
            Source::Other => "https://cdn3.iconfinder.com/data/icons/iconpark-vol-2/48/play-256.png"@,
        }
    }

    pub fn from_source_name(name: String) -> (source: Source)
        ensures
            source == Source::of_name(name@),
    {
        let name = name.as_str();
        if same_text(name, "youtube") {
            Source::Youtube
        } else if same_text(name, "spotify") {
            Source::Spotify
        } else if same_text(name, "soundcloud") {
            Source::Soundcloud
        } else if same_text(name, "twitch") {
            Source::Twitch
        } else {
            Source::Other
        }
    }

    pub fn color(&self) -> (rgb: u32)
        ensures
            rgb == self.rgb(),
    {
        match self {
            Source::Youtube => 0xff0000,
            Source::Spotify => 0x1ed760,
            Source::Soundcloud => 0xff5500,
            Source::Twitch => 0x9147ff,
            Source::Other => 0,
        }
    }

    pub fn icon_url(&self) -> (url: &'static str)
        ensures
            url@ == self.icon(),
    {
        match self {
            Source::Youtube => "https://cdn.brandfetch.io/idVfYwcuQz/w/400/h/400/theme/dark/icon.jpeg?c=1dxbfHSJFAPEGdCLU4o5B",
            Source::Spotify => "https://cdn.brandfetch.io/id20mQyGeY/w/400/h/400/theme/dark/icon.jpeg?c=1dxbfHSJFAPEGdCLU4o5B",
            Source::Soundcloud => "https://cdn.brandfetch.io/id3ytDFop3/w/400/h/400/theme/dark/icon.jpeg?c=1dxbfHSJFAPEGdCLU4o5B",
            Source::Twitch => "https://cdn.brandfetch.io/idIwZCwD2f/w/400/h/400/theme/dark/icon.jpeg?c=1dxbfHSJFAPEGdCLU4o5B",
            Source::Other => "https://cdn3.iconfinder.com/data/icons/iconpark-vol-2/48/play-256.png",
        }
    }
}

/// Copies an optional text.
pub fn clone_text(text: &Option<String>) -> (copy: Option<String>)
    ensures
        copy == *text,
{
    match text {
        Some(t) => Some(t.clone()),
        None => None,
    }
}

/// A playable item as the audio server describes it.
#[derive(Debug, PartialEq, Eq)]
pub struct Track {
    /// The opaque form the audio server plays from.
    pub encoded: String,
    /// Identifies the track within its source.
    pub identifier: String,
    pub title: String,
    pub author: String,
    pub source: Source,
    pub uri: Option<String>,
    pub artwork_url: Option<String>,
    /// Duration in milliseconds; meaningless for a live stream.
    pub length: u64,
    pub is_stream: bool,
}

impl Clone for Track {
    fn clone(&self) -> (copy: Self)
        ensures
            copy == *self,
    {
        Track {
            encoded: self.encoded.clone(),
            identifier: self.identifier.clone(),
            title: self.title.clone(),
            author: self.author.clone(),
            source: self.source,
            uri: clone_text(&self.uri),
            artwork_url: clone_text(&self.artwork_url),
            length: self.length,
            is_stream: self.is_stream,
        }
    }
}

/// Who asked for a track, and when.
#[derive(Debug, PartialEq, Eq)]
pub struct TrackUserData {
    pub requester_name: String,
    pub requester_avatar_url: String,
    /// Milliseconds since the Unix epoch, UTC.
    pub request_timestamp: i64,
}

impl Clone for TrackUserData {
    fn clone(&self) -> (copy: Self)
        ensures
            copy == *self,
    {
        TrackUserData {
            requester_name: self.requester_name.clone(),
            requester_avatar_url: self.requester_avatar_url.clone(),
            request_timestamp: self.request_timestamp,
        }
    }
}

/// A track together with the request that put it in a queue.
#[derive(Debug, PartialEq, Eq)]
pub struct QueuedTrack {
    pub track: Track,
    pub user_data: TrackUserData,
}

impl Clone for QueuedTrack {
    fn clone(&self) -> (copy: Self)
        ensures
            copy == *self,
    {
        QueuedTrack { track: self.track.clone(), user_data: self.user_data.clone() }
    }
}

/// One member's voice presence in a guild.
#[derive(Debug, PartialEq, Eq, Clone, Copy, Structural)]
pub struct VoiceState {
    pub user_id: u64,
    /// The voice channel the member is in, if any.
    pub channel_id: Option<u64>,
    pub is_bot: bool,
}

/// Names a posted message: enough to delete it later.
#[derive(Debug, PartialEq, Eq, Clone, Copy, Structural)]
pub struct MessageHandle {
    pub channel_id: u64,
    pub message_id: u64,
}

/// The live status message and the track it shows.
#[derive(Debug, PartialEq, Eq)]
pub struct NowPlayingEmbed {
    pub track_identifier: String,
    pub message: MessageHandle,
}

/// What a session knows besides its queue: where it posts, and the status
/// message it currently shows, if any.
#[derive(Debug, PartialEq, Eq)]
pub struct PlayerContextData {
    /// The text channel that status messages go to.
    pub channel_id: u64,
    pub now_playing_embed: Option<NowPlayingEmbed>,
}

} // verus!
