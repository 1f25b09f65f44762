//! Turning what a user typed into what the audio server is asked, and what
//! the audio server answered into tracks.

use lavalink_rs::error::LavalinkError;
use lavalink_rs::model::search::SearchEngines;
use vstd::prelude::*;

use crate::models::Track;
use crate::text::{is_prefix, starts_with};

verus! {

/// The audio server's error type.
#[verifier::external_type_specification]
#[verifier::external_body]
pub struct ExLavalinkError(LavalinkError);

/// The search engines that need no plugin.
#[derive(Debug, PartialEq, Eq, Clone, Copy, Structural)]
pub enum SearchEngine {
    YouTube,
    YouTubeMusic,
    SoundCloud,
}

/// A query could not be put into the audio server's form.
#[derive(Debug, PartialEq, Eq, Clone, Copy, Structural)]
pub enum ResolveError {
    InvalidQuery,
}

impl SearchEngine {
    /// The word that selects the engine in a search query.
    pub open spec fn prefix(self) -> Seq<char> {
        match self {
            SearchEngine::YouTube => "ytsearch"@,
            SearchEngine::YouTubeMusic => "ytmsearch"@,
            SearchEngine::SoundCloud => "scsearch"@,
        }
    }

    /// The search query for `query`: the engine's word, a colon, and the
    /// text as typed.
    pub open spec fn query_text(self, query: Seq<char>) -> Seq<char> {
        self.prefix() + seq![':'] + query
    }
}

/// `lavalink_rs::model::search::SearchEngines::to_query` for the three
/// engines above. Trusted: for these engines the call always succeeds and
/// formats the engine's word, a colon and the query, unchanged.
#[verifier::external_body]
fn engine_query(engine: SearchEngine, query: &str) -> (result: Result<String, LavalinkError>)
    ensures
        result is Ok,
        result->Ok_0@ == engine.query_text(query@),
{
    let engine = match engine {
        SearchEngine::YouTube => SearchEngines::YouTube,
        SearchEngine::YouTubeMusic => SearchEngines::YouTubeMusic,
        SearchEngine::SoundCloud => SearchEngines::SoundCloud,
    };
    engine.to_query(query)
}

/// The query that asks `engine` for `query`.
pub fn search_query(engine: SearchEngine, query: &str) -> (result: Result<String, ResolveError>)
    ensures
        result matches Ok(text) && text@ == engine.query_text(query@),
{
    match engine_query(engine, query) {
        Ok(text) => Ok(text),
        Err(_) => Err(ResolveError::InvalidQuery),
    }
}

/// What the audio server is asked for a `play` request: an address is
/// passed through, anything else becomes a YouTube search.
pub open spec fn resolved_query(query: Seq<char>) -> Seq<char> {
    if is_prefix("http"@, query) {
        query
    } else {
        SearchEngine::YouTube.query_text(query)
    }
}

pub fn resolve_query(query: String) -> (result: Result<String, ResolveError>)
    ensures
        result matches Ok(text) && text@ == resolved_query(query@),
{
    if starts_with(query.as_str(), "http") {
        Ok(query)
    } else {
        search_query(SearchEngine::YouTube, query.as_str())
    }
}

/// What the audio server found for a query.
#[derive(Debug, PartialEq, Eq)]
pub enum LoadResult {
    /// The query named one track.
    Track(Track),
    /// The query named a playlist.
    Playlist { name: String, tracks: Vec<Track> },
    /// The query was a search; the best match comes first.
    Search(Vec<Track>),
    /// Nothing was found, or loading failed.
    Empty,
}

impl LoadResult {
    /// The tracks that a `play` request takes from the answer: the track, the
    /// whole playlist, or the first match of a search.
    pub open spec fn selected(self) -> Seq<Track> {
        match self {
            LoadResult::Track(track) => seq![track],
            LoadResult::Playlist { name, tracks } => tracks@,
            LoadResult::Search(tracks) => if tracks@.len() > 0 {
                seq![tracks@[0]]
            } else {
                Seq::empty()
            },
            LoadResult::Empty => Seq::empty(),
        }
    }

    /// The playlist's name, if the answer is a playlist.
    pub open spec fn playlist_name(self) -> Option<String> {
        match self {
            LoadResult::Playlist { name, tracks } => Some(name),
            _ => None,
        }
    }

    /// The matches, if the answer is a search result.
    pub open spec fn matches(self) -> Seq<Track> {
        match self {
            LoadResult::Search(tracks) => tracks@,
            _ => Seq::empty(),
        }
    }

    /// Splits the answer into the tracks to queue and the playlist's name.
    pub fn select(self) -> (selection: (Vec<Track>, Option<String>))
        ensures
            selection.0@ == self.selected(),
            selection.1 == self.playlist_name(),
    {
        match self {
            LoadResult::Track(track) => {
                let mut tracks = Vec::new();
                tracks.push(track);
                assert(tracks@ =~= seq![track]);
                (tracks, None)
            },
            LoadResult::Playlist { name, tracks } => (tracks, Some(name)),
            LoadResult::Search(mut matches) => {
                let mut tracks = Vec::new();
                if matches.len() > 0 {
                    let first = matches.swap_remove(0);
                    tracks.push(first);
                    assert(tracks@ =~= seq![first]);
                }
                (tracks, None)
            },
            LoadResult::Empty => (Vec::new(), None),
        }
    }
}

/// The tracks of a search result; any other answer counts as no match.
pub fn search_tracks(loaded: LoadResult) -> (tracks: Vec<Track>)
    ensures
        tracks@ == loaded.matches(),
{
    match loaded {
        LoadResult::Search(tracks) => tracks,
        _ => Vec::new(),
    }
}

} // verus!
