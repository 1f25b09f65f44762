use sgrbot::autocompletes::{
    autocomplete_search_query, autocomplete_track_number, is_suggestion, AutocompleteChoice,
    MAX_CHOICES, MAX_SEARCH_SUGGESTIONS,
};
use sgrbot::errors::{CommandError, JoinError, LeaveError, ModuleError, SongbirdError};
use sgrbot::models::{clone_text, QueuedTrack, Source, Track, TrackUserData};
use sgrbot::queue::Queue;
use sgrbot::resolver::{resolve_query, search_query, search_tracks, LoadResult, SearchEngine};

fn track(id: &str, title: &str) -> Track {
    Track {
        encoded: format!("encoded-{id}"),
        identifier: id.to_string(),
        title: title.to_string(),
        author: "Someone".to_string(),
        source: Source::Soundcloud,
        uri: None,
        artwork_url: None,
        length: 0,
        is_stream: true,
    }
}

fn queue_of(titles: &[&str]) -> Queue {
    let mut queue = Queue::new();
    for (i, title) in titles.iter().enumerate() {
        queue.push(QueuedTrack {
            track: track(&format!("{i}"), title),
            user_data: TrackUserData {
                requester_name: "alice".to_string(),
                requester_avatar_url: String::new(),
                request_timestamp: 0,
            },
        });
    }
    queue
}

fn choice(name: &str, value: usize) -> AutocompleteChoice {
    AutocompleteChoice { name: name.to_string(), value }
}

#[test]
fn source_from_known_names() {
    assert_eq!(Source::from_source_name("youtube".to_string()), Source::Youtube);
    assert_eq!(Source::from_source_name("spotify".to_string()), Source::Spotify);
    assert_eq!(Source::from_source_name("soundcloud".to_string()), Source::Soundcloud);
    assert_eq!(Source::from_source_name("twitch".to_string()), Source::Twitch);
}

#[test]
fn source_from_unknown_names_is_other() {
    assert_eq!(Source::from_source_name("bandcamp".to_string()), Source::Other);
    assert_eq!(Source::from_source_name(String::new()), Source::Other);
    assert_eq!(Source::from_source_name("YouTube".to_string()), Source::Other);
    assert_eq!(Source::from_source_name("youtube ".to_string()), Source::Other);
    assert_eq!(Source::from_source_name("twitc".to_string()), Source::Other);
}

#[test]
fn source_colors() {
    assert_eq!(Source::Youtube.color(), 0xff0000);
    assert_eq!(Source::Spotify.color(), 0x1ed760);
    assert_eq!(Source::Soundcloud.color(), 0xff5500);
    assert_eq!(Source::Twitch.color(), 0x9147ff);
    assert_eq!(Source::Other.color(), 0);
}

#[test]
fn source_icons() {
    assert_eq!(
        Source::Youtube.icon_url(),
        "https://cdn.brandfetch.io/idVfYwcuQz/w/400/h/400/theme/dark/icon.jpeg?c=1dxbfHSJFAPEGdCLU4o5B"
    );
    assert_eq!(
        Source::Spotify.icon_url(),
        "https://cdn.brandfetch.io/id20mQyGeY/w/400/h/400/theme/dark/icon.jpeg?c=1dxbfHSJFAPEGdCLU4o5B"
    );
    assert_eq!(
        Source::Soundcloud.icon_url(),
        "https://cdn.brandfetch.io/id3ytDFop3/w/400/h/400/theme/dark/icon.jpeg?c=1dxbfHSJFAPEGdCLU4o5B"
    );
    assert_eq!(
        Source::Twitch.icon_url(),
        "https://cdn.brandfetch.io/idIwZCwD2f/w/400/h/400/theme/dark/icon.jpeg?c=1dxbfHSJFAPEGdCLU4o5B"
    );
    assert_eq!(
        Source::Other.icon_url(),
        "https://cdn3.iconfinder.com/data/icons/iconpark-vol-2/48/play-256.png"
    );
}

#[test]
fn clones_are_equal() {
    let t = track("id", "Title");
    assert_eq!(t.clone(), t);
    assert_eq!(clone_text(&Some("x".to_string())), Some("x".to_string()));
    assert_eq!(clone_text(&None), None);
}

#[test]
fn search_queries_name_their_engine() {
    assert_eq!(search_query(SearchEngine::YouTube, "never gonna"), Ok("ytsearch:never gonna".to_string()));
    assert_eq!(search_query(SearchEngine::YouTubeMusic, "abc"), Ok("ytmsearch:abc".to_string()));
    assert_eq!(search_query(SearchEngine::SoundCloud, ""), Ok("scsearch:".to_string()));
    assert_eq!(search_query(SearchEngine::YouTube, "a:b c&d=e"), Ok("ytsearch:a:b c&d=e".to_string()));
}

#[test]
fn addresses_pass_through() {
    assert_eq!(resolve_query("http://track1".to_string()), Ok("http://track1".to_string()));
    assert_eq!(
        resolve_query("https://youtu.be/watch?v=1".to_string()),
        Ok("https://youtu.be/watch?v=1".to_string())
    );
    assert_eq!(resolve_query("http".to_string()), Ok("http".to_string()));
}

#[test]
fn free_text_becomes_a_youtube_search() {
    assert_eq!(resolve_query("some song".to_string()), Ok("ytsearch:some song".to_string()));
    assert_eq!(resolve_query("htt".to_string()), Ok("ytsearch:htt".to_string()));
    assert_eq!(resolve_query(String::new()), Ok("ytsearch:".to_string()));
    assert_eq!(resolve_query("HTTP://x".to_string()), Ok("ytsearch:HTTP://x".to_string()));
    assert_eq!(resolve_query(" http://x".to_string()), Ok("ytsearch: http://x".to_string()));
}

#[test]
fn select_takes_what_play_queues() {
    let a = track("a", "A");
    let b = track("b", "B");
    assert_eq!(LoadResult::Track(a.clone()).select(), (vec![a.clone()], None));
    assert_eq!(LoadResult::Search(vec![a.clone(), b.clone()]).select(), (vec![a.clone()], None));
    assert_eq!(LoadResult::Search(vec![]).select(), (vec![], None));
    assert_eq!(LoadResult::Empty.select(), (vec![], None));
    assert_eq!(
        LoadResult::Playlist { name: "mix".to_string(), tracks: vec![a.clone(), b.clone()] }.select(),
        (vec![a, b], Some("mix".to_string()))
    );
}

#[test]
fn search_tracks_keeps_search_results_only() {
    let a = track("a", "A");
    let b = track("b", "B");
    assert_eq!(search_tracks(LoadResult::Search(vec![a.clone(), b.clone()])), vec![a.clone(), b.clone()]);
    assert!(search_tracks(LoadResult::Track(a.clone())).is_empty());
    assert!(search_tracks(LoadResult::Playlist { name: "mix".to_string(), tracks: vec![a, b] }).is_empty());
    assert!(search_tracks(LoadResult::Empty).is_empty());
}

#[test]
fn search_suggestions_are_the_first_ten_titles() {
    let results: Vec<Track> = (0..12).map(|i| track(&format!("{i}"), &format!("Song {i}"))).collect();
    let titles = autocomplete_search_query(&results);
    assert_eq!(titles.len(), MAX_SEARCH_SUGGESTIONS);
    assert_eq!(titles[0], "Song 0");
    assert_eq!(titles[9], "Song 9");
    assert_eq!(autocomplete_search_query(&results[..3].to_vec()), vec!["Song 0", "Song 1", "Song 2"]);
    assert!(autocomplete_search_query(&vec![]).is_empty());
}

#[test]
fn track_numbers_are_suggested_by_number() {
    let titles: Vec<String> = (1..=12).map(|i| format!("Song {i}")).collect();
    let titles: Vec<&str> = titles.iter().map(|t| t.as_str()).collect();
    let queue = queue_of(&titles);
    assert_eq!(
        autocomplete_track_number(&queue, "1"),
        vec![choice("1. Song 1", 1), choice("10. Song 10", 10), choice("11. Song 11", 11), choice("12. Song 12", 12)]
    );
    assert_eq!(autocomplete_track_number(&queue, "12"), vec![choice("12. Song 12", 12)]);
    assert!(autocomplete_track_number(&queue, "13").is_empty());
}

#[test]
fn track_numbers_are_suggested_by_title_whatever_the_case() {
    let queue = queue_of(&["Alpha", "beta", "ALPINE", "Gamma"]);
    assert_eq!(
        autocomplete_track_number(&queue, "al"),
        vec![choice("1. Alpha", 1), choice("3. ALPINE", 3)]
    );
    assert_eq!(autocomplete_track_number(&queue, "BETA"), vec![choice("2. beta", 2)]);
    assert!(autocomplete_track_number(&queue, "lph").is_empty());
}

#[test]
fn nothing_typed_suggests_every_track() {
    let queue = queue_of(&["Alpha", "beta"]);
    assert_eq!(autocomplete_track_number(&queue, ""), vec![choice("1. Alpha", 1), choice("2. beta", 2)]);
    assert!(autocomplete_track_number(&Queue::new(), "").is_empty());
}

#[test]
fn at_most_twenty_five_choices() {
    let titles: Vec<String> = (1..=40).map(|i| format!("Song {i}")).collect();
    let titles: Vec<&str> = titles.iter().map(|t| t.as_str()).collect();
    let queue = queue_of(&titles);
    let choices = autocomplete_track_number(&queue, "song");
    assert_eq!(choices.len(), MAX_CHOICES);
    assert_eq!(choices[0], choice("1. Song 1", 1));
    assert_eq!(choices[24], choice("25. Song 25", 25));
}

#[test]
fn error_messages() {
    assert_eq!(
        ModuleError::StateNotRegistered { module_name: "audio-player".to_string() }.message(),
        "state for `audio-player` module is not registered"
    );
    assert_eq!(SongbirdError::SongbirdNotRegistered.message(), "songbird client is not registered");
    assert_eq!(SongbirdError::JoinError("dropped".to_string()).message(), "dropped");
    assert_eq!(JoinError::MissingTargetVoiceChannel.message(), "unable to determine voice channel to connect");
    assert_eq!(
        JoinError::ModuleError(ModuleError::StateNotRegistered { module_name: "m".to_string() }).message(),
        "state for `m` module is not registered"
    );
    assert_eq!(
        JoinError::SongbirdError(SongbirdError::SongbirdNotRegistered).message(),
        "songbird client is not registered"
    );
    assert_eq!(JoinError::LavalinkError("bad".to_string()).message(), "bad");
    assert_eq!(LeaveError::NotConnected.message(), "bot is not connected to a voice channel in the guild");
    assert_eq!(
        LeaveError::ModuleError(ModuleError::StateNotRegistered { module_name: "m".to_string() }).message(),
        "state for `m` module is not registered"
    );
    assert_eq!(LeaveError::SongbirdError(SongbirdError::JoinError("x".to_string())).message(), "x");
    assert_eq!(LeaveError::LavalinkError("bad".to_string()).message(), "bad");
    assert_eq!(CommandError::NotConnected.message(), "Not connected to any voice channel.");
    assert_eq!(CommandError::NothingPlaying.message(), "Nothing is playing right now.");
    assert_eq!(CommandError::InvalidTrackNumber.message(), "Invalid track number specified.");
}

#[test]
fn a_suggestion_matches_by_number_or_by_title() {
    assert!(is_suggestion("12", "song", "1", "1"));
    assert!(is_suggestion("12", "song", "12", "12"));
    assert!(!is_suggestion("12", "song", "2", "2"));
    assert!(is_suggestion("12", "song", "SO", "so"));
    assert!(!is_suggestion("12", "song", "SO", "SO"));
    assert!(!is_suggestion("12", "song", "ong", "ong"));
    assert!(is_suggestion("12", "song", "", ""));
    assert!(!is_suggestion("1", "so", "123", "song"));
}
