use sgrbot::models::{QueuedTrack, Source, Track, TrackUserData};
use sgrbot::queue::Queue;
use sgrbot::render::{
    choose_thumbnail, create_now_playing_embed, create_queue_embed, format_track_length_ms,
    get_best_thumbnail, thumbnail_candidates,
};
use sgrbot::text::decimal_string;

fn track(id: &str, source: Source, uri: Option<&str>, artwork: Option<&str>) -> Track {
    Track {
        encoded: format!("encoded-{id}"),
        identifier: id.to_string(),
        title: format!("Title {id}"),
        author: format!("Author {id}"),
        source,
        uri: uri.map(|u| u.to_string()),
        artwork_url: artwork.map(|a| a.to_string()),
        length: 3_723_000,
        is_stream: false,
    }
}

fn queued(track: Track) -> QueuedTrack {
    QueuedTrack {
        track,
        user_data: TrackUserData {
            requester_name: "alice".to_string(),
            requester_avatar_url: "http://avatar/alice".to_string(),
            request_timestamp: 1_700_000_000_123,
        },
    }
}

fn queue_of(count: usize) -> Queue {
    let mut queue = Queue::new();
    for i in 0..count {
        let id = format!("{}", i + 1);
        let uri = format!("http://t/{}", i + 1);
        let uri = if i % 2 == 0 { Some(uri.as_str()) } else { None };
        queue.push(queued(track(&id, Source::Youtube, uri, None)));
    }
    queue
}

#[test]
fn decimal_string_writes_numbers() {
    assert_eq!(decimal_string(0), "0");
    assert_eq!(decimal_string(7), "7");
    assert_eq!(decimal_string(10), "10");
    assert_eq!(decimal_string(1234567890), "1234567890");
    assert_eq!(decimal_string(u64::MAX), "18446744073709551615");
}

#[test]
fn track_length_has_hours_minutes_seconds() {
    assert_eq!(format_track_length_ms(3_723_000), "1h 2m 3s");
    assert_eq!(format_track_length_ms(3_723_999), "1h 2m 3s");
}

#[test]
fn track_length_leaves_out_zero_parts() {
    assert_eq!(format_track_length_ms(0), "");
    assert_eq!(format_track_length_ms(999), "");
    assert_eq!(format_track_length_ms(1000), "1s");
    assert_eq!(format_track_length_ms(60_000), "1m");
    assert_eq!(format_track_length_ms(3_600_000), "1h");
    assert_eq!(format_track_length_ms(3_601_000), "1h 1s");
    assert_eq!(format_track_length_ms(61_000), "1m 1s");
    assert_eq!(format_track_length_ms(7_260_000), "2h 1m");
    assert_eq!(format_track_length_ms(59_000), "59s");
}

#[test]
fn track_length_of_the_longest_track() {
    assert_eq!(format_track_length_ms(u64::MAX), "5124095576030h 25m 51s");
}

#[test]
fn youtube_has_four_thumbnail_candidates() {
    let t = track("dQw4", Source::Youtube, None, Some("http://art"));
    assert_eq!(
        thumbnail_candidates(&t),
        vec![
            "https://img.youtube.com/vi/dQw4/maxresdefault.jpg",
            "https://img.youtube.com/vi/dQw4/sddefault.jpg",
            "https://img.youtube.com/vi/dQw4/hqdefault.jpg",
            "https://img.youtube.com/vi/dQw4/mqdefault.jpg",
        ]
    );
}

#[test]
fn twitch_candidate_is_the_larger_artwork() {
    let t = track("s", Source::Twitch, None, Some("http://cdn/live-440x248.jpg"));
    assert_eq!(thumbnail_candidates(&t), vec!["http://cdn/live-1280x720.jpg"]);
    let none = track("s", Source::Twitch, None, None);
    assert!(thumbnail_candidates(&none).is_empty());
}

#[test]
fn other_sources_have_no_candidates() {
    for source in [Source::Spotify, Source::Soundcloud, Source::Other] {
        let t = track("x", source, None, Some("http://art"));
        assert!(thumbnail_candidates(&t).is_empty());
        assert_eq!(get_best_thumbnail(&t, &vec![200, 200]), Some("http://art".to_string()));
    }
}

#[test]
fn best_thumbnail_is_the_first_reachable() {
    let t = track("id", Source::Youtube, None, Some("http://art"));
    assert_eq!(
        get_best_thumbnail(&t, &vec![404, 200, 200, 200]),
        Some("https://img.youtube.com/vi/id/sddefault.jpg".to_string())
    );
    assert_eq!(
        get_best_thumbnail(&t, &vec![200]),
        Some("https://img.youtube.com/vi/id/maxresdefault.jpg".to_string())
    );
    assert_eq!(
        get_best_thumbnail(&t, &vec![404, 404, 500, 200]),
        Some("https://img.youtube.com/vi/id/mqdefault.jpg".to_string())
    );
}

#[test]
fn best_thumbnail_falls_back_to_the_artwork() {
    let t = track("id", Source::Youtube, None, Some("http://art"));
    assert_eq!(get_best_thumbnail(&t, &vec![404, 404, 404, 404]), Some("http://art".to_string()));
    assert_eq!(get_best_thumbnail(&t, &vec![]), Some("http://art".to_string()));
    assert_eq!(get_best_thumbnail(&t, &vec![404, 0, 201, 301, 200]), Some("http://art".to_string()));
    let bare = track("id", Source::Youtube, None, None);
    assert_eq!(get_best_thumbnail(&bare, &vec![404, 404]), None);
}

#[test]
fn best_thumbnail_for_twitch() {
    let t = track("s", Source::Twitch, None, Some("http://cdn/440x248/440x248.jpg"));
    assert_eq!(
        get_best_thumbnail(&t, &vec![200]),
        Some("http://cdn/1280x720/1280x720.jpg".to_string())
    );
    assert_eq!(
        get_best_thumbnail(&t, &vec![404]),
        Some("http://cdn/440x248/440x248.jpg".to_string())
    );
}

#[test]
fn now_playing_embed_shows_the_track() {
    let q = queued(track("id", Source::Spotify, Some("http://song"), None));
    let embed = create_now_playing_embed(&q, Some("http://thumb".to_string()));
    assert_eq!(embed.title, Some("Title id".to_string()));
    assert_eq!(embed.description, None);
    assert_eq!(embed.url, Some("http://song".to_string()));
    assert_eq!(embed.color, Some(0x1ed760));
    assert_eq!(embed.author_name, Some("Now Playing".to_string()));
    assert_eq!(embed.author_icon_url, Some(Source::Spotify.icon_url().to_string()));
    assert_eq!(embed.fields.len(), 2);
    assert_eq!(embed.fields[0].name, "Author");
    assert_eq!(embed.fields[0].value, "Author id");
    assert!(embed.fields[0].inline);
    assert_eq!(embed.fields[1].name, "Duration");
    assert_eq!(embed.fields[1].value, "1h 2m 3s");
    assert!(embed.fields[1].inline);
    assert_eq!(embed.footer_text, Some("Requested by alice".to_string()));
    assert_eq!(embed.footer_icon_url, Some("http://avatar/alice".to_string()));
    assert_eq!(embed.timestamp, Some(1_700_000_000_123));
    assert_eq!(embed.image, Some("http://thumb".to_string()));
}

#[test]
fn now_playing_embed_of_a_stream_has_no_duration() {
    let mut t = track("live", Source::Twitch, None, None);
    t.is_stream = true;
    let embed = create_now_playing_embed(&queued(t), None);
    assert_eq!(embed.fields.len(), 1);
    assert_eq!(embed.fields[0].name, "Author");
    assert_eq!(embed.url, None);
    assert_eq!(embed.image, None);
    assert_eq!(embed.color, Some(0x9147ff));
}

#[test]
fn queue_embed_of_an_empty_queue() {
    let embed = create_queue_embed(&Queue::new(), 0);
    assert_eq!(embed.title, Some("Queue".to_string()));
    assert_eq!(embed.description, Some("Queue is empty.".to_string()));
    assert_eq!(embed.footer_text, Some("Page 1/1".to_string()));
    let far = create_queue_embed(&Queue::new(), 7);
    assert_eq!(far.description, Some("Queue is empty.".to_string()));
    assert_eq!(far.footer_text, Some("Page 1/1".to_string()));
}

#[test]
fn queue_embed_lists_tracks_with_and_without_address() {
    let embed = create_queue_embed(&queue_of(3), 0);
    assert_eq!(
        embed.description,
        Some(
            "1. [Title 1](http://t/1) - Author 1\n2. **Title 2** - Author 2\n3. [Title 3](http://t/3) - Author 3"
                .to_string()
        )
    );
    assert_eq!(embed.footer_text, Some("Page 1/1".to_string()));
    assert!(embed.fields.is_empty());
    assert_eq!(embed.color, None);
}

#[test]
fn queue_embed_pages_hold_ten_tracks() {
    let queue = queue_of(25);
    let first = create_queue_embed(&queue, 0);
    let first_text = first.description.unwrap();
    assert_eq!(first_text.lines().count(), 10);
    assert!(first_text.starts_with("1. [Title 1]"));
    assert!(first_text.ends_with("10. **Title 10** - Author 10"));
    assert_eq!(first.footer_text, Some("Page 1/3".to_string()));

    let second = create_queue_embed(&queue, 1);
    let second_text = second.description.unwrap();
    assert_eq!(second_text.lines().count(), 10);
    assert!(second_text.starts_with("11. [Title 11]"));
    assert_eq!(second.footer_text, Some("Page 2/3".to_string()));

    let third = create_queue_embed(&queue, 2);
    let third_text = third.description.unwrap();
    assert_eq!(third_text.lines().count(), 5);
    assert!(third_text.starts_with("21. [Title 21]"));
    assert!(third_text.ends_with("25. [Title 25](http://t/25) - Author 25"));
    assert_eq!(third.footer_text, Some("Page 3/3".to_string()));
}

#[test]
fn queue_embed_clamps_the_page() {
    let queue = queue_of(25);
    let last = create_queue_embed(&queue, 2);
    let beyond = create_queue_embed(&queue, 3);
    let far = create_queue_embed(&queue, usize::MAX);
    assert_eq!(beyond, last);
    assert_eq!(far, last);
}

#[test]
fn queue_embed_with_full_pages_only() {
    let queue = queue_of(20);
    assert_eq!(create_queue_embed(&queue, 1).footer_text, Some("Page 2/2".to_string()));
    assert_eq!(create_queue_embed(&queue, 2).footer_text, Some("Page 2/2".to_string()));
    assert_eq!(create_queue_embed(&queue_of(10), 5).footer_text, Some("Page 1/1".to_string()));
    assert_eq!(create_queue_embed(&queue_of(11), 5).footer_text, Some("Page 2/2".to_string()));
    assert_eq!(
        create_queue_embed(&queue_of(11), 5).description,
        Some("11. [Title 11](http://t/11) - Author 11".to_string())
    );
}

#[test]
fn choose_thumbnail_takes_the_first_answering_candidate() {
    let candidates = vec!["a".to_string(), "b".to_string(), "c".to_string()];
    let fallback = Some("art".to_string());
    assert_eq!(choose_thumbnail(candidates.clone(), &vec![200, 200, 200], fallback.clone()), Some("a".to_string()));
    assert_eq!(choose_thumbnail(candidates.clone(), &vec![404, 200, 200], fallback.clone()), Some("b".to_string()));
    assert_eq!(choose_thumbnail(candidates.clone(), &vec![404, 500, 200], fallback.clone()), Some("c".to_string()));
    assert_eq!(choose_thumbnail(candidates.clone(), &vec![404, 500, 0], fallback.clone()), fallback);
    assert_eq!(choose_thumbnail(candidates.clone(), &vec![404], fallback.clone()), fallback);
    assert_eq!(choose_thumbnail(candidates.clone(), &vec![], None), None);
    assert_eq!(choose_thumbnail(candidates, &vec![404, 404, 404, 200], fallback.clone()), fallback);
    assert_eq!(choose_thumbnail(vec![], &vec![200], fallback.clone()), fallback);
}
