//! What the bot shows: the now-playing status message, the queue listing,
//! and the texts in them.

use vstd::prelude::*;
use vstd::string::StringExecFns;

use crate::models::{clone_text, QueuedTrack, Source, Track};
use crate::queue::Queue;
use crate::text::{decimal, decimal_string, replace_all, replaced};

verus! {

/// The number of tracks on one page of the queue listing.
pub const TRACKS_PER_PAGE: usize = 10;

/// The HTTP status that makes a thumbnail address usable.
pub const STATUS_OK: u16 = 200;

/// The characters of an optional text.
pub open spec fn text_of(text: Option<String>) -> Option<Seq<char>> {
    match text {
        Some(t) => Some(t@),
        None => None,
    }
}

/// One titled entry of an embed.
#[derive(Debug, PartialEq, Eq)]
pub struct EmbedField {
    pub name: String,
    pub value: String,
    pub inline: bool,
}

pub struct EmbedFieldView {
    pub name: Seq<char>,
    pub value: Seq<char>,
    pub inline: bool,
}

impl View for EmbedField {
    type V = EmbedFieldView;

    open spec fn view(&self) -> EmbedFieldView {
        EmbedFieldView { name: self.name@, value: self.value@, inline: self.inline }
    }
}

/// A rich message, ready to be handed to the chat platform.
#[derive(Debug, PartialEq, Eq)]
pub struct Embed {
    pub title: Option<String>,
    pub description: Option<String>,
    pub url: Option<String>,
    /// `0xRRGGBB`.
    pub color: Option<u32>,
    pub author_name: Option<String>,
    pub author_icon_url: Option<String>,
    pub fields: Vec<EmbedField>,
    pub footer_text: Option<String>,
    pub footer_icon_url: Option<String>,
    /// Milliseconds since the Unix epoch, UTC.
    pub timestamp: Option<i64>,
    pub image: Option<String>,
}

pub struct EmbedView {
    pub title: Option<Seq<char>>,
    pub description: Option<Seq<char>>,
    pub url: Option<Seq<char>>,
    pub color: Option<u32>,
    pub author_name: Option<Seq<char>>,
    pub author_icon_url: Option<Seq<char>>,
    pub fields: Seq<EmbedFieldView>,
    pub footer_text: Option<Seq<char>>,
    pub footer_icon_url: Option<Seq<char>>,
    pub timestamp: Option<i64>,
    pub image: Option<Seq<char>>,
}

impl View for Embed {
    type V = EmbedView;

    open spec fn view(&self) -> EmbedView {
        EmbedView {
            title: text_of(self.title),
            description: text_of(self.description),
            url: text_of(self.url),
            color: self.color,
            author_name: text_of(self.author_name),
            author_icon_url: text_of(self.author_icon_url),
            fields: Seq::new(self.fields@.len(), |i: int| self.fields@[i]@),
            footer_text: text_of(self.footer_text),
            footer_icon_url: text_of(self.footer_icon_url),
            timestamp: self.timestamp,
            image: text_of(self.image),
        }
    }
}

/// A count with its unit, or nothing for a count of zero.
pub open spec fn unit_text(count: nat, unit: Seq<char>) -> Seq<char> {
    if count > 0 {
        decimal(count) + unit
    } else {
        Seq::empty()
    }
}

/// Two texts with a space between them; an empty text takes no space.
pub open spec fn spaced(left: Seq<char>, right: Seq<char>) -> Seq<char> {
    if left.len() == 0 {
        right
    } else if right.len() == 0 {
        left
    } else {
        left + " "@ + right
    }
}

/// A duration as hours, minutes and seconds, such as `1h 2m 3s`. Parts that
/// are zero are left out, and so are the milliseconds.
pub open spec fn track_length_text(milliseconds: u64) -> Seq<char> {
    let total_seconds = (milliseconds / 1000) as nat;
    let hours = total_seconds / 3600;
    let minutes = (total_seconds % 3600) / 60;
    let seconds = total_seconds % 60;
    spaced(spaced(unit_text(hours, "h"@), unit_text(minutes, "m"@)), unit_text(seconds, "s"@))
}

fn unit_string(count: u64, unit: &str) -> (text: String)
    ensures
        text@ == unit_text(count as nat, unit@),
{
    if count > 0 {
        let mut text = decimal_string(count);
        text.append(unit);
        text
    } else {
        String::new()
    }
}

fn join_spaced(left: String, right: String) -> (text: String)
    ensures
        text@ == spaced(left@, right@),
{
    if left.as_str().unicode_len() == 0 {
        right
    } else if right.as_str().unicode_len() == 0 {
        left
    } else {
        let mut text = left;
        text.append(" ");
        text.append(right.as_str());
        text
    }
}

pub fn format_track_length_ms(milliseconds: u64) -> (text: String)
    ensures
        text@ == track_length_text(milliseconds),
{
    let total_seconds = milliseconds / 1000;
    let hours = total_seconds / 3600;
    let minutes = (total_seconds % 3600) / 60;
    let seconds = total_seconds % 60;
    let text = join_spaced(unit_string(hours, "h"), unit_string(minutes, "m"));
    join_spaced(text, unit_string(seconds, "s"))
}

/// The address of a YouTube video's thumbnail in one of its sizes.
pub open spec fn youtube_thumbnail(identifier: Seq<char>, quality: Seq<char>) -> Seq<char> {
    "https://img.youtube.com/vi/"@ + identifier + "/"@ + quality + ".jpg"@
}

/// The addresses to try for a track's picture, best first. A YouTube video
/// has four sizes; a Twitch stream has its artwork in a larger size.
pub open spec fn thumbnail_addresses(track: Track) -> Seq<Seq<char>> {
    match track.source {
        Source::Youtube => seq![
            youtube_thumbnail(track.identifier@, "maxresdefault"@),
            youtube_thumbnail(track.identifier@, "sddefault"@),
            youtube_thumbnail(track.identifier@, "hqdefault"@),
            youtube_thumbnail(track.identifier@, "mqdefault"@),
        ],
        Source::Twitch => match track.artwork_url {
            Some(artwork) => seq![replaced(artwork@, "440x248"@, "1280x720"@)],
            None => Seq::empty(),
        },
        _ => Seq::empty(),
    }
}

fn youtube_thumbnail_string(identifier: &str, quality: &str) -> (address: String)
    ensures
        address@ == youtube_thumbnail(identifier@, quality@),
{
    let mut address = String::from_str("https://img.youtube.com/vi/");
    address.append(identifier);
    address.append("/");
    address.append(quality);
    address.append(".jpg");
    address
}

/// The characters of each text.
pub open spec fn texts(list: Seq<String>) -> Seq<Seq<char>> {
    Seq::new(list.len(), |i: int| list[i]@)
}

/// The addresses to probe for a track's picture, best first.
pub fn thumbnail_candidates(track: &Track) -> (candidates: Vec<String>)
    ensures
        texts(candidates@) == thumbnail_addresses(*track),
{
    let mut candidates: Vec<String> = Vec::new();
    match track.source {
        Source::Youtube => {
            let identifier = track.identifier.as_str();
            candidates.push(youtube_thumbnail_string(identifier, "maxresdefault"));
            candidates.push(youtube_thumbnail_string(identifier, "sddefault"));
            candidates.push(youtube_thumbnail_string(identifier, "hqdefault"));
            candidates.push(youtube_thumbnail_string(identifier, "mqdefault"));
        },
        Source::Twitch => {
            match &track.artwork_url {
                Some(artwork) => {
                    candidates.push(replace_all(artwork.as_str(), "440x248", "1280x720"));
                },
                None => {},
            }
        },
        _ => {},
    }
    assert(texts(candidates@) =~= thumbnail_addresses(*track));
    candidates
}

/// The first position at or after `from`, and before `limit`, whose probe
/// answered with [`STATUS_OK`].
pub open spec fn first_reachable(statuses: Seq<u16>, limit: int, from: int) -> Option<int>
    decreases limit - from,
{
    if from >= limit || from >= statuses.len() || from < 0 {
        None
    } else if statuses[from] == STATUS_OK {
        Some(from)
    } else {
        first_reachable(statuses, limit, from + 1)
    }
}

/// The picture chosen among candidates: the first whose probe answered with
/// [`STATUS_OK`], else the fallback.
pub open spec fn chosen_thumbnail(
    candidates: Seq<Seq<char>>,
    statuses: Seq<u16>,
    fallback: Option<Seq<char>>,
) -> Option<Seq<char>> {
    match first_reachable(statuses, candidates.len() as int, 0) {
        Some(i) => Some(candidates[i]),
        None => fallback,
    }
}

/// The picture to show for a track: chosen among the track's addresses,
/// with the track's own artwork to fall back on.
pub open spec fn best_thumbnail(track: Track, statuses: Seq<u16>) -> Option<Seq<char>> {
    chosen_thumbnail(thumbnail_addresses(track), statuses, text_of(track.artwork_url))
}

/// Chooses a picture from the answers to the probes of the candidates:
/// `statuses[i]` is the HTTP status that candidate `i` answered with, or any
/// other number than [`STATUS_OK`] if the probe failed. Candidates without
/// an entry count as not probed.
pub fn choose_thumbnail(
    candidates: Vec<String>,
    statuses: &Vec<u16>,
    fallback: Option<String>,
) -> (thumbnail: Option<String>)
    ensures
        text_of(thumbnail) == chosen_thumbnail(texts(candidates@), statuses@, text_of(fallback)),
{
    let ghost addresses = texts(candidates@);
    let mut remaining = candidates;
    let mut i: usize = 0;
    while i < remaining.len() && i < statuses.len()
        invariant
            i <= remaining@.len(),
            addresses == texts(candidates@),
            texts(remaining@) == addresses,
            first_reachable(statuses@, addresses.len() as int, 0) == first_reachable(
                statuses@,
                addresses.len() as int,
                i as int,
            ),
        decreases remaining@.len() - i,
    {
        if statuses[i] == STATUS_OK {
            assert(addresses[i as int] == remaining@[i as int]@);
            let found = remaining.swap_remove(i);
            return Some(found);
        }
        i += 1;
    }
    fallback
}

/// Chooses a track's picture from the answers to the probes of its
/// candidates, as [`choose_thumbnail`] does for those of
/// [`thumbnail_candidates`].
pub fn get_best_thumbnail(track: &Track, statuses: &Vec<u16>) -> (thumbnail: Option<String>)
    ensures
        text_of(thumbnail) == best_thumbnail(*track, statuses@),
{
    choose_thumbnail(thumbnail_candidates(track), statuses, clone_text(&track.artwork_url))
}

/// The status message for a track that started playing. A live stream
/// shows no duration.
pub open spec fn now_playing_embed(queued: QueuedTrack, thumbnail: Option<Seq<char>>) -> EmbedView {
    let author = EmbedFieldView { name: "Author"@, value: queued.track.author@, inline: true };
    let duration = EmbedFieldView {
        name: "Duration"@,
        value: track_length_text(queued.track.length),
        inline: true,
    };
    EmbedView {
        title: Some(queued.track.title@),
        description: None,
        url: text_of(queued.track.uri),
        color: Some(queued.track.source.rgb()),
        author_name: Some("Now Playing"@),
        author_icon_url: Some(queued.track.source.icon()),
        fields: if queued.track.is_stream {
            seq![author]
        } else {
            seq![author, duration]
        },
        footer_text: Some("Requested by "@ + queued.user_data.requester_name@),
        footer_icon_url: Some(queued.user_data.requester_avatar_url@),
        timestamp: Some(queued.user_data.request_timestamp),
        image: thumbnail,
    }
}

pub fn create_now_playing_embed(queued: &QueuedTrack, thumbnail: Option<String>) -> (embed: Embed)
    ensures
        embed@ == now_playing_embed(*queued, text_of(thumbnail)),
{
    let track = &queued.track;
    let mut fields: Vec<EmbedField> = Vec::new();
    fields.push(
        EmbedField { name: String::from_str("Author"), value: track.author.clone(), inline: true },
    );
    if !track.is_stream {
        fields.push(
            EmbedField {
                name: String::from_str("Duration"),
                value: format_track_length_ms(track.length),
                inline: true,
            },
        );
    }
    let mut footer_text = String::from_str("Requested by ");
    footer_text.append(queued.user_data.requester_name.as_str());
    let embed = Embed {
        title: Some(track.title.clone()),
        description: None,
        url: clone_text(&track.uri),
        color: Some(track.source.color()),
        author_name: Some(String::from_str("Now Playing")),
        author_icon_url: Some(String::from_str(track.source.icon_url())),
        fields,
        footer_text: Some(footer_text),
        footer_icon_url: Some(queued.user_data.requester_avatar_url.clone()),
        timestamp: Some(queued.user_data.request_timestamp),
        image: thumbnail,
    };
    assert(embed@.fields =~= now_playing_embed(*queued, text_of(thumbnail)).fields);
    embed
}

/// The number of pages that `count` tracks fill; an empty queue has one
/// page.
pub open spec fn total_pages(count: nat) -> nat {
    if count == 0 {
        1
    } else {
        ((count - 1) / (TRACKS_PER_PAGE as int) + 1) as nat
    }
}

/// The page shown for a request of page `page`, counted from zero: the
/// page itself, or the last page if there is no such page.
pub open spec fn shown_page(count: nat, page: nat) -> nat {
    if page < total_pages(count) {
        page
    } else {
        (total_pages(count) - 1) as nat
    }
}

/// One line of the queue listing: the track's number, its title, linked to
/// its address if it has one, and its author.
pub open spec fn queue_line(index: nat, queued: QueuedTrack) -> Seq<char> {
    let name = match queued.track.uri {
        Some(uri) => "["@ + queued.track.title@ + "]("@ + uri@ + ")"@,
        None => "**"@ + queued.track.title@ + "**"@,
    };
    decimal(index + 1) + ". "@ + name + " - "@ + queued.track.author@
}

/// The lines for the tracks at positions `start..end`, one below the other.
pub open spec fn queue_lines(queue: Seq<QueuedTrack>, start: int, end: int) -> Seq<char>
    decreases end - start,
{
    if end <= start {
        Seq::empty()
    } else if end == start + 1 {
        queue_line(start as nat, queue[start])
    } else {
        queue_lines(queue, start, end - 1) + "\n"@ + queue_line((end - 1) as nat, queue[end - 1])
    }
}

/// The position after the last track of the page that starts at `start`.
pub open spec fn page_end(count: nat, start: nat) -> nat {
    if count - start > TRACKS_PER_PAGE {
        start + TRACKS_PER_PAGE as nat
    } else {
        count
    }
}

/// The body of the queue listing for page `page`, counted from zero.
pub open spec fn queue_description(queue: Seq<QueuedTrack>, page: nat) -> Seq<char> {
    if queue.len() == 0 {
        "Queue is empty."@
    } else {
        let start = shown_page(queue.len(), page) * TRACKS_PER_PAGE as nat;
        queue_lines(queue, start as int, page_end(queue.len(), start) as int)
    }
}

/// The queue listing for page `page`, counted from zero.
pub open spec fn queue_embed(queue: Seq<QueuedTrack>, page: usize) -> EmbedView {
    EmbedView {
        title: Some("Queue"@),
        description: Some(queue_description(queue, page as nat)),
        url: None,
        color: None,
        author_name: None,
        author_icon_url: None,
        fields: Seq::empty(),
        footer_text: Some(
            "Page "@ + decimal(shown_page(queue.len(), page as nat) + 1) + "/"@ + decimal(
                total_pages(queue.len()),
            ),
        ),
        footer_icon_url: None,
        timestamp: None,
        image: None,
    }
}

fn queue_line_string(index: usize, queued: &QueuedTrack) -> (line: String)
    requires
        index < usize::MAX,
    ensures
        line@ == queue_line(index as nat, *queued),
{
    let mut line = decimal_string((index + 1) as u64);
    line.append(". ");
    match &queued.track.uri {
        Some(uri) => {
            line.append("[");
            line.append(queued.track.title.as_str());
            line.append("](");
            line.append(uri.as_str());
            line.append(")");
        },
        None => {
            line.append("**");
            line.append(queued.track.title.as_str());
            line.append("**");
        },
    }
    line.append(" - ");
    line.append(queued.track.author.as_str());
    assert(line@ =~= queue_line(index as nat, *queued));
    line
}

/// The queue listing for page `page`, counted from zero; a page past the
/// end shows the last page.
pub fn create_queue_embed(queue: &Queue, page: usize) -> (embed: Embed)
    ensures
        embed@ == queue_embed(queue@, page),
{
    let track_count = queue.get_count();
    let total_pages: usize = if track_count == 0 {
        1
    } else {
        (track_count - 1) / TRACKS_PER_PAGE + 1
    };
    let page: usize = if page < total_pages {
        page
    } else {
        total_pages - 1
    };
    let description = if track_count == 0 {
        String::from_str("Queue is empty.")
    } else {
        let start = page * TRACKS_PER_PAGE;
        let end = if track_count - start > TRACKS_PER_PAGE {
            start + TRACKS_PER_PAGE
        } else {
            track_count
        };
        let mut text = String::new();
        let mut index = start;
        while index < end
            invariant
                start <= index <= end <= track_count,
                track_count == queue@.len(),
                text@ == queue_lines(queue@, start as int, index as int),
            decreases end - index,
        {
            let line = match queue.get_track(index) {
                Some(queued) => queue_line_string(index, queued),
                None => String::new(),
            };
            if index > start {
                text.append("\n");
            }
            text.append(line.as_str());
            assert(text@ =~= queue_lines(queue@, start as int, index + 1));
            index += 1;
        }
        text
    };
    let mut footer_text = String::from_str("Page ");
    footer_text.append(decimal_string((page + 1) as u64).as_str());
    footer_text.append("/");
    footer_text.append(decimal_string(total_pages as u64).as_str());
    let embed = Embed {
        title: Some(String::from_str("Queue")),
        description: Some(description),
        url: None,
        color: None,
        author_name: None,
        author_icon_url: None,
        fields: Vec::new(),
        footer_text: Some(footer_text),
        footer_icon_url: None,
        timestamp: None,
        image: None,
    };
    assert(embed@.fields =~= Seq::<EmbedFieldView>::empty());
    embed
}

} // verus!
