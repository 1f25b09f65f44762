//! The sentences that answer a command.

use vstd::prelude::*;
use vstd::string::StringExecFns;

use crate::commands::{Added, Skipped};
use crate::errors::CommandError;
use crate::models::QueuedTrack;
use crate::text::{decimal, decimal_string};

verus! {

/// How an answer is coloured.
#[derive(Debug, PartialEq, Eq, Clone, Copy, Structural)]
pub enum Tone {
    Plain,
    Success,
    Failure,
}

/// The answer to a command.
#[derive(Debug, PartialEq, Eq)]
pub struct Reply {
    pub description: String,
    pub tone: Tone,
}

pub struct ReplyView {
    pub description: Seq<char>,
    pub tone: Tone,
}

impl View for Reply {
    type V = ReplyView;

    open spec fn view(&self) -> ReplyView {
        ReplyView { description: self.description@, tone: self.tone }
    }
}

/// A title, as a link to `uri` if there is one, else in bold.
pub open spec fn linked_title(title: Seq<char>, uri: Option<String>) -> Seq<char> {
    match uri {
        Some(uri) => "["@ + title + "]("@ + uri@ + ")"@,
        None => "**"@ + title + "**"@,
    }
}

fn linked_title_string(title: &str, uri: &Option<String>) -> (text: String)
    ensures
        text@ == linked_title(title@, *uri),
{
    match uri {
        Some(uri) => {
            let mut text = String::from_str("[");
            text.append(title);
            text.append("](");
            text.append(uri.as_str());
            text.append(")");
            text
        },
        None => {
            let mut text = String::from_str("**");
            text.append(title);
            text.append("**");
            text
        },
    }
}

fn reply(description: &str, tone: Tone) -> (reply: Reply)
    ensures
        reply@ == (ReplyView { description: description@, tone }),
{
    Reply { description: String::from_str(description), tone }
}

/// The answer to a join that connected to `voice_channel_id`.
pub fn connected(voice_channel_id: u64) -> (reply: Reply)
    ensures
        reply@ == (ReplyView {
            description: "Connected to <#"@ + decimal(voice_channel_id as nat) + ">."@,
            tone: Tone::Success,
        }),
{
    let mut description = String::from_str("Connected to <#");
    description.append(decimal_string(voice_channel_id).as_str());
    description.append(">.");
    Reply { description, tone: Tone::Success }
}

/// The answer to a request that found no voice channel to go to: `join`
/// asks to name one, `play` points to `join`.
pub fn missing_voice_channel(for_play: bool) -> (reply: Reply)
    ensures
        reply@ == (ReplyView {
            description: if for_play {
                "Join a voice channel or run `/join` before using this command."@
            } else {
                "Join a voice channel or specify one to use this command."@
            },
            tone: Tone::Failure,
        }),
{
    if for_play {
        reply("Join a voice channel or run `/join` before using this command.", Tone::Failure)
    } else {
        reply("Join a voice channel or specify one to use this command.", Tone::Failure)
    }
}

/// The answer to a leave that ended a session.
pub fn disconnected() -> (reply: Reply)
    ensures
        reply@ == (ReplyView { description: "Disconnected."@, tone: Tone::Success }),
{
    reply("Disconnected.", Tone::Success)
}

/// The answer to a leave without a session.
pub fn not_connected() -> (reply: Reply)
    ensures
        reply@ == (ReplyView {
            description: "Not connected to any voice channel."@,
            tone: Tone::Failure,
        }),
{
    reply("Not connected to any voice channel.", Tone::Failure)
}

/// What a `play` request answers, if anything: nothing when nothing was
/// found.
pub open spec fn added_text(added: Added) -> Option<Seq<char>> {
    match added {
        Added::Nothing => None,
        Added::Track { title, uri } => Some(
            "Added "@ + linked_title(title@, uri) + " to the queue."@,
        ),
        Added::Playlist { name, count } => Some(
            "Added playlist **"@ + name@ + "** to the queue"@,
        ),
    }
}

pub fn added(what: &Added) -> (reply: Option<Reply>)
    ensures
        match added_text(*what) {
            Some(text) => reply is Some && reply.unwrap()@ == (ReplyView {
                description: text,
                tone: Tone::Plain,
            }),
            None => reply is None,
        },
{
    match what {
        Added::Nothing => None,
        Added::Track { title, uri } => {
            let mut description = String::from_str("Added ");
            description.append(linked_title_string(title.as_str(), uri).as_str());
            description.append(" to the queue.");
            Some(Reply { description, tone: Tone::Plain })
        },
        Added::Playlist { name, count } => {
            let mut description = String::from_str("Added playlist **");
            description.append(name.as_str());
            description.append("** to the queue");
            Some(Reply { description, tone: Tone::Plain })
        },
    }
}

pub fn stopped() -> (reply: Reply)
    ensures
        reply@ == (ReplyView { description: "Stopped playback."@, tone: Tone::Plain }),
{
    reply("Stopped playback.", Tone::Plain)
}

pub fn paused() -> (reply: Reply)
    ensures
        reply@ == (ReplyView { description: "Paused playback."@, tone: Tone::Plain }),
{
    reply("Paused playback.", Tone::Plain)
}

pub fn resumed() -> (reply: Reply)
    ensures
        reply@ == (ReplyView { description: "Resumed playback."@, tone: Tone::Plain }),
{
    reply("Resumed playback.", Tone::Plain)
}

pub fn skipped(track: &Skipped) -> (reply: Reply)
    ensures
        reply@ == (ReplyView {
            description: "Skipped "@ + linked_title(track.title@, track.uri) + "."@,
            tone: Tone::Plain,
        }),
{
    let mut description = String::from_str("Skipped ");
    description.append(linked_title_string(track.title.as_str(), &track.uri).as_str());
    description.append(".");
    Reply { description, tone: Tone::Plain }
}

pub fn removed(queued: &QueuedTrack) -> (reply: Reply)
    ensures
        reply@ == (ReplyView {
            description: "Removed "@ + linked_title(queued.track.title@, queued.track.uri) + "."@,
            tone: Tone::Plain,
        }),
{
    let mut description = String::from_str("Removed ");
    description.append(
        linked_title_string(queued.track.title.as_str(), &queued.track.uri).as_str(),
    );
    description.append(".");
    Reply { description, tone: Tone::Plain }
}

pub fn cleared() -> (reply: Reply)
    ensures
        reply@ == (ReplyView { description: "Cleared the queue."@, tone: Tone::Plain }),
{
    reply("Cleared the queue.", Tone::Plain)
}

/// The answer to a refused playback or queue command. Only a wrong track
/// number is marked as a failure.
pub fn refused(error: CommandError) -> (reply: Reply)
    ensures
        reply@ == (ReplyView {
            description: error.message_text(),
            tone: if error == CommandError::InvalidTrackNumber {
                Tone::Failure
            } else {
                Tone::Plain
            },
        }),
{
    let tone = match error {
        CommandError::InvalidTrackNumber => Tone::Failure,
        _ => Tone::Plain,
    };
    reply(error.message(), tone)
}

/// The answer of the liveness check.
pub fn ping() -> (text: String)
    ensures
        text@ == "Pong!"@,
{
    String::from_str("Pong!")
}

pub fn greeting(sender_name: &str) -> (text: String)
    ensures
        text@ == "Hi, "@ + sender_name@ + "! How are you doing today?"@,
{
    let mut text = String::from_str("Hi, ");
    text.append(sender_name);
    text.append("! How are you doing today?");
    text
}

/// The ending that makes a count an ordinal: `st`, `nd`, `rd` after a last
/// digit of 1, 2, 3, and `th` otherwise and for 10 to 19.
pub open spec fn ordinal_suffix(count: u64) -> Seq<char> {
    if count / 10 == 1 {
        "th"@
    } else if count % 10 == 1 {
        "st"@
    } else if count % 10 == 2 {
        "nd"@
    } else if count % 10 == 3 {
        "rd"@
    } else {
        "th"@
    }
}

/// The answer of the self-test command, which has answered `count` times
/// with this one.
pub fn test(count: u64) -> (text: String)
    ensures
        text@ == "This is a test message and the "@ + decimal(count as nat) + ordinal_suffix(count)
            + " response since the last restart."@,
{
    let suffix = if count / 10 == 1 {
        "th"
    } else if count % 10 == 1 {
        "st"
    } else if count % 10 == 2 {
        "nd"
    } else if count % 10 == 3 {
        "rd"
    } else {
        "th"
    };
    let mut text = String::from_str("This is a test message and the ");
    text.append(decimal_string(count).as_str());
    text.append(suffix);
    text.append(" response since the last restart.");
    text
}

} // verus!
