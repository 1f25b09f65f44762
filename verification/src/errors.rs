//! What can go wrong, and the sentence that reports it.

use vstd::prelude::*;
use vstd::string::StringExecFns;

verus! {

/// A feature module was used before its state was registered.
#[derive(Debug, PartialEq, Eq)]
pub enum ModuleError {
    StateNotRegistered { module_name: String },
}

impl ModuleError {
    pub open spec fn message_text(self) -> Seq<char> {
        match self {
            ModuleError::StateNotRegistered { module_name } => "state for `"@ + module_name@
                + "` module is not registered"@,
        }
    }

    pub fn message(&self) -> (text: String)
        ensures
            text@ == self.message_text(),
    {
        match self {
            ModuleError::StateNotRegistered { module_name } => {
                let mut text = String::from_str("state for `");
                text.append(module_name.as_str());
                text.append("` module is not registered");
                text
            },
        }
    }
}

/// A failure of the voice transport.
#[derive(Debug, PartialEq, Eq)]
pub enum SongbirdError {
    SongbirdNotRegistered,
    /// The transport refused or lost the connection; the text is its report.
    JoinError(String),
}

impl SongbirdError {
    pub open spec fn message_text(self) -> Seq<char> {
        match self {
            SongbirdError::SongbirdNotRegistered => "songbird client is not registered"@,
            SongbirdError::JoinError(detail) => detail@,
        }
    }

    pub fn message(&self) -> (text: String)
        ensures
            text@ == self.message_text(),
    {
        match self {
            SongbirdError::SongbirdNotRegistered => String::from_str(
                "songbird client is not registered",
            ),
            SongbirdError::JoinError(detail) => detail.clone(),
        }
    }
}

/// Why a session could not be established.
#[derive(Debug, PartialEq, Eq)]
pub enum JoinError {
    /// No channel was named and the requester is in none.
    MissingTargetVoiceChannel,
    ModuleError(ModuleError),
    SongbirdError(SongbirdError),
    /// The audio server refused; the text is its report.
    LavalinkError(String),
}

impl JoinError {
    pub open spec fn message_text(self) -> Seq<char> {
        match self {
            JoinError::MissingTargetVoiceChannel => "unable to determine voice channel to connect"@,
            JoinError::ModuleError(inner) => inner.message_text(),
            JoinError::SongbirdError(inner) => inner.message_text(),
            JoinError::LavalinkError(detail) => detail@,
        }
    }

    pub fn message(&self) -> (text: String)
        ensures
            text@ == self.message_text(),
    {
        match self {
            JoinError::MissingTargetVoiceChannel => String::from_str(
                "unable to determine voice channel to connect",
            ),
            JoinError::ModuleError(inner) => inner.message(),
            JoinError::SongbirdError(inner) => inner.message(),
            JoinError::LavalinkError(detail) => detail.clone(),
        }
    }
}

/// Why a session could not be torn down cleanly.
#[derive(Debug, PartialEq, Eq)]
pub enum LeaveError {
    /// The guild has no session.
    NotConnected,
    ModuleError(ModuleError),
    SongbirdError(SongbirdError),
    /// The audio server refused; the text is its report.
    LavalinkError(String),
}

impl LeaveError {
    pub open spec fn message_text(self) -> Seq<char> {
        match self {
            LeaveError::NotConnected => "bot is not connected to a voice channel in the guild"@,
            LeaveError::ModuleError(inner) => inner.message_text(),
            LeaveError::SongbirdError(inner) => inner.message_text(),
            LeaveError::LavalinkError(detail) => detail@,
        }
    }

    pub fn message(&self) -> (text: String)
        ensures
            text@ == self.message_text(),
    {
        match self {
            LeaveError::NotConnected => String::from_str(
                "bot is not connected to a voice channel in the guild",
            ),
            LeaveError::ModuleError(inner) => inner.message(),
            LeaveError::SongbirdError(inner) => inner.message(),
            LeaveError::LavalinkError(detail) => detail.clone(),
        }
    }
}

/// The expected refusals of a playback or queue command.
#[derive(Debug, PartialEq, Eq, Clone, Copy, Structural)]
pub enum CommandError {
    /// The guild has no session.
    NotConnected,
    /// The session plays nothing.
    NothingPlaying,
    /// The track number is not in `1..=count`.
    InvalidTrackNumber,
}

impl CommandError {
    pub open spec fn message_text(self) -> Seq<char> {
        match self {
            CommandError::NotConnected => "Not connected to any voice channel."@,
            CommandError::NothingPlaying => "Nothing is playing right now."@,
            CommandError::InvalidTrackNumber => "Invalid track number specified."@,
        }
    }

    pub fn message(&self) -> (text: &'static str)
        ensures
            text@ == self.message_text(),
    {
        match self {
            CommandError::NotConnected => "Not connected to any voice channel.",
            CommandError::NothingPlaying => "Nothing is playing right now.",
            CommandError::InvalidTrackNumber => "Invalid track number specified.",
        }
    }
}

} // verus!
