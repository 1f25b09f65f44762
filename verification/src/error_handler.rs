//! What a user is told when the command framework reports a failure.

use vstd::prelude::*;
use vstd::string::StringExecFns;

use crate::text::{decimal, decimal_string};

verus! {

/// A failure as the command framework reports it, reduced to what the
/// answer depends on.
#[derive(Debug, PartialEq, Eq)]
pub enum FrameworkFailure {
    Setup,
    EventHandler,
    /// A command returned an error; `error` is its text.
    Command { error: String },
    /// A command group was called without one of its subcommands.
    SubcommandRequired { subcommands: Vec<String> },
    CommandPanic,
    /// An argument could not be parsed; `help_text` is the command's own.
    ArgumentParse { input: Option<String>, error: String, help_text: Option<String> },
    CommandStructureMismatch,
    CommandCheckFailed,
    CooldownHit { remaining_secs: u64 },
    MissingBotPermissions { missing_permissions: String },
    MissingUserPermissions { missing: Option<String>, prefix: String, command: String },
    NotAnOwner,
    GuildOnly,
    DmOnly,
    NsfwOnly,
    DynamicPrefix,
    UnknownCommand,
    UnknownInteraction,
    NonCommandMessage,
}

/// The answer to a failure.
#[derive(Debug, PartialEq, Eq)]
pub struct ErrorReply {
    pub title: String,
    pub description: String,
    /// Only the user who ran the command sees the answer.
    pub ephemeral: bool,
    /// The answer must not notify anybody it names.
    pub suppress_mentions: bool,
}

pub struct ErrorReplyView {
    pub title: Seq<char>,
    pub description: Seq<char>,
    pub ephemeral: bool,
    pub suppress_mentions: bool,
}

impl View for ErrorReply {
    type V = ErrorReplyView;

    open spec fn view(&self) -> ErrorReplyView {
        ErrorReplyView {
            title: self.title@,
            description: self.description@,
            ephemeral: self.ephemeral,
            suppress_mentions: self.suppress_mentions,
        }
    }
}

/// The first `n` names, with `, ` between them.
pub open spec fn listed(names: Seq<String>, n: int) -> Seq<char>
    decreases n,
{
    if n <= 0 {
        Seq::empty()
    } else if n == 1 {
        names[0]@
    } else {
        listed(names, n - 1) + ", "@ + names[n - 1]@
    }
}

fn list_names(names: &Vec<String>) -> (text: String)
    ensures
        text@ == listed(names@, names@.len() as int),
{
    let mut text = String::new();
    let mut i: usize = 0;
    while i < names.len()
        invariant
            i <= names@.len(),
            text@ == listed(names@, i as int),
        decreases names@.len() - i,
    {
        if i > 0 {
            text.append(", ");
        }
        text.append(names[i].as_str());
        assert(text@ =~= listed(names@, i + 1));
        i += 1;
    }
    text
}

/// The advice given when a command has no help text of its own.
pub open spec fn usage_text(help_text: Option<String>) -> Seq<char> {
    match help_text {
        Some(text) => text@,
        None => "Please check the help menu for usage information"@,
    }
}

/// The answer to a failure, if the user gets one; the other failures are
/// for the log only. All answers are private but those to a failed command
/// and to an argument that could not be parsed.
pub open spec fn error_reply(failure: FrameworkFailure) -> Option<ErrorReplyView> {
    match failure {
        FrameworkFailure::Command { error } => Some(
            ErrorReplyView {
                title: "Command Error"@,
                description: error@,
                ephemeral: false,
                suppress_mentions: false,
            },
        ),
        FrameworkFailure::SubcommandRequired { subcommands } => Some(
            ErrorReplyView {
                title: "Subcommand Required"@,
                description: "You must specify one of the following subcommands: `"@ + listed(
                    subcommands@,
                    subcommands@.len() as int,
                ) + "`"@,
                ephemeral: true,
                suppress_mentions: false,
            },
        ),
        FrameworkFailure::CommandPanic => Some(
            ErrorReplyView {
                title: "Internal error"@,
                description: "An unexpected internal error has occurred."@,
                ephemeral: true,
                suppress_mentions: false,
            },
        ),
        FrameworkFailure::ArgumentParse { input, error, help_text } => Some(
            ErrorReplyView {
                title: "Invalid Command Argument"@,
                description: match input {
                    Some(input) => "**Cannot parse `"@ + input@ + "` as argument: "@ + error@
                        + "**\n"@ + usage_text(help_text),
                    None => "**"@ + error@ + "**\n"@ + usage_text(help_text),
                },
                ephemeral: false,
                suppress_mentions: true,
            },
        ),
        FrameworkFailure::CooldownHit { remaining_secs } => Some(
            ErrorReplyView {
                title: "Cooldown Active"@,
                description: "You're too fast. Please wait "@ + decimal(remaining_secs as nat)
                    + " seconds before retrying"@,
                ephemeral: true,
                suppress_mentions: false,
            },
        ),
        FrameworkFailure::MissingBotPermissions { missing_permissions } => Some(
            ErrorReplyView {
                title: "Missing Bot Permissions"@,
                description:
                    "Command cannot be executed because the bot is lacking permissions: "@
                    + missing_permissions@,
                ephemeral: true,
                suppress_mentions: false,
            },
        ),
        FrameworkFailure::MissingUserPermissions { missing, prefix, command } => Some(
            ErrorReplyView {
                title: "Missing User Permissions"@,
                description: match missing {
                    Some(missing) => "You're lacking permissions for `"@ + prefix@ + command@
                        + "`: "@ + missing@,
                    None => "You may be lacking permissions for `"@ + prefix@ + command@
                        + "`. Not executing for safety"@,
                },
                ephemeral: true,
                suppress_mentions: false,
            },
        ),
        FrameworkFailure::NotAnOwner => Some(
            ErrorReplyView {
                title: "Permission Denied"@,
                description: "Only bot owners can call this command"@,
                ephemeral: true,
                suppress_mentions: false,
            },
        ),
        FrameworkFailure::GuildOnly => Some(
            ErrorReplyView {
                title: "Guild-Only Command"@,
                description: "You cannot run this command in DMs."@,
                ephemeral: true,
                suppress_mentions: false,
            },
        ),
        FrameworkFailure::DmOnly => Some(
            ErrorReplyView {
                title: "DM-Only Command"@,
                description: "You cannot run this command outside DMs."@,
                ephemeral: true,
                suppress_mentions: false,
            },
        ),
        FrameworkFailure::NsfwOnly => Some(
            ErrorReplyView {
                title: "NSFW-Only Command"@,
                description: "You cannot run this command outside NSFW channels."@,
                ephemeral: true,
                suppress_mentions: false,
            },
        ),
        _ => None,
    }
}

fn titled(title: &str, description: String, ephemeral: bool) -> (reply: Option<ErrorReply>)
    ensures
        reply is Some,
        reply.unwrap()@ == (ErrorReplyView {
            title: title@,
            description: description@,
            ephemeral,
            suppress_mentions: false,
        }),
{
    Some(
        ErrorReply {
            title: String::from_str(title),
            description,
            ephemeral,
            suppress_mentions: false,
        },
    )
}

fn usage_string(help_text: &Option<String>) -> (text: &str)
    ensures
        text@ == usage_text(*help_text),
{
    match help_text {
        Some(text) => text.as_str(),
        None => "Please check the help menu for usage information",
    }
}

pub fn on_error(failure: &FrameworkFailure) -> (reply: Option<ErrorReply>)
    ensures
        match error_reply(*failure) {
            Some(view) => reply is Some && reply.unwrap()@ == view,
            None => reply is None,
        },
{
    match failure {
        FrameworkFailure::Command { error } => titled("Command Error", error.clone(), false),
        FrameworkFailure::SubcommandRequired { subcommands } => {
            let mut description = String::from_str(
                "You must specify one of the following subcommands: `",
            );
            description.append(list_names(subcommands).as_str());
            description.append("`");
            titled("Subcommand Required", description, true)
        },
        FrameworkFailure::CommandPanic => titled(
            "Internal error",
            String::from_str("An unexpected internal error has occurred."),
            true,
        ),
        FrameworkFailure::ArgumentParse { input, error, help_text } => {
            let mut description = match input {
                Some(input) => {
                    let mut description = String::from_str("**Cannot parse `");
                    description.append(input.as_str());
                    description.append("` as argument: ");
                    description
                },
                None => String::from_str("**"),
            };
            description.append(error.as_str());
            description.append("**\n");
            description.append(usage_string(help_text));
            Some(
                ErrorReply {
                    title: String::from_str("Invalid Command Argument"),
                    description,
                    ephemeral: false,
                    suppress_mentions: true,
                },
            )
        },
        FrameworkFailure::CooldownHit { remaining_secs } => {
            let mut description = String::from_str("You're too fast. Please wait ");
            description.append(decimal_string(*remaining_secs).as_str());
            description.append(" seconds before retrying");
            titled("Cooldown Active", description, true)
        },
        FrameworkFailure::MissingBotPermissions { missing_permissions } => {
            let mut description = String::from_str(
                "Command cannot be executed because the bot is lacking permissions: ",
            );
            description.append(missing_permissions.as_str());
            titled("Missing Bot Permissions", description, true)
        },
        FrameworkFailure::MissingUserPermissions { missing, prefix, command } => {
            let description = match missing {
                Some(missing) => {
                    let mut description = String::from_str("You're lacking permissions for `");
                    description.append(prefix.as_str());
                    description.append(command.as_str());
                    description.append("`: ");
                    description.append(missing.as_str());
                    description
                },
                None => {
                    let mut description = String::from_str("You may be lacking permissions for `");
                    description.append(prefix.as_str());
                    description.append(command.as_str());
                    description.append("`. Not executing for safety");
                    description
                },
            };
            titled("Missing User Permissions", description, true)
        },
        FrameworkFailure::NotAnOwner => titled(
            "Permission Denied",
            String::from_str("Only bot owners can call this command"),
            true,
        ),
        FrameworkFailure::GuildOnly => titled(
            "Guild-Only Command",
            String::from_str("You cannot run this command in DMs."),
            true,
        ),
        FrameworkFailure::DmOnly => titled(
            "DM-Only Command",
            String::from_str("You cannot run this command outside DMs."),
            true,
        ),
        FrameworkFailure::NsfwOnly => titled(
            "NSFW-Only Command",
            String::from_str("You cannot run this command outside NSFW channels."),
            true,
        ),
        _ => None,
    }
}

} // verus!
