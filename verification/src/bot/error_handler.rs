//! What a user is told when a command has gone wrong.

use super::message::{Colour, Embed, EmbedView};
use crate::text::{u64_to_hex, upper_hex};
use vstd::prelude::*;

verus! {

/// What has gone wrong with a command
#[derive(Debug, Copy, Clone, PartialEq, Eq, Structural)]
pub enum CommandFailure {
    Command,
    SubcommandRequired,
    ArgumentParse,
    CooldownHit,
    MissingBotPermissions,
    MissingUserPermissions,
    NotAnOwner,
    GuildOnly,
    DmOnly,
    NsfwOnly,
    CommandCheckFailed,
}

/// What a failure is called.
pub open spec fn failure_title(failure: CommandFailure) -> Seq<char> {
    match failure {
        CommandFailure::Command => "Command"@,
        CommandFailure::SubcommandRequired => "Subcommand required"@,
        CommandFailure::ArgumentParse => "Argument parse error"@,
        CommandFailure::CooldownHit => "Cooldown hit"@,
        CommandFailure::MissingBotPermissions => "Missing bot permissions"@,
        CommandFailure::MissingUserPermissions => "Missing user permissions"@,
        CommandFailure::NotAnOwner => "Not an owner"@,
        CommandFailure::GuildOnly => "Guild only"@,
        CommandFailure::DmOnly => "DM only"@,
        CommandFailure::NsfwOnly => "NSFW only"@,
        CommandFailure::CommandCheckFailed => "Command check failed"@,
    }
}

impl CommandFailure {
    /// What this failure is called
    pub fn title(&self) -> (r: String)
        ensures
            r@ == failure_title(*self),
    {
        match self {
            CommandFailure::Command => "Command".to_owned(),
            CommandFailure::SubcommandRequired => "Subcommand required".to_owned(),
            CommandFailure::ArgumentParse => "Argument parse error".to_owned(),
            CommandFailure::CooldownHit => "Cooldown hit".to_owned(),
            CommandFailure::MissingBotPermissions => "Missing bot permissions".to_owned(),
            CommandFailure::MissingUserPermissions => "Missing user permissions".to_owned(),
            CommandFailure::NotAnOwner => "Not an owner".to_owned(),
            CommandFailure::GuildOnly => "Guild only".to_owned(),
            CommandFailure::DmOnly => "DM only".to_owned(),
            CommandFailure::NsfwOnly => "NSFW only".to_owned(),
            CommandFailure::CommandCheckFailed => "Command check failed".to_owned(),
        }
    }

    /// What the user is told. The nonce is to find the log entry by; what exactly has gone wrong is only logged.
    pub fn reply(&self, nonce: u64) -> (r: Embed)
        ensures
            r@ == (EmbedView {
                title: failure_title(*self) + " Error"@,
                description: "An unexpected error has occurred. Please report this to the bot developer with error code `"@
                    + upper_hex(nonce as nat, 16)
                    + "`\n\nBugs can be reported on [our GitHub](<https://github.com/zkxs/jinx/issues>) or in [our Discord](<https://discord.gg/aKkA6m26f9>)."@,
                colour: Some(Colour::Red),
            }),
    {
        Embed::new(
            self.title().concat(" Error").as_str(),
            "An unexpected error has occurred. Please report this to the bot developer with error code `".to_owned().concat(
                u64_to_hex(nonce).as_str(),
            ).concat(
                "`\n\nBugs can be reported on [our GitHub](<https://github.com/zkxs/jinx/issues>) or in [our Discord](<https://discord.gg/aKkA6m26f9>).",
            ),
            Some(Colour::Red),
        )
    }
}

} // verus!
