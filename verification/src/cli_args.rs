//! What the bot can be asked to do on the command line.

use crate::text::{parse_u64, parsed_u64};
use vstd::prelude::*;

verus! {

/// Discord bot that handles Jinxxy license registration.
/// If ran with no subcommands the bot will start.
#[derive(Debug)]
pub struct JinxArgs {
    pub command: Option<Command>,
}

#[derive(Debug)]
pub enum Command {
    /// Initialize DB with a Discord bot token and exit.
    Init {
        /// Discord token. Depending on execution environment it may not be secure to pass secrets as a command-line argument.
        /// Instead, you may provide it with the `DISCORD_TOKEN` environment variable.
        discord_token: Option<String>,
    },
    /// Check GitHub for updates
    UpdateCheck,
    /// Modify bot owners
    Owner(OwnerArgs),
    /// Migrate v1 -> v2 database, and then exit
    Migrate,
    /// Change advanced configuration values
    Configure(SetArgs),
}

#[derive(Debug)]
pub struct OwnerArgs {
    pub command: OwnerCommand,
}

#[derive(Debug)]
pub enum OwnerCommand {
    /// Add a new bot owner
    Add {
        /// Discord ID to add as a new bot owner
        discord_id: String,
    },
    /// Remove a bot owner
    Rm {
        /// Discord ID to remove as a bot owner
        discord_id: String,
    },
    /// List bot owners
    Ls,
}

#[derive(Debug)]
pub struct SetArgs {
    pub command: SetCommand,
}

#[derive(Debug)]
pub enum SetCommand {
    /// Enables the privileged GUILD_MEMBERS intent. Setting this to `true` will break bot startup unless the intent is
    /// enabled in the developer portal.
    GuildMembers {
        /// Should the intent be specified during bot startup?
        enabled: bool,
    },
}

/// The Discord token to start with: that of the command line, or else that of the environment
pub fn choose_discord_token(argument: Option<String>, environment: Option<String>) -> (r: Option<String>)
    ensures
        r == (if argument is Some {
            argument
        } else {
            environment
        }),
{
    match argument {
        Some(discord_token) => Some(discord_token),
        None => environment,
    }
}

/// Parse the Discord ID of a bot owner
pub fn parse_discord_id(discord_id: &str) -> (r: Result<u64, std::num::ParseIntError>)
    ensures
        r is Ok <==> parsed_u64(discord_id@) is Some,
        r matches Ok(id) ==> parsed_u64(discord_id@) == Some(id),
{
    parse_u64(discord_id)
}

} // verus!
