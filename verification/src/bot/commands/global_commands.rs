//! Commands that are available everywhere

use crate::bot::message::{Colour, Embed, EmbedView};
use crate::bot::util::{error_reply, success_reply};
use crate::http::update_checker::{version_check_text, VersionCheck};
use crate::pattern::{is_jinxxy_api_key, regex_is_match, JINXXY_API_KEY_PATTERN};
use crate::text::{decimal, str_equals, trim, trimmed, u64_to_string};
use vstd::prelude::*;

verus! {

/// Message shown to admins when the Jinxxy API key is missing
pub const MISSING_API_KEY_MESSAGE: &'static str =
    "Jinxxy API key is not set: please use the `/init` command to set it.";

/// Message shown to admins when there's no store link for the username they provided via some command
pub const MISSING_STORE_LINK_MESSAGE: &'static str = "No linked store with that username was found.";

/// What the bot is shown to be doing.
pub fn get_activity_string(distinct_user_count: u64) -> (r: String)
    ensures
        r@ == "Helping "@ + decimal(distinct_user_count as nat) + " users register Jinxxy products"@,
{
    "Helping ".to_owned().concat(u64_to_string(distinct_user_count).as_str()).concat(" users register Jinxxy products")
}

/// What the owner of a guild is told whose users confuse Jinx with a bot for Gumroad.
pub fn gumroad_nag(gumroad_failure_count: u64) -> (r: Embed)
    ensures
        r@ == (EmbedView {
            title: "Jinxxy/Gumroad Confusion Alert"@,
            description: "Jinx has detected that a significant number ("@ + decimal(gumroad_failure_count as nat)
                + ") of your users are providing Gumroad license keys to Jinx. This may indicate confusion between GumCord and Jinx. To improve your user experience, please consider adding documentation messages in your server to help direct users to the correct bots. **This is the only time this alert will appear**: in the future you can use the `/stats` command to view the current count of failed Gumroad activation attempts Jinx has seen."@,
            colour: Some(Colour::Orange),
        }),
{
    Embed::new(
        "Jinxxy/Gumroad Confusion Alert",
        "Jinx has detected that a significant number (".to_owned().concat(
            u64_to_string(gumroad_failure_count).as_str(),
        ).concat(
            ") of your users are providing Gumroad license keys to Jinx. This may indicate confusion between GumCord and Jinx. To improve your user experience, please consider adding documentation messages in your server to help direct users to the correct bots. **This is the only time this alert will appear**: in the future you can use the `/stats` command to view the current count of failed Gumroad activation attempts Jinx has seen.",
        ),
        Some(Colour::Orange),
    )
}

/// Shows bot help
pub fn help() -> (r: Embed)
    ensures
        r@ == (EmbedView {
            title: "Jinx Help"@,
            description: "Jinx is a Discord bot that grants roles to users when they register Jinxxy license keys.\nFor documentation, see https://github.com/zkxs/jinx\nFor support, join https://discord.gg/aKkA6m26f9"@,
            colour: None,
        }),
{
    Embed::new(
        "Jinx Help",
        "Jinx is a Discord bot that grants roles to users when they register Jinxxy license keys.\nFor documentation, see https://github.com/zkxs/jinx\nFor support, join https://discord.gg/aKkA6m26f9".to_owned(),
        None,
    )
}

/// What is said about an update, if there is anything to say.
pub open spec fn update_notice(check: VersionCheck) -> Option<EmbedView> {
    match check {
        VersionCheck::Current => None,
        VersionCheck::Outdated(_) => Some(
            EmbedView {
                title: "Warning"@,
                description: version_check_text(check),
                colour: Some(Colour::Orange),
            },
        ),
        _ => Some(
            EmbedView { title: "Error"@, description: version_check_text(check), colour: Some(Colour::Red) },
        ),
    }
}

/// What is said about an update, if there is anything to say
pub fn version(version_check: &VersionCheck) -> (r: Option<Embed>)
    ensures
        r is Some <==> update_notice(*version_check) is Some,
        r matches Some(embed) ==> update_notice(*version_check) == Some(embed@),
{
    if version_check.is_warn() {
        Some(Embed::new("Warning", version_check.describe(), Some(Colour::Orange)))
    } else if version_check.is_error() {
        Some(Embed::new("Error", version_check.describe(), Some(Colour::Red)))
    } else {
        None
    }
}

/// What somebody wants who sets up Jinx for a server
#[derive(Debug)]
pub enum InitRequest {
    /// Install or uninstall the commands for bot owners
    OwnerCommands { install: bool },
    /// Set the API key
    SetApiKey(String),
    /// Something that is no API key
    Unrecognized,
    /// Nothing in particular: the commands are reinstalled if there is an API key already
    Reinstall,
}

/// Whether a request is what was asked for with the given text.
pub open spec fn is_init_request(request: InitRequest, api_key: Option<Seq<char>>) -> bool {
    if api_key is None || trimmed(api_key->0).len() == 0 {
        request is Reinstall
    } else {
        let key = trimmed(api_key->0);
        if key == "install_owner_commands"@ {
            request == (InitRequest::OwnerCommands { install: true })
        } else if key == "uninstall_owner_commands"@ {
            request == (InitRequest::OwnerCommands { install: false })
        } else if is_jinxxy_api_key(key) {
            request matches InitRequest::SetApiKey(k) && k@ == key
        } else {
            request is Unrecognized
        }
    }
}

/// Find out what somebody wants who sets up Jinx for a server
pub fn init_request(api_key: Option<&str>) -> (r: InitRequest)
    ensures
        is_init_request(
            r,
            match api_key {
                Some(key) => Some(key@),
                None => None,
            },
        ),
{
    let key = match api_key {
        Some(api_key) => trim(api_key),
        None => return InitRequest::Reinstall,
    };
    if key.is_empty() {
        InitRequest::Reinstall
    } else if str_equals(key, "install_owner_commands") {
        // here we have a bit of an easter-egg to install owner commands
        InitRequest::OwnerCommands { install: true }
    } else if str_equals(key, "uninstall_owner_commands") {
        InitRequest::OwnerCommands { install: false }
    } else if regex_is_match(JINXXY_API_KEY_PATTERN, key) {
        InitRequest::SetApiKey(key.to_owned())
    } else {
        InitRequest::Unrecognized
    }
}

/// What has come of a request
#[derive(Debug)]
pub enum InitOutcome {
    /// The owner commands were installed or uninstalled
    OwnerCommandsSet { install: bool },
    /// The owner commands were asked for by somebody who is no owner
    NotOwner,
    /// The API key was set. It belongs to a user of this name, and may lack scopes.
    ApiKeySet { display_name: String, has_required_scopes: bool },
    /// Jinxxy does not know the API key, or could not be asked. Holds what went wrong.
    ApiKeyNotVerified { error: String },
    /// What was provided is no API key
    Unrecognized,
    /// The commands were reinstalled
    Reinstalled,
    /// There is no API key yet
    NoApiKey,
}

/// What is answered to a request.
pub open spec fn init_answer(outcome: InitOutcome) -> EmbedView {
    match outcome {
        InitOutcome::OwnerCommandsSet { install } => EmbedView {
            title: "Success"@,
            description: if install {
                "Owner commands installed."@
            } else {
                "Owner commands uninstalled."@
            },
            colour: Some(Colour::DarkGreen),
        },
        InitOutcome::NotOwner => EmbedView {
            title: "Error"@,
            description: "Not an owner"@,
            colour: Some(Colour::Red),
        },
        InitOutcome::ApiKeySet { display_name, .. } => EmbedView {
            title: "Success"@,
            description: "Welcome, "@ + display_name@
                + "! API key set and additional slash commands enabled. Please continue bot setup."@,
            colour: Some(Colour::DarkGreen),
        },
        InitOutcome::ApiKeyNotVerified { error } => EmbedView {
            title: "Error"@,
            description: "Error verifying API key: "@ + error@,
            colour: Some(Colour::Red),
        },
        InitOutcome::Unrecognized => EmbedView {
            title: "Error"@,
            description: "Provided API key appears to be invalid. API keys should look like `sk_9bba2064ee8c20aa4fd6b015eed2001a`. If you need help, bot setup documentation can be found [here](<https://github.com/zkxs/jinx#installation>)."@,
            colour: Some(Colour::Red),
        },
        InitOutcome::Reinstalled => EmbedView {
            title: "Success"@,
            description: "Commands reinstalled."@,
            colour: Some(Colour::DarkGreen),
        },
        InitOutcome::NoApiKey => EmbedView {
            title: "Error"@,
            description: "Please provide a Jinxxy API key"@,
            colour: Some(Colour::Red),
        },
    }
}

impl InitOutcome {
    /// What is answered to a request
    pub fn answer(&self) -> (r: Embed)
        ensures
            r@ == init_answer(*self),
    {
        match self {
            InitOutcome::OwnerCommandsSet { install } => if *install {
                success_reply("Success", "Owner commands installed.".to_owned())
            } else {
                success_reply("Success", "Owner commands uninstalled.".to_owned())
            },
            InitOutcome::NotOwner => error_reply("Error", "Not an owner".to_owned()),
            InitOutcome::ApiKeySet { display_name, .. } => success_reply(
                "Success",
                "Welcome, ".to_owned().concat(display_name.as_str()).concat(
                    "! API key set and additional slash commands enabled. Please continue bot setup.",
                ),
            ),
            InitOutcome::ApiKeyNotVerified { error } => error_reply(
                "Error",
                "Error verifying API key: ".to_owned().concat(error.as_str()),
            ),
            InitOutcome::Unrecognized => error_reply(
                "Error",
                "Provided API key appears to be invalid. API keys should look like `sk_9bba2064ee8c20aa4fd6b015eed2001a`. If you need help, bot setup documentation can be found [here](<https://github.com/zkxs/jinx#installation>).".to_owned(),
            ),
            InitOutcome::Reinstalled => success_reply("Success", "Commands reinstalled.".to_owned()),
            InitOutcome::NoApiKey => error_reply("Error", "Please provide a Jinxxy API key".to_owned()),
        }
    }

    /// What is added to the answer if the API key lacks scopes
    pub fn warning(&self) -> (r: Option<Embed>)
        ensures
            r is Some <==> (*self matches InitOutcome::ApiKeySet { has_required_scopes, .. } && !has_required_scopes),
            r matches Some(embed) ==> embed@ == (EmbedView {
                title: "Permission Warning"@,
                description: "Provided API key is missing at least one of the mandatory scopes. Jinx commands may not work correctly. Please double-check your API key setup against the documentation [here](<https://github.com/zkxs/jinx#installation>)."@,
                colour: Some(Colour::Orange),
            }),
    {
        match self {
            InitOutcome::ApiKeySet { has_required_scopes, .. } => if *has_required_scopes {
                None
            } else {
                Some(
                    Embed::new(
                        "Permission Warning",
                        "Provided API key is missing at least one of the mandatory scopes. Jinx commands may not work correctly. Please double-check your API key setup against the documentation [here](<https://github.com/zkxs/jinx#installation>).".to_owned(),
                        Some(Colour::Orange),
                    ),
                )
            },
            _ => None,
        }
    }
}

/// Which sets of commands a guild gets: as the caller wants it, or else as the database has it.
///
/// If `force_owner` or `force_creator` are None, it infers using DB state. If they are Some(bool), the bool
/// will be used to forcibly set or unset the owner/creator flags for the purpose of installing (or uninstalling!)
/// commands.
pub fn command_sets(
    force_owner: Option<bool>,
    force_creator: Option<bool>,
    is_owner_guild: bool,
    has_jinxxy_linked: bool,
) -> (r: (bool, bool))
    ensures
        r.0 == (match force_owner {
            Some(owner) => owner,
            None => is_owner_guild,
        }),
        r.1 == (match force_creator {
            Some(creator) => creator,
            None => has_jinxxy_linked,
        }),
{
    let owner = match force_owner {
        Some(owner) => owner,
        None => is_owner_guild,
    };
    let creator = match force_creator {
        Some(creator) => creator,
        None => has_jinxxy_linked,
    };
    (owner, creator)
}

} // verus!
