//! Commands for bot owners

use super::licenses::{counts_text, ActivationCounts};
use super::links::united;
use crate::bot::cache::contains_text;
use crate::bot::message::{mention_user, user_mention, Colour, Embed, EmbedView};
use crate::bot::util::{contains_id, error_reply, success_reply};
use crate::http::jinxxy::{
    profile_url_of, AuthUser, GetProfileUrl, GetUsername,
};
use crate::text::{
    bool_text, bool_to_string, decimal, line_breaks_unescaped, parse_u64, parsed_u64, quote, quoted, replace_text, u64_to_string,
};
use vstd::prelude::*;

verus! {

/// Statistics about bot load and performance
#[derive(Debug)]
pub struct OwnerStats {
    pub db_total_bytes: u64,
    pub db_free_bytes: u64,
    pub available_guilds: u64,
    pub unavailable_guilds: u64,
    pub configured_guilds: u64,
    pub stale_guilds: u64,
    pub log_channels: u64,
    pub license_activations: u64,
    pub distinct_activators: u64,
    pub wildcard_role_links: u64,
    pub product_role_links: u64,
    pub product_version_role_links: u64,
    pub cached_products: u64,
    pub cached_product_versions: u64,
    pub cached_stores: u64,
    pub registered_stores: u64,
    pub shards: u64,
    /// What is known of each shard
    pub shard_lines: Vec<String>,
    pub tokio_workers: u64,
    pub tokio_alive_tasks: u64,
    pub tokio_global_queue_depth: u64,
    pub query_micros: u64,
}

/// A number of bytes in KiB, rounded up.
pub open spec fn kibibytes(bytes: u64) -> nat {
    ((bytes + 1023) / 1024) as nat
}

/// A number of bytes in KiB, rounded up
pub fn to_kibibytes(bytes: u64) -> (r: u64)
    ensures
        r == kibibytes(bytes),
{
    if bytes % 1024 == 0 {
        bytes / 1024
    } else {
        bytes / 1024 + 1
    }
}

/// Lines, each behind a line break and a bullet.
pub open spec fn bullet_lines(lines: Seq<String>) -> Seq<char>
    decreases lines.len(),
{
    if lines.len() == 0 {
        Seq::empty()
    } else {
        bullet_lines(lines.drop_last()) + "\n- "@ + lines.last()@
    }
}

fn list_lines(lines: &[String]) -> (r: String)
    ensures
        r@ == bullet_lines(lines@),
{
    let mut list = String::new();
    for i in 0..lines.len()
        invariant
            list@ == bullet_lines(lines@.take(i as int)),
    {
        proof {
            assert(lines@.take(i + 1).drop_last() =~= lines@.take(i as int));
            assert(lines@.take(i + 1).last() == lines@[i as int]);
        }
        list = list.concat("\n- ").concat(lines[i].as_str());
    }
    proof {
        assert(lines@.take(lines@.len() as int) =~= lines@);
    }
    list
}

/// What is known of guilds and links.
pub open spec fn guild_stats_text(s: OwnerStats) -> Seq<char> {
    "db size="@ + decimal(kibibytes(s.db_total_bytes)) + " KiB\ndb free="@ + decimal(kibibytes(s.db_free_bytes))
        + " KiB\ncached available guilds="@ + decimal(s.available_guilds as nat) + "\ncached unavailable guilds="@
        + decimal(s.unavailable_guilds as nat) + "\nconfigured guilds="@ + decimal(s.configured_guilds as nat)
        + "\nstale guilds="@ + decimal(s.stale_guilds as nat) + "\nlog channels="@ + decimal(s.log_channels as nat)
        + "\nlicense activations="@ + decimal(s.license_activations as nat) + "\ndistinct activators="@ + decimal(
        s.distinct_activators as nat,
    ) + "\nwildcard role links="@ + decimal(s.wildcard_role_links as nat) + "\nproduct→role links="@ + decimal(
        s.product_role_links as nat,
    ) + "\nproduct+version→role links="@ + decimal(s.product_version_role_links as nat)
}

/// What is known of caches and the machine.
pub open spec fn machine_stats_text(s: OwnerStats) -> Seq<char> {
    "\nAPI cache total products="@ + decimal(s.cached_products as nat) + "\nAPI cache total product versions="@
        + decimal(s.cached_product_versions as nat) + "\nAPI cache stores="@ + decimal(s.cached_stores as nat)
        + "\nAPI cache registered="@ + decimal(s.registered_stores as nat) + "\nshards="@ + decimal(s.shards as nat)
        + bullet_lines(s.shard_lines@) + "\ntokio num_workers="@ + decimal(s.tokio_workers as nat)
        + "\ntokio num_alive_tasks="@ + decimal(s.tokio_alive_tasks as nat) + "\ntokio global_queue_depth="@ + decimal(
        s.tokio_global_queue_depth as nat,
    ) + "\nquery time="@ + decimal(s.query_micros as nat) + "μs"@
}

fn describe_guild_stats(s: &OwnerStats) -> (r: String)
    ensures
        r@ == guild_stats_text(*s),
{
    "db size=".to_owned().concat(u64_to_string(to_kibibytes(s.db_total_bytes)).as_str()).concat(
        " KiB\ndb free=",
    ).concat(u64_to_string(to_kibibytes(s.db_free_bytes)).as_str()).concat(" KiB\ncached available guilds=").concat(
        u64_to_string(s.available_guilds).as_str(),
    ).concat("\ncached unavailable guilds=").concat(u64_to_string(s.unavailable_guilds).as_str()).concat(
        "\nconfigured guilds=",
    ).concat(u64_to_string(s.configured_guilds).as_str()).concat("\nstale guilds=").concat(
        u64_to_string(s.stale_guilds).as_str(),
    ).concat("\nlog channels=").concat(u64_to_string(s.log_channels).as_str()).concat(
        "\nlicense activations=",
    ).concat(u64_to_string(s.license_activations).as_str()).concat("\ndistinct activators=").concat(
        u64_to_string(s.distinct_activators).as_str(),
    ).concat("\nwildcard role links=").concat(u64_to_string(s.wildcard_role_links).as_str()).concat(
        "\nproduct→role links=",
    ).concat(u64_to_string(s.product_role_links).as_str()).concat("\nproduct+version→role links=").concat(
        u64_to_string(s.product_version_role_links).as_str(),
    )
}

fn describe_machine_stats(s: &OwnerStats) -> (r: String)
    ensures
        r@ == machine_stats_text(*s),
{
    "\nAPI cache total products=".to_owned().concat(u64_to_string(s.cached_products).as_str()).concat(
        "\nAPI cache total product versions=",
    ).concat(u64_to_string(s.cached_product_versions).as_str()).concat("\nAPI cache stores=").concat(
        u64_to_string(s.cached_stores).as_str(),
    ).concat("\nAPI cache registered=").concat(u64_to_string(s.registered_stores).as_str()).concat(
        "\nshards=",
    ).concat(u64_to_string(s.shards).as_str()).concat(list_lines(s.shard_lines.as_slice()).as_str()).concat(
        "\ntokio num_workers=",
    ).concat(u64_to_string(s.tokio_workers).as_str()).concat("\ntokio num_alive_tasks=").concat(
        u64_to_string(s.tokio_alive_tasks).as_str(),
    ).concat("\ntokio global_queue_depth=").concat(u64_to_string(s.tokio_global_queue_depth).as_str()).concat(
        "\nquery time=",
    ).concat(u64_to_string(s.query_micros).as_str()).concat("μs")
}

/// Get statistics about bot load and performance
pub fn owner_stats(stats: &OwnerStats) -> (r: Embed)
    ensures
        r@ == (EmbedView {
            title: "Jinx Owner Stats"@,
            description: guild_stats_text(*stats) + machine_stats_text(*stats),
            colour: None,
        }),
{
    Embed::new(
        "Jinx Owner Stats",
        describe_guild_stats(stats).concat(describe_machine_stats(stats).as_str()),
        None,
    )
}

/// How much is in the cache
#[derive(Debug, Copy, Clone)]
pub struct CacheSize {
    pub products: u64,
    pub product_versions: u64,
    pub stores: u64,
}

/// How much is in the cache, each number on a line of its own.
pub open spec fn cache_size_text(size: CacheSize) -> Seq<char> {
    "API cache total products="@ + decimal(size.products as nat) + "\nAPI cache total product versions="@ + decimal(
        size.product_versions as nat,
    ) + "\nAPI cache guilds="@ + decimal(size.stores as nat)
}

fn describe_cache_size(size: &CacheSize) -> (r: String)
    ensures
        r@ == cache_size_text(*size),
{
    "API cache total products=".to_owned().concat(u64_to_string(size.products).as_str()).concat(
        "\nAPI cache total product versions=",
    ).concat(u64_to_string(size.product_versions).as_str()).concat("\nAPI cache guilds=").concat(
        u64_to_string(size.stores).as_str(),
    )
}

/// How long it took to clear the cache
#[derive(Debug, Copy, Clone)]
pub struct ClearTimes {
    pub first_metrics_micros: u64,
    pub db_clear_millis: u64,
    pub cache_clear_micros: u64,
    pub second_metrics_micros: u64,
}

/// How long it took to clear the cache, each number on a line of its own.
pub open spec fn clear_times_text(times: ClearTimes) -> Seq<char> {
    "m1="@ + decimal(times.first_metrics_micros as nat) + "μs\ndb="@ + decimal(times.db_clear_millis as nat)
        + "ms\nmem="@ + decimal(times.cache_clear_micros as nat) + "μs\nm2="@ + decimal(
        times.second_metrics_micros as nat,
    ) + "μs"@
}

/// Delete the API cache from memory and disk: what is said afterwards
pub fn cache_cleared(before: &CacheSize, after: &CacheSize, times: &ClearTimes) -> (r: Embed)
    ensures
        r@ == (EmbedView {
            title: "API Cache Cleared"@,
            description: "**Before:**\n"@ + cache_size_text(*before) + "\n**After:**\n"@ + cache_size_text(*after)
                + "\n**Elapsed:**\n"@ + clear_times_text(*times),
            colour: None,
        }),
{
    let elapsed = "m1=".to_owned().concat(u64_to_string(times.first_metrics_micros).as_str()).concat(
        "μs\ndb=",
    ).concat(u64_to_string(times.db_clear_millis).as_str()).concat("ms\nmem=").concat(
        u64_to_string(times.cache_clear_micros).as_str(),
    ).concat("μs\nm2=").concat(u64_to_string(times.second_metrics_micros).as_str()).concat("μs");
    Embed::new(
        "API Cache Cleared",
        "**Before:**\n".to_owned().concat(describe_cache_size(before).as_str()).concat("\n**After:**\n").concat(
            describe_cache_size(after).as_str(),
        ).concat("\n**Elapsed:**\n").concat(elapsed.as_str()),
        None,
    )
}

/// An announcement to log channels. Line breaks are written as `\n` in the command.
pub fn announcement(title: Option<&str>, message: &str, test_only: bool) -> (r: Embed)
    ensures
        r@ == (EmbedView {
            title: match title {
                Some(title) => title@,
                None => if test_only {
                    "Test Announcement"@
                } else {
                    "Announcement"@
                },
            },
            description: line_breaks_unescaped(message@),
            colour: None,
        }),
{
    let title = match title {
        Some(title) => title,
        None => if test_only {
            "Test Announcement"
        } else {
            "Announcement"
        },
    };
    Embed::new(title, replace_text(message, "\\n", "\n"), None)
}

/// What is said when an announcement was sent
pub fn announcement_sent(successful_messages: u64, channel_count: u64) -> (r: Embed)
    ensures
        r@ == (EmbedView {
            title: "Success"@,
            description: "Sent announcement to "@ + decimal(successful_messages as nat) + "/"@ + decimal(
                channel_count as nat,
            ) + " channels"@,
            colour: Some(Colour::DarkGreen),
        }),
{
    success_reply(
        "Success",
        "Sent announcement to ".to_owned().concat(u64_to_string(successful_messages).as_str()).concat("/").concat(
            u64_to_string(channel_count).as_str(),
        ).concat(" channels"),
    )
}

/// What is said when a guild was set as a test guild, or not
pub fn test_guild_set(test: bool) -> (r: Embed)
    ensures
        r@ == (EmbedView {
            title: "Success"@,
            description: if test {
                "this guild is now set as a test guild"@
            } else {
                "this guild is now set as a production guild"@
            },
            colour: Some(Colour::DarkGreen),
        }),
{
    let message = if test {
        "this guild is now set as a test guild".to_owned()
    } else {
        "this guild is now set as a production guild".to_owned()
    };
    success_reply("Success", message)
}

/// Why a text is not the ID of a guild
#[derive(Debug)]
pub enum GuildIdError {
    /// No guild has the ID 0
    Zero,
    NotANumber(std::num::ParseIntError),
}

/// Parse the ID of a guild
pub fn parse_guild_id(guild_id: &str) -> (r: Result<u64, GuildIdError>)
    ensures
        parsed_u64(guild_id@) is None ==> (r matches Err(e) && e is NotANumber),
        parsed_u64(guild_id@) matches Some(id) ==> r == (if id == 0 {
            Result::<u64, GuildIdError>::Err(GuildIdError::Zero)
        } else {
            Result::<u64, GuildIdError>::Ok(id)
        }),
{
    match parse_u64(guild_id) {
        Ok(guild_id) => if guild_id == 0 {
            Err(GuildIdError::Zero)
        } else {
            Ok(guild_id)
        },
        Err(e) => Err(GuildIdError::NotANumber(e)),
    }
}

/// What is said about a text that is not the ID of a guild, given what is wrong with the number if it is none
pub fn guild_id_error(title: &str, parse_error: Option<&str>) -> (r: Embed)
    ensures
        r@ == (EmbedView {
            title: title@,
            description: match parse_error {
                None => "Guild was invalid (id of 0)"@,
                Some(e) => "Guild was invalid (parse error: "@ + e@ + ")"@,
            },
            colour: Some(Colour::Red),
        }),
{
    let message = match parse_error {
        None => "Guild was invalid (id of 0)".to_owned(),
        Some(e) => "Guild was invalid (parse error: ".to_owned().concat(e).concat(")"),
    };
    error_reply(title, message)
}

/// Verify guild ownership: what is said about the owner of a guild
pub fn verify_owner(owner_id: u64, expected_owner_id: Option<u64>) -> (r: Embed)
    ensures
        r@ == (match expected_owner_id {
            Some(expected) => if owner_id == expected {
                EmbedView {
                    title: "Guild Verification Success"@,
                    description: "Provided user owns that guild."@,
                    colour: Some(Colour::DarkGreen),
                }
            } else {
                EmbedView {
                    title: "Guild Verification Failure"@,
                    description: "Provided user does not own that guild. Actual owner is "@ + user_mention(owner_id)
                        + "."@,
                    colour: Some(Colour::Orange),
                }
            },
            None => EmbedView {
                title: "Guild Verification Result"@,
                description: "Guild owned by "@ + user_mention(owner_id),
                colour: Some(Colour::DarkGreen),
            },
        }),
{
    match expected_owner_id {
        // we have an expected owner to check
        Some(expected) => if owner_id == expected {
            Embed::new(
                "Guild Verification Success",
                "Provided user owns that guild.".to_owned(),
                Some(Colour::DarkGreen),
            )
        } else {
            Embed::new(
                "Guild Verification Failure",
                "Provided user does not own that guild. Actual owner is ".to_owned().concat(
                    mention_user(owner_id).as_str(),
                ).concat("."),
                Some(Colour::Orange),
            )
        },
        // we don't have an expected owner to check, so just print the actual owner
        None => Embed::new(
            "Guild Verification Result",
            "Guild owned by ".to_owned().concat(mention_user(owner_id).as_str()),
            Some(Colour::DarkGreen),
        ),
    }
}

/// What is known of a guild
#[derive(Debug)]
pub struct GuildInformation {
    pub name: String,
    pub banned: bool,
    pub note: Option<String>,
    pub description: Option<String>,
    pub has_log_channel: bool,
    pub is_test: bool,
    pub administrator: bool,
    pub manage_roles: bool,
    pub counts: ActivationCounts,
    pub gumroad_failure_count: Option<u64>,
    pub gumroad_nag_count: Option<u64>,
    /// The role that would be mentioned in a nag
    pub nag_role: Option<String>,
    pub top_channel: Option<String>,
}

/// An optional text, or else another one.
pub open spec fn text_or(text: Option<String>, other: Seq<char>) -> Seq<char> {
    match text {
        Some(text) => text@,
        None => other,
    }
}

/// An optional number, or else zero.
pub open spec fn number_or_zero(number: Option<u64>) -> nat {
    match number {
        Some(number) => number as nat,
        None => 0,
    }
}

fn show_or(text: &Option<String>, other: &str) -> (r: String)
    ensures
        r@ == text_or(*text, other@),
{
    match text {
        Some(text) => text.clone(),
        None => other.to_owned(),
    }
}

fn show_number(number: Option<u64>) -> (r: String)
    ensures
        r@ == decimal(number_or_zero(number)),
{
    match number {
        Some(number) => u64_to_string(number),
        None => u64_to_string(0),
    }
}

/// What is known of a guild, each thing on a line of its own.
pub open spec fn guild_information_text(g: GuildInformation) -> Seq<char> {
    "Name="@ + g.name@ + "\nBanned="@ + bool_text(g.banned) + "\nNote="@ + text_or(g.note, ""@) + "\nDescription="@
        + text_or(g.description, ""@) + "\nLog channel="@ + bool_text(g.has_log_channel) + "\nTest="@ + bool_text(
        g.is_test,
    ) + "\nAdmin="@ + bool_text(g.administrator) + "\nManage Roles="@ + bool_text(g.manage_roles) + "\n"@ + counts_text(
        g.counts,
    ) + "\nfailed gumroad licenses="@ + decimal(number_or_zero(g.gumroad_failure_count)) + "\ngumroad nags="@ + decimal(
        number_or_zero(g.gumroad_nag_count),
    ) + "\nnag role="@ + text_or(g.nag_role, ""@) + "\ntop channel="@ + text_or(g.top_channel, "`null`"@)
}

/// What is known of a guild
pub fn guild_information(g: &GuildInformation) -> (r: Embed)
    ensures
        r@ == (EmbedView {
            title: "Guild Information"@,
            description: guild_information_text(*g),
            colour: None,
        }),
{
    let description = "Name=".to_owned().concat(g.name.as_str()).concat("\nBanned=").concat(
        bool_to_string(g.banned).as_str(),
    ).concat("\nNote=").concat(show_or(&g.note, "").as_str()).concat("\nDescription=").concat(
        show_or(&g.description, "").as_str(),
    ).concat("\nLog channel=").concat(bool_to_string(g.has_log_channel).as_str()).concat("\nTest=").concat(
        bool_to_string(g.is_test).as_str(),
    ).concat("\nAdmin=").concat(bool_to_string(g.administrator).as_str()).concat("\nManage Roles=").concat(
        bool_to_string(g.manage_roles).as_str(),
    ).concat("\n").concat(g.counts.describe().as_str()).concat("\nfailed gumroad licenses=").concat(
        show_number(g.gumroad_failure_count).as_str(),
    ).concat("\ngumroad nags=").concat(show_number(g.gumroad_nag_count).as_str()).concat("\nnag role=").concat(
        show_or(&g.nag_role, "").as_str(),
    ).concat("\ntop channel=").concat(show_or(&g.top_channel, "`null`").as_str());
    Embed::new("Guild Information", description, None)
}

/// The URL of the icon of a guild
pub fn guild_icon_url(guild_id: u64, icon: &str) -> (r: String)
    ensures
        r@ == "https://cdn.discordapp.com/icons/"@ + decimal(guild_id as nat) + "/"@ + icon@ + ".webp?size=128"@,
{
    "https://cdn.discordapp.com/icons/".to_owned().concat(u64_to_string(guild_id).as_str()).concat("/").concat(
        icon,
    ).concat(".webp?size=128")
}

/// What is said about a guild that is not known
pub fn guild_not_cached() -> (r: Embed)
    ensures
        r@ == (EmbedView {
            title: "Guild Verification Error"@,
            description: "Guild not in cache"@,
            colour: Some(Colour::Red),
        }),
{
    error_reply("Guild Verification Error", "Guild not in cache".to_owned())
}

/// Texts with commas between them.
pub open spec fn comma_separated(texts: Seq<Seq<char>>) -> Seq<char>
    decreases texts.len(),
{
    if texts.len() == 0 {
        Seq::empty()
    } else {
        let others = comma_separated(texts.drop_last());
        (if texts.len() == 1 {
            others
        } else {
            others + ", "@
        }) + texts.last()
    }
}

/// A set of texts
pub fn set_text(texts: &[String]) -> (r: String)
    ensures
        r@ == "{"@ + comma_separated(texts@.map_values(|text: String| text@)) + "}"@,
{
    let ghost shown = texts@.map_values(|text: String| text@);
    let mut list = String::new();
    for i in 0..texts.len()
        invariant
            shown == texts@.map_values(|text: String| text@),
            list@ == comma_separated(shown.take(i as int)),
    {
        proof {
            assert(shown.take(i + 1).drop_last() =~= shown.take(i as int));
            assert(shown.take(i + 1).last() == texts@[i as int]@);
        }
        if i > 0 {
            list = list.concat(", ");
        }
        list = list.concat(texts[i].as_str());
    }
    proof {
        assert(shown.take(shown.len() as int) =~= shown);
    }
    "{".to_owned().concat(list.as_str()).concat("}")
}

/// The scopes of an API key as a set of texts in quotes.
pub open spec fn scopes_text(scopes: Seq<String>) -> Seq<char> {
    let distinct = united(scopes.map_values(|scope: String| scope@));
    "{"@ + comma_separated(distinct.map_values(|scope: Seq<char>| quoted(scope))) + "}"@
}

fn show_scopes(scopes: &[String]) -> (r: String)
    ensures
        r@ == scopes_text(scopes@),
{
    let ghost views = scopes@.map_values(|scope: String| scope@);
    let mut distinct: Vec<String> = Vec::new();
    let mut texts: Vec<String> = Vec::new();
    proof {
        assert(views.take(0) =~= Seq::<Seq<char>>::empty());
    }
    for i in 0..scopes.len()
        invariant
            views == scopes@.map_values(|scope: String| scope@),
            distinct@.map_values(|scope: String| scope@) =~= united(views.take(i as int)),
            texts@.len() == distinct@.len(),
            forall|j: int| 0 <= j < texts@.len() ==> #[trigger] texts@[j]@ == quoted(distinct@[j]@),
    {
        proof {
            assert(views.take(i + 1).drop_last() =~= views.take(i as int));
            assert(views.take(i + 1).last() == scopes@[i as int]@);
        }
        if !contains_text(distinct.as_slice(), scopes[i].as_str()) {
            distinct.push(scopes[i].clone());
            texts.push(quote(scopes[i].as_str()));
        }
    }
    proof {
        assert(views.take(views.len() as int) =~= views);
        assert(texts@.map_values(|text: String| text@) =~= united(views).map_values(
            |scope: Seq<char>| quoted(scope),
        )) by {
            assert forall|j: int| 0 <= j < texts@.len() implies texts@[j]@ == quoted(#[trigger] united(views)[j]) by {
                assert(distinct@.map_values(|scope: String| scope@)[j] == distinct@[j]@);
            }
        }
    }
    set_text(texts.as_slice())
}

/// How a user is shown: by name, and as a link to the profile if there is one.
pub open spec fn user_link(user: AuthUser) -> Seq<char> {
    match user.shown_username() {
        Some(username) => "["@ + user.shown_name() + "]("@ + profile_url_of(username) + ")"@,
        None => user.shown_name(),
    }
}

/// What is said about the API key of a store: who it belongs to, or what is wrong with it. A store is shown by its
/// username if it has one, and else by its ID.
pub fn verify_api_key(jinxxy_username: Option<&str>, jinxxy_user_id: &str, user: Result<&AuthUser, &str>) -> (r: Embed)
    ensures
        ({
            let store = match jinxxy_username {
                Some(username) => username@,
                None => jinxxy_user_id@,
            };
            r@ == (match user {
                Ok(user) => EmbedView {
                    title: "API Verification Success: "@ + store,
                    description: user_link(*user) + " has scopes "@ + scopes_text(user.scopes@),
                    colour: Some(Colour::DarkGreen),
                },
                Err(error) => EmbedView {
                    title: "API Verification Error: "@ + store,
                    description: "API key invalid: "@ + error@,
                    colour: Some(Colour::Red),
                },
            })
        }),
{
    let store = match jinxxy_username {
        Some(username) => username,
        None => jinxxy_user_id,
    };
    match user {
        Ok(user) => {
            let link = match user.profile_url() {
                Some(profile_url) => "[".to_owned().concat(user.as_display_name()).concat("](").concat(
                    profile_url.as_str(),
                ).concat(")"),
                None => user.as_display_name().to_owned(),
            };
            Embed::new(
                "API Verification Success: ".to_owned().concat(store).as_str(),
                link.concat(" has scopes ").concat(show_scopes(user.scopes.as_slice()).as_str()),
                Some(Colour::DarkGreen),
            )
        }
        Err(error) => Embed::new(
            "API Verification Error: ".to_owned().concat(store).as_str(),
            "API key invalid: ".to_owned().concat(error),
            Some(Colour::Red),
        ),
    }
}

/// How a guild is set up
#[derive(Debug)]
pub struct GuildSetup {
    pub guild_id: u64,
    pub name: Option<String>,
    pub has_jinxxy_linked: bool,
    pub has_invalid_api_key: bool,
    pub banned: bool,
    /// Whether the bot has the administrator permission, and that to manage roles, if that could be found out
    pub permissions: Option<(bool, bool)>,
}

/// What is wrong with the store links of a guild: none, or an invalid API key.
pub open spec fn api_code(g: GuildSetup) -> char {
    if !g.has_jinxxy_linked {
        'J'
    } else if g.has_invalid_api_key {
        'I'
    } else {
        ' '
    }
}

/// What is wrong with a guild itself: it is banned.
pub open spec fn ban_code(g: GuildSetup) -> char {
    if g.banned {
        'B'
    } else {
        ' '
    }
}

/// What is wrong with the permissions of the bot in a guild: too many, too few, or unknown ones.
pub open spec fn permission_code(g: GuildSetup) -> char {
    match g.permissions {
        Some((administrator, manage_roles)) => if administrator {
            'A'
        } else if !manage_roles {
            'M'
        } else {
            ' '
        },
        None => '?',
    }
}

/// Whether there is something wrong with how a guild is set up.
pub open spec fn is_misconfigured(g: GuildSetup) -> bool {
    api_code(g) != ' ' || ban_code(g) != ' ' || permission_code(g) != ' '
}

/// A text behind as many spaces as it takes to make it so long.
pub open spec fn right_aligned(s: Seq<char>, width: nat) -> Seq<char> {
    if s.len() >= width {
        s
    } else {
        Seq::new((width - s.len()) as nat, |i: int| ' ') + s
    }
}

fn align_right(s: String, width: usize) -> (r: String)
    ensures
        r@ == right_aligned(s@, width as nat),
{
    let len: usize = s.as_str().unicode_len();
    let mut padding = String::new();
    let mut i: usize = len;
    while i < width
        invariant
            padding@ == Seq::new((if i >= len { i - len } else { 0int }) as nat, |i: int| ' '),
            len <= i,
            i <= width || i == len,
        decreases width - i,
    {
        let ghost before = padding@;
        padding = padding.concat(" ");
        proof {
            reveal_strlit(" ");
            assert(padding@ =~= Seq::new((i + 1 - len) as nat, |i: int| ' '));
        }
        i = i + 1;
    }
    padding.concat(s.as_str())
}

/// What is said about a guild that something is wrong with.
pub open spec fn misconfiguration_line(g: GuildSetup) -> Seq<char> {
    right_aligned(decimal(g.guild_id as nat), 20) + " "@ + seq![permission_code(g), api_code(g), ban_code(g)] + " "@
        + text_or(g.name, ""@) + "\n"@
}

/// What is said about all guilds that something is wrong with.
pub open spec fn misconfiguration_lines(guilds: Seq<GuildSetup>) -> Seq<char>
    decreases guilds.len(),
{
    if guilds.len() == 0 {
        Seq::empty()
    } else if is_misconfigured(guilds.last()) {
        misconfiguration_lines(guilds.drop_last()) + misconfiguration_line(guilds.last())
    } else {
        misconfiguration_lines(guilds.drop_last())
    }
}

fn describe_misconfiguration(g: &GuildSetup) -> (r: Option<String>)
    ensures
        r is Some <==> is_misconfigured(*g),
        r matches Some(line) ==> line@ == misconfiguration_line(*g),
{
    let api = if !g.has_jinxxy_linked {
        "J" // no jinxxy link exists

    } else if g.has_invalid_api_key {
        "I" // link exists, but we've marked an API key as invalid

    } else {
        " "
    };
    let ban = if g.banned {
        "B" // guild is banned

    } else {
        " "
    };
    let permission = match g.permissions {
        Some((administrator, manage_roles)) => if administrator {
            "A" // bot has Administrator

        } else if !manage_roles {
            "M" // bot lacks Manage Roles

        } else {
            " "
        },
        // This can happen if the cache contains a guild we're not in.
        None => "?",
    };
    let ok = g.has_jinxxy_linked && !g.has_invalid_api_key && !g.banned && match g.permissions {
        Some((administrator, manage_roles)) => !administrator && manage_roles,
        None => false,
    };
    if ok {
        return None;
    }
    let codes = permission.to_owned().concat(api).concat(ban);
    proof {
        reveal_strlit("J");
        reveal_strlit("I");
        reveal_strlit(" ");
        reveal_strlit("B");
        reveal_strlit("A");
        reveal_strlit("M");
        reveal_strlit("?");
        assert(codes@ =~= seq![permission_code(*g), api_code(*g), ban_code(*g)]);
    }
    Some(
        align_right(u64_to_string(g.guild_id), 20).concat(" ").concat(codes.as_str()).concat(" ").concat(
            show_or(&g.name, "").as_str(),
        ).concat("\n"),
    )
}

/// Scan for misconfigured guilds
pub fn misconfigured_guilds(guilds: &[GuildSetup]) -> (r: Embed)
    ensures
        r@ == (if exists|i: int| 0 <= i < guilds@.len() && is_misconfigured(#[trigger] guilds@[i]) {
            EmbedView {
                title: "Misconfigured Guild Report"@,
                description: "```\n"@ + misconfiguration_lines(guilds@) + "```"@,
                colour: Some(Colour::Red),
            }
        } else {
            EmbedView {
                title: "Misconfigured Guild Report"@,
                description: "No misconfigured guilds!"@,
                colour: Some(Colour::DarkGreen),
            }
        }),
{
    let mut lines = String::new();
    let mut any_misconfigurations = false;
    for i in 0..guilds.len()
        invariant
            lines@ == misconfiguration_lines(guilds@.take(i as int)),
            any_misconfigurations <==> exists|j: int| 0 <= j < i && is_misconfigured(#[trigger] guilds@[j]),
    {
        proof {
            assert(guilds@.take(i + 1).drop_last() =~= guilds@.take(i as int));
            assert(guilds@.take(i + 1).last() == guilds@[i as int]);
        }
        if let Some(line) = describe_misconfiguration(&guilds[i]) {
            proof {
                assert(is_misconfigured(guilds@[i as int]));
            }
            any_misconfigurations = true;
            lines = lines.concat(line.as_str());
        }
    }
    proof {
        assert(guilds@.take(guilds@.len() as int) =~= guilds@);
    }
    if any_misconfigurations {
        error_reply("Misconfigured Guild Report", "```\n".to_owned().concat(lines.as_str()).concat("```"))
    } else {
        success_reply("Misconfigured Guild Report", "No misconfigured guilds!".to_owned())
    }
}

/// The cached product names of a store, one after the other.
pub open spec fn store_product_lines(store: Seq<char>, names: Seq<String>) -> Seq<char>
    decreases names.len(),
{
    if names.len() == 0 {
        Seq::empty()
    } else {
        let others = store_product_lines(store, names.drop_last());
        (if names.len() == 1 {
            others
        } else {
            others + "\n"@
        }) + "- "@ + store + ": "@ + names.last()@
    }
}

/// List product names cached for a store of a target guild
pub fn debug_product_cache(store: &str, names: &[String]) -> (r: String)
    ensures
        r@ == store_product_lines(store@, names@),
{
    let mut message = String::new();
    for i in 0..names.len()
        invariant
            message@ == store_product_lines(store@, names@.take(i as int)),
    {
        proof {
            assert(names@.take(i + 1).drop_last() =~= names@.take(i as int));
            assert(names@.take(i + 1).last() == names@[i as int]);
        }
        if i > 0 {
            message = message.concat("\n");
        }
        message = message.concat("- ").concat(store).concat(": ").concat(names[i].as_str());
    }
    proof {
        assert(names@.take(names@.len() as int) =~= names@);
    }
    message
}

/// The expiry time of the product cache in seconds, unless it is too long to be counted in seconds
pub fn cache_expiry_seconds(expiry_time_hours: u64) -> (r: Option<u64>)
    ensures
        r is Some <==> expiry_time_hours * 3600 <= u64::MAX,
        r matches Some(seconds) ==> seconds == expiry_time_hours * 3600,
{
    expiry_time_hours.checked_mul(3600)
}

/// A guild in which a user may be found
#[derive(Debug)]
pub struct GuildMembership {
    pub guild_id: u64,
    pub name: String,
    pub is_owner: bool,
    pub is_member: bool,
}

/// What a user is to a guild, if anything, given the guilds in which the user has activated licenses.
pub open spec fn membership(guild: GuildMembership, activated_guilds: Seq<u64>) -> Option<Seq<char>> {
    if guild.is_owner {
        Some("owner"@)
    } else if guild.is_member {
        Some("member"@)
    } else if activated_guilds.contains(guild.guild_id) {
        Some("activator"@)
    } else {
        None
    }
}

/// The guilds in which a user was found, each on a line of its own.
pub open spec fn membership_lines(guilds: Seq<GuildMembership>, activated_guilds: Seq<u64>) -> Seq<char>
    decreases guilds.len(),
{
    if guilds.len() == 0 {
        Seq::empty()
    } else {
        let others = membership_lines(guilds.drop_last(), activated_guilds);
        let guild = guilds.last();
        match membership(guild, activated_guilds) {
            Some(what) => others + "\n- `"@ + decimal(guild.guild_id as nat) + "` "@ + what + " "@ + guild.name@,
            None => others,
        }
    }
}

/// A user that is looked up
#[derive(Debug)]
pub struct WhoisUser {
    pub user_id: u64,
    pub name: String,
    /// The four digits behind the name of an account that still has them
    pub discriminator: Option<u16>,
    pub display_name: Option<String>,
    pub banned: bool,
    pub note: Option<String>,
}

/// The decimal notation of a number, with leading zeros up to four digits.
pub open spec fn four_digits(n: nat) -> Seq<char> {
    if n < 10 {
        "000"@ + decimal(n)
    } else if n < 100 {
        "00"@ + decimal(n)
    } else if n < 1000 {
        "0"@ + decimal(n)
    } else {
        decimal(n)
    }
}

fn show_four_digits(n: u16) -> (r: String)
    ensures
        r@ == four_digits(n as nat),
{
    let digits = u64_to_string(n as u64);
    if n < 10 {
        "000".to_owned().concat(digits.as_str())
    } else if n < 100 {
        "00".to_owned().concat(digits.as_str())
    } else if n < 1000 {
        "0".to_owned().concat(digits.as_str())
    } else {
        digits
    }
}

/// What is known of a user.
pub open spec fn whois_text(user: WhoisUser) -> Seq<char> {
    "User "@ + user_mention(user.user_id) + " name="@ + (match user.discriminator {
        Some(discriminator) => user.name@ + "#"@ + four_digits(discriminator as nat),
        None => user.name@,
    }) + "; display="@ + text_or(user.display_name, ""@) + "; banned="@ + bool_text(user.banned) + "; note="@ + text_or(
        user.note,
        ""@,
    )
}

fn describe_user(user: &WhoisUser) -> (r: String)
    ensures
        r@ == whois_text(*user),
{
    let name = match user.discriminator {
        Some(discriminator) => user.name.clone().concat("#").concat(show_four_digits(discriminator).as_str()),
        None => user.name.clone(),
    };
    "User ".to_owned().concat(mention_user(user.user_id).as_str()).concat(" name=").concat(name.as_str()).concat(
        "; display=",
    ).concat(show_or(&user.display_name, "").as_str()).concat("; banned=").concat(
        bool_to_string(user.banned).as_str(),
    ).concat("; note=").concat(show_or(&user.note, "").as_str())
}

/// Look a user up
pub fn whois(user: &WhoisUser, guilds: &[GuildMembership], activated_guilds: &[u64]) -> (r: Embed)
    ensures
        r@ == (if exists|i: int|
            0 <= i < guilds@.len() && membership(#[trigger] guilds@[i], activated_guilds@) is Some {
            EmbedView {
                title: "User Found"@,
                description: whois_text(*user) + "; was found in cache:"@ + membership_lines(
                    guilds@,
                    activated_guilds@,
                ),
                colour: Some(Colour::DarkGreen),
            }
        } else {
            EmbedView {
                title: "User Not Found"@,
                description: whois_text(*user) + "; was not found in cache"@,
                colour: Some(Colour::DarkGreen),
            }
        }),
{
    let mut lines = String::new();
    let mut found = false;
    for i in 0..guilds.len()
        invariant
            lines@ == membership_lines(guilds@.take(i as int), activated_guilds@),
            found <==> exists|j: int|
                0 <= j < i && membership(#[trigger] guilds@[j], activated_guilds@) is Some,
    {
        proof {
            assert(guilds@.take(i + 1).drop_last() =~= guilds@.take(i as int));
            assert(guilds@.take(i + 1).last() == guilds@[i as int]);
        }
        let guild = &guilds[i];
        let what = if guild.is_owner {
            Some("owner")
        } else if guild.is_member {
            Some("member")
        } else if contains_id(activated_guilds, guild.guild_id) {
            Some("activator")
        } else {
            None
        };
        if let Some(what) = what {
            proof {
                assert(membership(guilds@[i as int], activated_guilds@) is Some);
            }
            found = true;
            lines = lines.concat("\n- `").concat(u64_to_string(guild.guild_id).as_str()).concat("` ").concat(
                what,
            ).concat(" ").concat(guild.name.as_str());
        }
    }
    proof {
        assert(guilds@.take(guilds@.len() as int) =~= guilds@);
    }
    let description = describe_user(user);
    if found {
        success_reply("User Found", description.concat("; was found in cache:").concat(lines.as_str()))
    } else {
        success_reply("User Not Found", description.concat("; was not found in cache"))
    }
}

/// What is said when a user was banned or unbanned
pub fn user_ban_set(user_id: u64, banned: bool) -> (r: Embed)
    ensures
        r@ == (if banned {
            EmbedView {
                title: "User Banned"@,
                description: user_mention(user_id) + " has been banned"@,
                colour: Some(Colour::DarkGreen),
            }
        } else {
            EmbedView {
                title: "User Unbanned"@,
                description: user_mention(user_id) + " has been unbanned"@,
                colour: Some(Colour::DarkGreen),
            }
        }),
{
    if banned {
        success_reply("User Banned", mention_user(user_id).concat(" has been banned"))
    } else {
        success_reply("User Unbanned", mention_user(user_id).concat(" has been unbanned"))
    }
}

/// What is said when a guild was banned, and possibly left
pub fn guild_banned(guild_id: u64, left: bool) -> (r: Embed)
    ensures
        r@ == (EmbedView {
            title: "Guild Banned"@,
            description: "Guild `"@ + decimal(guild_id as nat) + (if left {
                "` has been banned and left"@
            } else {
                "` has been banned"@
            }),
            colour: Some(Colour::DarkGreen),
        }),
{
    let what = if left {
        "` has been banned and left"
    } else {
        "` has been banned"
    };
    success_reply("Guild Banned", "Guild `".to_owned().concat(u64_to_string(guild_id).as_str()).concat(what))
}

/// What is said when a guild was unbanned
pub fn guild_unbanned(guild_id: u64) -> (r: Embed)
    ensures
        r@ == (EmbedView {
            title: "Guild Unbanned"@,
            description: "Guild `"@ + decimal(guild_id as nat) + "` has been unbanned"@,
            colour: Some(Colour::DarkGreen),
        }),
{
    success_reply(
        "Guild Unbanned",
        "Guild `".to_owned().concat(u64_to_string(guild_id).as_str()).concat("` has been unbanned"),
    )
}

/// Whether stale guilds may be deleted: there must not be more of them than allowed, as that would look like a mistake
pub fn may_delete_stale_guilds(stale_guilds: usize, max: u64) -> (r: bool)
    ensures
        r <==> stale_guilds <= max,
{
    stale_guilds as u64 <= max
}

/// What is said when stale guilds were deleted, given the number of stores that went with them, or were not
pub fn stale_guilds_deleted(deleted_stores: Option<usize>, max: u64) -> (r: Embed)
    ensures
        r@ == (match deleted_stores {
            Some(count) => EmbedView {
                title: "Success"@,
                description: "Deleted "@ + decimal(count as nat) + " stores"@,
                colour: Some(Colour::DarkGreen),
            },
            None => EmbedView {
                title: "Failure"@,
                description: "More than max "@ + decimal(max as nat) + " stale guilds detected"@,
                colour: Some(Colour::Red),
            },
        }),
{
    match deleted_stores {
        Some(count) => success_reply(
            "Success",
            "Deleted ".to_owned().concat(u64_to_string(count as u64).as_str()).concat(" stores"),
        ),
        None => error_reply(
            "Failure",
            "More than max ".to_owned().concat(u64_to_string(max).as_str()).concat(" stale guilds detected"),
        ),
    }
}

/// How many backfills run at the same time, if there are enough of them
pub const BACKFILL_PARALLELISM: usize = 4;

/// How many backfills it takes for them to run at the same time
pub const BACKFILL_PARALLELISM_THRESHOLD: usize = 32;

/// How many of a number of backfills run one after the other.
pub fn backfill_chunk_size(count: usize) -> (r: usize)
    requires
        count > 0,
    ensures
        count <= BACKFILL_PARALLELISM_THRESHOLD ==> r == count,
        count > BACKFILL_PARALLELISM_THRESHOLD ==> (r - 1) * BACKFILL_PARALLELISM < count <= r
            * BACKFILL_PARALLELISM,
        r > 0,
{
    if count > BACKFILL_PARALLELISM_THRESHOLD {
        if count % BACKFILL_PARALLELISM == 0 {
            count / BACKFILL_PARALLELISM
        } else {
            count / BACKFILL_PARALLELISM + 1
        }
    } else {
        count
    }
}

/// What has come of backfills
#[derive(Debug)]
pub struct BackfillCounts {
    pub backfilled: u64,
    pub skipped: u64,
}

impl BackfillCounts {
    pub fn new() -> (r: BackfillCounts)
        ensures
            r.backfilled == 0,
            r.skipped == 0,
    {
        BackfillCounts { backfilled: 0, skipped: 0 }
    }

    /// Count an activation: it is backfilled if Jinxxy knows of it and its row was updated, and skipped otherwise
    pub fn count(&mut self, row_updated: Option<bool>)
        requires
            old(self).backfilled + old(self).skipped < u64::MAX,
        ensures
            final(self).backfilled + final(self).skipped == old(self).backfilled + old(self).skipped + 1,
            final(self).backfilled == old(self).backfilled + (if row_updated == Some(true) {
                1int
            } else {
                0int
            }),
    {
        match row_updated {
            Some(true) => {
                self.backfilled = self.backfilled + 1;
            }
            _ => {
                self.skipped = self.skipped + 1;
            }
        }
    }

    /// Add what has come of other backfills
    pub fn merge(&mut self, other: BackfillCounts)
        requires
            old(self).backfilled + other.backfilled <= u64::MAX,
            old(self).skipped + other.skipped <= u64::MAX,
        ensures
            final(self).backfilled == old(self).backfilled + other.backfilled,
            final(self).skipped == old(self).skipped + other.skipped,
    {
        self.backfilled = self.backfilled + other.backfilled;
        self.skipped = self.skipped + other.skipped;
    }

    /// What is said about it
    pub fn answer(&self) -> (r: Embed)
        ensures
            r@ == (EmbedView {
                title: "Success"@,
                description: "Backfilled "@ + decimal(self.backfilled as nat) + ", skipped "@ + decimal(
                    self.skipped as nat,
                ) + "."@,
                colour: Some(Colour::DarkGreen),
            }),
    {
        success_reply(
            "Success",
            "Backfilled ".to_owned().concat(u64_to_string(self.backfilled).as_str()).concat(", skipped ").concat(
                u64_to_string(self.skipped).as_str(),
            ).concat("."),
        )
    }
}

} // verus!
