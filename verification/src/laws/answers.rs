//! What is answered to commands: to those for everybody, for creators and for owners of the bot

use super::texts::{
    chained, chained_of_one, chained_of_push, chained_says, ends_with, mentions_user, says, says_in_concatenation,
    says_is_transitive, says_its_parts,
};
use crate::bot::commands::global_commands::{
    command_sets, get_activity_string, gumroad_nag, init_request, version, InitOutcome, InitRequest,
};
use crate::bot::commands::licenses::{
    counts_text, create_post, license_deactivated, license_locked, license_not_found, license_unlocked,
    set_log_channel, stats, user_text, ActivationCounts, LogChannelOutcome, RegistrationPost,
};
use crate::bot::commands::owner_commands::{
    announcement, announcement_sent, api_code, backfill_chunk_size, ban_code, cache_cleared, cache_expiry_seconds,
    cache_size_text, clear_times_text, comma_separated,
    debug_product_cache, guild_banned, guild_icon_url, guild_id_error, guild_unbanned, is_misconfigured,
    may_delete_stale_guilds, membership,
    membership_lines, misconfiguration_line, misconfiguration_lines, misconfigured_guilds, parse_guild_id,
    permission_code, set_text, stale_guilds_deleted, store_product_lines, test_guild_set, to_kibibytes, user_ban_set,
    verify_api_key, verify_owner, whois, whois_text, BackfillCounts, CacheSize, ClearTimes, GuildIdError,
    GuildMembership, GuildSetup,
    WhoisUser,
};
use crate::bot::message::{channel_mention, user_mention, Colour, Embed};
use crate::http::jinxxy::AuthUser;
use crate::http::update_checker::{release_link, VersionCheck};
use crate::pattern::is_jinxxy_api_key;
use crate::text::{decimal, parsed_u64, trimmed};
use vstd::prelude::*;

verus! {

/// What somebody wants who sets up Jinx is told by the text without the whitespace around it: nothing in particular if
/// there is none, an API key if it looks like one, and otherwise it is not recognized.
pub proof fn requests_are_told_by_their_text(text: &str, r: InitRequest, none: InitRequest)
    requires
        call_ensures(init_request, (Some(text),), r),
        call_ensures(init_request, (None,), none),
    ensures
        none is Reinstall,
        r is Reinstall <==> trimmed(text@).len() == 0,
        trimmed(text@) == "install_owner_commands"@ ==> r == (InitRequest::OwnerCommands { install: true }),
        trimmed(text@) == "uninstall_owner_commands"@ ==> r == (InitRequest::OwnerCommands { install: false }),
        r is OwnerCommands ==> trimmed(text@) == "install_owner_commands"@ || trimmed(text@)
            == "uninstall_owner_commands"@,
        r matches InitRequest::SetApiKey(key) ==> key@ == trimmed(text@) && is_jinxxy_api_key(key@),
        r is Unrecognized ==> !is_jinxxy_api_key(trimmed(text@)),
{
    reveal_strlit("install_owner_commands");
    reveal_strlit("uninstall_owner_commands");
    assert("install_owner_commands"@.len() != "uninstall_owner_commands"@.len());
}

/// A request that was granted is answered in green, and any other one in red. The answer names the user of a new API
/// key, or what is wrong with it, and there is a warning exactly when the key lacks scopes.
pub proof fn requests_are_answered(outcome: InitOutcome, answer: Embed, warning: Option<Embed>)
    requires
        call_ensures(InitOutcome::answer, (&outcome,), answer),
        call_ensures(InitOutcome::warning, (&outcome,), warning),
    ensures
        outcome is OwnerCommandsSet || outcome is ApiKeySet || outcome is Reinstalled <==> answer.colour == Some(
            Colour::DarkGreen,
        ),
        outcome is NotOwner || outcome is ApiKeyNotVerified || outcome is Unrecognized || outcome is NoApiKey
            <==> answer.colour == Some(Colour::Red),
        outcome matches InitOutcome::ApiKeySet { display_name, .. } ==> says(answer.description@, display_name@),
        outcome matches InitOutcome::ApiKeyNotVerified { error } ==> ends_with(answer.description@, error@),
        warning is Some <==> (outcome matches InitOutcome::ApiKeySet { has_required_scopes, .. }
            && !has_required_scopes),
{
    assert(answer.colour == answer@.colour);
    assert(answer.description@ == answer@.description);
    if let InitOutcome::ApiKeySet { display_name, .. } = outcome {
        says_its_parts("Welcome, "@, display_name@);
        says_in_concatenation(
            "Welcome, "@ + display_name@,
            "! API key set and additional slash commands enabled. Please continue bot setup."@,
            display_name@,
        );
    }
    if let InitOutcome::ApiKeyNotVerified { error } = outcome {
        says_its_parts("Error verifying API key: "@, error@);
    }
}

/// A guild gets the commands that are forced on it, and otherwise those that the database says it has.
pub proof fn commands_can_be_forced(
    force_owner: Option<bool>,
    force_creator: Option<bool>,
    is_owner_guild: bool,
    has_jinxxy_linked: bool,
    r: (bool, bool),
)
    requires
        call_ensures(command_sets, (force_owner, force_creator, is_owner_guild, has_jinxxy_linked), r),
    ensures
        force_owner matches Some(owner) ==> r.0 == owner,
        force_owner is None ==> r.0 == is_owner_guild,
        force_creator matches Some(creator) ==> r.1 == creator,
        force_creator is None ==> r.1 == has_jinxxy_linked,
{
}

/// Nothing is said about an up to date version. An outdated one is warned about with the release to upgrade to, and
/// anything else is an error.
pub proof fn updates_are_announced(check: VersionCheck, r: Option<Embed>)
    requires
        call_ensures(version, (&check,), r),
    ensures
        r is None <==> check is Current,
        check matches VersionCheck::Outdated(remote) ==> r->0.colour == Some(Colour::Orange) && says(
            r->0.description@,
            remote.version@,
        ) && says(r->0.description@, remote.url@),
        r is Some && !(check is Outdated) ==> r->0.colour == Some(Colour::Red),
{
    if let Some(e) = r {
        assert(e.description@ == e@.description);
        assert(e.colour == e@.colour);
    }
    if let VersionCheck::Outdated(remote) = check {
        broadcast use {chained_of_push, chained_of_one};

        let link = release_link(remote);
        let parts = Seq::<Seq<char>>::empty().push("["@).push(remote.version@).push("](<"@).push(remote.url@).push(
            ">)"@,
        );
        assert(link == chained(parts));
        chained_says(parts, 1);
        chained_says(parts, 3);
        let start = "jinx is outdated! The bot owner should upgrade to "@;
        says_its_parts(start, link);
        says_in_concatenation(start + link, "."@, link);
        says_is_transitive(r->0.description@, link, remote.version@);
        says_is_transitive(r->0.description@, link, remote.url@);
    }
}

/// The numbers that are shown are those that were counted.
pub proof fn numbers_are_shown(
    users: u64,
    failures: u64,
    counts: ActivationCounts,
    rejected: Option<u64>,
    activity: String,
    nag: Embed,
    shown: Embed,
)
    requires
        call_ensures(get_activity_string, (users,), activity),
        call_ensures(gumroad_nag, (failures,), nag),
        call_ensures(stats, (&counts, rejected), shown),
    ensures
        says(activity@, decimal(users as nat)),
        says(nag.description@, decimal(failures as nat)),
        says(shown.description@, counts_text(counts)),
        rejected matches Some(n) ==> ends_with(
            shown.description@,
            "\ngumroad licenses rejected="@ + decimal(n as nat),
        ),
        rejected is None ==> ends_with(shown.description@, "\ngumroad licenses rejected="@ + decimal(0)),
{
    assert(nag.description@ == nag@.description);
    assert(shown.description@ == shown@.description);
    let d = decimal(users as nat);
    says_its_parts("Helping "@, d);
    says_in_concatenation("Helping "@ + d, " users register Jinxxy products"@, d);
    let f = decimal(failures as nat);
    let start = "Jinx has detected that a significant number ("@;
    let end = ") of your users are providing Gumroad license keys to Jinx. This may indicate confusion between GumCord and Jinx. To improve your user experience, please consider adding documentation messages in your server to help direct users to the correct bots. **This is the only time this alert will appear**: in the future you can use the `/stats` command to view the current count of failed Gumroad activation attempts Jinx has seen."@;
    says_its_parts(start, f);
    says_in_concatenation(start + f, end, f);
    let n = decimal(
        match rejected {
            Some(count) => count as nat,
            None => 0,
        },
    );
    let label = "\ngumroad licenses rejected="@;
    assert(shown.description@ =~= counts_text(counts) + (label + n));
    says_its_parts(counts_text(counts), label + n);
}

/// A log channel is mentioned when it was set, and when it was not together with what went wrong.
pub proof fn log_channels_are_mentioned(outcome: LogChannelOutcome, r: Embed)
    requires
        call_ensures(set_log_channel, (&outcome,), r),
    ensures
        outcome matches LogChannelOutcome::Changed { channel_id } ==> r.colour == Some(Colour::DarkGreen) && says(
            r.description@,
            "<#"@ + decimal(channel_id as nat) + ">"@,
        ),
        outcome matches LogChannelOutcome::NotChanged { channel_id, error } ==> r.colour == Some(Colour::Red) && says(
            r.description@,
            "<#"@ + decimal(channel_id as nat) + ">"@,
        ) && says(r.description@, error@),
        outcome is Unset ==> r.colour == Some(Colour::DarkGreen) && r.description@ == "Bot log channel unset."@,
{
    broadcast use {chained_of_push, chained_of_one};

    assert(r.description@ == r@.description);
    assert(r.colour == r@.colour);
    if let LogChannelOutcome::Changed { channel_id } = outcome {
        let parts = Seq::<Seq<char>>::empty().push("Bot log channel set to "@).push(channel_mention(channel_id)).push(
            "."@,
        );
        assert(r.description@ == chained(parts));
        chained_says(parts, 1);
    }
    if let LogChannelOutcome::NotChanged { channel_id, error } = outcome {
        let parts = Seq::<Seq<char>>::empty().push(
            "Log channel not set because there was an error sending a message to "@,
        ).push(channel_mention(channel_id)).push(": "@).push(error@).push(
            ". Please check bot and channel permissions."@,
        );
        assert(r.description@ == chained(parts));
        chained_says(parts, 1);
        chained_says(parts, 3);
    }
}

/// A post is made exactly for the user that the store is linked as. It names the user, and its button registers at that
/// store.
pub proof fn posts_register_at_their_store(user: AuthUser, store: &str, r: Option<RegistrationPost>)
    requires
        call_ensures(create_post, (&user, store), r),
    ensures
        r is Some <==> user.id@ == store@,
        r matches Some(post) ==> post.button_id@ == "jinx_register_button"@.push(':') + store@ && says(
            post.embed.description@,
            user.shown_name(),
        ) && (post.thumbnail_url matches Some(url) ==> (user.profile_image matches Some(image) && url@ == image.url@))
            && (user.profile_image matches Some(image) ==> (image.url@.len() > 0 ==> post.thumbnail_url is Some)),
{
    if let Some(post) = r {
        assert(post.embed.description@ == post.embed@.description);
        let name = user.shown_name();
        let possessive = crate::http::jinxxy::possessive(name);
        let seller = crate::bot::commands::licenses::seller_text(user);
        says_its_parts(name, "'"@);
        says_its_parts(name, "'s"@);
        super::texts::says_itself(possessive);
        match crate::http::jinxxy::GetUsername::shown_username(&user) {
            Some(username) => {
                broadcast use {chained_of_push, chained_of_one};

                let parts = Seq::<Seq<char>>::empty().push("["@).push(possessive).push("](<"@).push(
                    crate::http::jinxxy::profile_url_of(username),
                ).push(">)"@);
                assert(seller == chained(parts));
                chained_says(parts, 1);
            },
            None => {},
        }
        says_is_transitive(seller, possessive, name);
        let start = "Press the button below to register a Jinxxy license key for any of "@;
        says_its_parts(start, seller);
        says_in_concatenation(start + seller, " products."@, seller);
        says_is_transitive(post.embed.description@, seller, name);
    }
}

/// What is said of a license names it, and the user whose activations were deleted.
pub proof fn licenses_are_named(
    title: &str,
    license: &str,
    user_id: u64,
    missing: Embed,
    deactivated: Embed,
    locked: Embed,
)
    requires
        call_ensures(license_not_found, (title, license), missing),
        call_ensures(license_deactivated, (user_id, license), deactivated),
        call_ensures(license_locked, (license,), locked),
    ensures
        missing.title@ == title@,
        missing.colour == Some(Colour::Red),
        says(missing.description@, license@),
        says(deactivated.description@, license@),
        mentions_user(deactivated.description@, user_id),
        deactivated.colour == Some(Colour::DarkGreen),
        says(locked.description@, license@),
        locked.colour == Some(Colour::DarkGreen),
{
    broadcast use {chained_of_push, chained_of_one};

    assert(missing.description@ == missing@.description);
    assert(missing.title@ == missing@.title);
    assert(missing.colour == missing@.colour);
    assert(deactivated.description@ == deactivated@.description);
    assert(deactivated.colour == deactivated@.colour);
    assert(locked.description@ == locked@.description);
    assert(locked.colour == locked@.colour);
    let a = Seq::<Seq<char>>::empty().push("License `"@).push(license@).push(
        "` not found: please verify that the key is correct and belongs to the Jinxxy account linked to this Discord server."@,
    );
    assert(missing.description@ == chained(a));
    chained_says(a, 1);
    let b = Seq::<Seq<char>>::empty().push("All of "@).push(user_mention(user_id)).push("'s activations for `"@).push(
        license@,
    ).push("` have been deleted."@);
    assert(deactivated.description@ == chained(b));
    chained_says(b, 1);
    chained_says(b, 3);
    let c = Seq::<Seq<char>>::empty().push("License `"@).push(license@).push(
        "` is now locked and cannot be used to grant roles."@,
    );
    assert(locked.description@ == chained(c));
    chained_says(c, 1);
}

/// A license is unlocked if Jinxxy knew of a lock, was not locked if nobody did, and else was out of sync.
pub proof fn unlocked_licenses_are_told_apart(license: &str, remote: usize, local: u64, r: Embed)
    requires
        call_ensures(license_unlocked, (license, remote, local), r),
    ensures
        says(r.description@, license@),
        remote > 0 ==> ends_with(r.description@, "` is now unlocked and may be used to grant roles."@),
        remote == 0 && local == 0 ==> ends_with(r.description@, "` were found."@),
        remote == 0 && local > 0 ==> says(r.description@, "` state was out of sync"@),
{
    assert(r.description@ == r@.description);
    let a = "License `"@ + license@;
    let b = "No locks for `"@ + license@;
    let end = "` state was out of sync in Jinx's cache and in the Jinxxy API. This has been fixed, and the license is now unlcoed and may be used to grant role."@;
    says_its_parts("License `"@, license@);
    says_its_parts("No locks for `"@, license@);
    says_its_parts(a, "` is now unlocked and may be used to grant roles."@);
    says_its_parts(b, "` were found."@);
    says_in_concatenation(a, "` is now unlocked and may be used to grant roles."@, license@);
    says_in_concatenation(b, "` were found."@, license@);
    says_in_concatenation(a, end, license@);
    out_of_sync_text_says_so();
    says_in_concatenation(a, end, "` state was out of sync"@);
}

proof fn out_of_sync_text_says_so()
    ensures
        says(
            "` state was out of sync in Jinx's cache and in the Jinxxy API. This has been fixed, and the license is now unlcoed and may be used to grant role."@,
            "` state was out of sync"@,
        ),
{
    let text = "` state was out of sync in Jinx's cache and in the Jinxxy API. This has been fixed, and the license is now unlcoed and may be used to grant role."@;
    let part = "` state was out of sync"@;
    reveal_strlit(
        "` state was out of sync in Jinx's cache and in the Jinxxy API. This has been fixed, and the license is now unlcoed and may be used to grant role.",
    );
    reveal_strlit("` state was out of sync");
    assert(text.subrange(0, 0int + part.len()) =~= part);
}

/// A user is shown by name, as a link if there is a profile, and by ID without a name.
pub proof fn users_are_shown_by_name_or_id(user_id: &str, username: Option<&str>, profile_url: Option<&str>, r: String)
    requires
        call_ensures(user_text, (user_id, username, profile_url), r),
    ensures
        username is None ==> r@ == "`"@ + user_id@ + "`"@,
        username is Some && profile_url is None ==> r@ == "`"@ + username->0@ + "`"@,
        username is Some && profile_url is Some ==> r@ == "["@ + username->0@ + "](<"@ + profile_url->0@ + ">)"@,
{
}

/// A number of bytes fits into its KiB, but not into one less.
pub proof fn kibibytes_are_rounded_up(bytes: u64, r: u64)
    requires
        call_ensures(to_kibibytes, (bytes,), r),
    ensures
        bytes <= r * 1024,
        r > 0 ==> (r - 1) * 1024 < bytes,
{
}

/// An announcement has the title that was given, or else one that says whether it is a test.
pub proof fn announcements_have_titles(title: Option<&str>, message: &str, test_only: bool, r: Embed)
    requires
        call_ensures(announcement, (title, message, test_only), r),
    ensures
        title is Some ==> r.title@ == title->0@,
        title is None && test_only ==> r.title@ == "Test Announcement"@,
        title is None && !test_only ==> r.title@ == "Announcement"@,
        !message@.contains('\\') ==> r.description@ == message@,
{
    assert(r.title@ == r@.title);
    assert(r.description@ == r@.description);
    if !message@.contains('\\') {
        nothing_to_unescape(message@);
    }
}

proof fn nothing_to_unescape(s: Seq<char>)
    requires
        !s.contains('\\'),
    ensures
        crate::text::line_breaks_unescaped(s) == s,
    decreases s.len(),
{
    if s.len() > 0 {
        let rest = s.skip(1);
        assert(s[0] != '\\');
        assert forall|i: int| 0 <= i < rest.len() implies rest[i] != '\\' by {
            assert(rest[i] == s[i + 1]);
        }
        nothing_to_unescape(rest);
        assert(seq![s[0]] + rest =~= s);
    }
}

/// The owner of a guild is verified exactly when it is the expected user. Otherwise the owner is mentioned.
pub proof fn owners_are_verified(owner_id: u64, expected: Option<u64>, r: Embed)
    requires
        call_ensures(verify_owner, (owner_id, expected), r),
    ensures
        r.title@ == "Guild Verification Success"@ ==> expected == Some(owner_id),
        expected == Some(owner_id) ==> r.title@ == "Guild Verification Success"@ && r.colour == Some(
            Colour::DarkGreen,
        ),
        expected is Some && expected != Some(owner_id) ==> r.title@ == "Guild Verification Failure"@ && r.colour
            == Some(Colour::Orange),
        expected != Some(owner_id) ==> mentions_user(r.description@, owner_id),
{
    assert(r.title@ == r@.title);
    assert(r.colour == r@.colour);
    assert(r.description@ == r@.description);
    reveal_strlit("Guild Verification Success");
    reveal_strlit("Guild Verification Failure");
    reveal_strlit("Guild Verification Result");
    assert("Guild Verification Success"@[19] == 'S');
    assert("Guild Verification Failure"@[19] == 'F');
    assert("Guild Verification Result"@.len() == 25);
    assert("Guild Verification Success"@.len() == 26);
    let user = user_mention(owner_id);
    let start = "Provided user does not own that guild. Actual owner is "@;
    says_its_parts(start, user);
    says_in_concatenation(start + user, "."@, user);
    says_its_parts("Guild owned by "@, user);
}

/// A text is the ID of a guild exactly when it is a number but zero.
pub proof fn guild_ids_are_not_zero(text: &str, r: Result<u64, GuildIdError>)
    requires
        call_ensures(parse_guild_id, (text,), r),
    ensures
        r matches Ok(id) ==> parsed_u64(text@) == Some(id) && id > 0,
        parsed_u64(text@) matches Some(id) ==> (id > 0 ==> r == Result::<u64, GuildIdError>::Ok(id)),
        parsed_u64(text@) == Some(0u64) ==> r == Result::<u64, GuildIdError>::Err(GuildIdError::Zero),
        parsed_u64(text@) is None ==> (r matches Err(e) && e is NotANumber),
{
}

/// The API key of a store is verified with the name of its user, or what is wrong with it is said.
pub proof fn api_keys_are_verified(
    username: Option<&str>,
    store: &str,
    user: AuthUser,
    error: &str,
    good: Embed,
    bad: Embed,
)
    requires
        call_ensures(verify_api_key, (username, store, Ok(&user)), good),
        call_ensures(verify_api_key, (username, store, Err(error)), bad),
    ensures
        good.colour == Some(Colour::DarkGreen),
        bad.colour == Some(Colour::Red),
        says(good.description@, user.shown_name()),
        ends_with(bad.description@, error@),
        username is Some ==> ends_with(good.title@, username->0@) && ends_with(bad.title@, username->0@),
        username is None ==> ends_with(good.title@, store@) && ends_with(bad.title@, store@),
{
    assert(good.colour == good@.colour);
    assert(bad.colour == bad@.colour);
    assert(good.title@ == good@.title);
    assert(bad.title@ == bad@.title);
    assert(good.description@ == good@.description);
    assert(bad.description@ == bad@.description);
    let shown = match username {
        Some(username) => username@,
        None => store@,
    };
    says_its_parts("API Verification Success: "@, shown);
    says_its_parts("API Verification Error: "@, shown);
    says_its_parts("API key invalid: "@, error@);
    let name = user.shown_name();
    let link = crate::bot::commands::owner_commands::user_link(user);
    super::texts::says_itself(name);
    if let Some(name_of) = crate::http::jinxxy::GetUsername::shown_username(&user) {
        broadcast use {chained_of_push, chained_of_one};

        let parts = Seq::<Seq<char>>::empty().push("["@).push(name).push("]("@).push(
            crate::http::jinxxy::profile_url_of(name_of),
        ).push(")"@);
        assert(link == chained(parts));
        chained_says(parts, 1);
    }
    let scopes = crate::bot::commands::owner_commands::scopes_text(user.scopes@);
    says_in_concatenation(link, " has scopes "@, name);
    says_in_concatenation(link + " has scopes "@, scopes, name);
}

proof fn comma_separated_says_each(texts: Seq<Seq<char>>, i: int)
    requires
        0 <= i < texts.len(),
    ensures
        says(comma_separated(texts), texts[i]),
    decreases texts.len(),
{
    let others = comma_separated(texts.drop_last());
    let start = if texts.len() == 1 {
        others
    } else {
        others + ", "@
    };
    says_its_parts(start, texts.last());
    if i < texts.len() - 1 {
        comma_separated_says_each(texts.drop_last(), i);
        says_in_concatenation(others, ", "@, texts[i]);
        says_in_concatenation(start, texts.last(), texts[i]);
    }
}

/// A set of texts is shown in braces, with each of the texts.
pub proof fn sets_show_their_texts(texts: &[String], r: String, i: int)
    requires
        call_ensures(set_text, (texts,), r),
    ensures
        texts@.len() == 0 ==> r@ == "{"@ + "}"@,
        0 <= i < texts@.len() ==> says(r@, texts@[i]@),
{
    let views = texts@.map_values(|text: String| text@);
    if texts@.len() == 0 {
        assert("{"@ + comma_separated(views) =~= "{"@);
    }
    if 0 <= i < texts@.len() {
        comma_separated_says_each(views, i);
        says_in_concatenation("{"@, comma_separated(views), views[i]);
        says_in_concatenation("{"@ + comma_separated(views), "}"@, views[i]);
    }
}

/// Whether a guild is set up as it should be: with a store and valid keys, not banned, and with the permission to manage
/// roles but not that of an administrator.
pub open spec fn is_set_up(g: GuildSetup) -> bool {
    g.has_jinxxy_linked && !g.has_invalid_api_key && !g.banned && g.permissions == Some((false, true))
}

proof fn set_up_means_not_misconfigured(g: GuildSetup)
    ensures
        is_set_up(g) <==> !is_misconfigured(g),
{
}

proof fn misconfiguration_lines_say_each(guilds: Seq<GuildSetup>, i: int)
    requires
        0 <= i < guilds.len(),
        is_misconfigured(guilds[i]),
    ensures
        says(misconfiguration_lines(guilds), misconfiguration_line(guilds[i])),
    decreases guilds.len(),
{
    let init = guilds.drop_last();
    let before = misconfiguration_lines(init);
    let last = misconfiguration_line(guilds.last());
    if i == guilds.len() - 1 {
        says_its_parts(before, last);
    } else {
        misconfiguration_lines_say_each(init, i);
        if is_misconfigured(guilds.last()) {
            says_in_concatenation(before, last, misconfiguration_line(guilds[i]));
        }
    }
}

/// Every guild that is not set up as it should be is reported, with its ID and its name, and there is a report exactly
/// when there is such a guild.
pub proof fn misconfigured_guilds_are_reported(guilds: &[GuildSetup], r: Embed, i: int)
    requires
        call_ensures(misconfigured_guilds, (guilds,), r),
    ensures
        (forall|k: int| 0 <= k < guilds@.len() ==> is_set_up(#[trigger] guilds@[k])) ==> r.description@
            == "No misconfigured guilds!"@ && r.colour == Some(Colour::DarkGreen),
        0 <= i < guilds@.len() && !is_set_up(guilds@[i]) ==> r.colour == Some(Colour::Red) && says(
            r.description@,
            decimal(guilds@[i].guild_id as nat),
        ) && (guilds@[i].name matches Some(name) ==> says(r.description@, name@)),
{
    assert(r.description@ == r@.description);
    assert(r.colour == r@.colour);
    if forall|k: int| 0 <= k < guilds@.len() ==> is_set_up(#[trigger] guilds@[k]) {
        assert forall|k: int| 0 <= k < guilds@.len() implies !is_misconfigured(#[trigger] guilds@[k]) by {
            set_up_means_not_misconfigured(guilds@[k]);
        }
    }
    if 0 <= i < guilds@.len() && !is_set_up(guilds@[i]) {
        let g = guilds@[i];
        set_up_means_not_misconfigured(g);
        misconfiguration_lines_say_each(guilds@, i);
        let lines = misconfiguration_lines(guilds@);
        let line = misconfiguration_line(g);
        let text = r.description@;
        says_in_concatenation("```\n"@, lines, line);
        says_in_concatenation("```\n"@ + lines, "```"@, line);
        let id = decimal(g.guild_id as nat);
        let aligned = crate::bot::commands::owner_commands::right_aligned(id, 20);
        if id.len() >= 20 {
            super::texts::says_itself(id);
        } else {
            says_its_parts(Seq::new((20 - id.len()) as nat, |i: int| ' '), id);
        }
        let name = match g.name {
            Some(name) => name@,
            None => ""@,
        };
        let codes = seq![permission_code(g), api_code(g), ban_code(g)];
        let a = aligned + " "@;
        let b = a + codes;
        let c = b + " "@;
        let d = c + name;
        says_in_concatenation(aligned, " "@, id);
        says_in_concatenation(a, codes, id);
        says_in_concatenation(b, " "@, id);
        says_in_concatenation(c, name, id);
        says_in_concatenation(d, "\n"@, id);
        says_its_parts(c, name);
        says_in_concatenation(d, "\n"@, name);
        says_is_transitive(text, line, id);
        says_is_transitive(text, line, name);
    }
}

/// What is wrong with a guild is told by three letters: of its permissions, its store and itself.
pub proof fn misconfigurations_have_letters(g: GuildSetup)
    ensures
        !g.has_jinxxy_linked <==> api_code(g) == 'J',
        g.has_jinxxy_linked && g.has_invalid_api_key <==> api_code(g) == 'I',
        g.banned <==> ban_code(g) == 'B',
        g.permissions is None <==> permission_code(g) == '?',
        (g.permissions matches Some((administrator, _)) && administrator) <==> permission_code(g) == 'A',
        g.permissions == Some((false, false)) <==> permission_code(g) == 'M',
{
}

/// All cached names of a store are listed.
pub proof fn cached_names_are_listed(store: &str, names: &[String], r: String, i: int)
    requires
        call_ensures(debug_product_cache, (store, names), r),
        0 <= i < names@.len(),
    ensures
        says(r@, store@ + ": "@ + names@[i]@),
{
    store_product_lines_say_each(store@, names@, i);
}

proof fn store_product_lines_say_each(store: Seq<char>, names: Seq<String>, i: int)
    requires
        0 <= i < names.len(),
    ensures
        says(store_product_lines(store, names), store + ": "@ + names[i]@),
    decreases names.len(),
{
    let others = store_product_lines(store, names.drop_last());
    let start = if names.len() == 1 {
        others
    } else {
        others + "\n"@
    };
    let last = store + ": "@ + names.last()@;
    let all = store_product_lines(store, names);
    assert(all =~= (start + "- "@) + last);
    if i == names.len() - 1 {
        says_its_parts(start + "- "@, last);
    } else {
        store_product_lines_say_each(store, names.drop_last(), i);
        let part = store + ": "@ + names[i]@;
        says_in_concatenation(others, "\n"@, part);
        says_in_concatenation(start, "- "@, part);
        says_in_concatenation(start + "- "@, last, part);
    }
}

/// An expiry time in hours is that many times 3600 seconds, unless it cannot be counted.
pub proof fn hours_have_3600_seconds(hours: u64, r: Option<u64>)
    requires
        call_ensures(cache_expiry_seconds, (hours,), r),
    ensures
        hours * 3600 <= u64::MAX ==> r == Some((hours * 3600) as u64),
        hours * 3600 > u64::MAX ==> r is None,
{
}

proof fn membership_lines_say_each(guilds: Seq<GuildMembership>, activated: Seq<u64>, i: int)
    requires
        0 <= i < guilds.len(),
        membership(guilds[i], activated) is Some,
    ensures
        says(
            membership_lines(guilds, activated),
            "`"@ + decimal(guilds[i].guild_id as nat) + "` "@ + membership(guilds[i], activated)->0 + " "@
                + guilds[i].name@,
        ),
    decreases guilds.len(),
{
    let init = guilds.drop_last();
    let before = membership_lines(init, activated);
    let guild = guilds.last();
    let part = "`"@ + decimal(guilds[i].guild_id as nat) + "` "@ + membership(guilds[i], activated)->0 + " "@
        + guilds[i].name@;
    reveal_strlit("\n- `");
    reveal_strlit("\n- ");
    reveal_strlit("`");
    if membership(guild, activated) is Some {
        let what = membership(guild, activated)->0;
        let line = "`"@ + decimal(guild.guild_id as nat) + "` "@ + what + " "@ + guild.name@;
        assert("\n- `"@ =~= "\n- "@ + "`"@);
        assert(membership_lines(guilds, activated) =~= (before + "\n- "@) + line);
        if i == guilds.len() - 1 {
            says_its_parts(before + "\n- "@, line);
        } else {
            membership_lines_say_each(init, activated, i);
            says_in_concatenation(before, "\n- "@, part);
            says_in_concatenation(before + "\n- "@, line, part);
        }
    } else {
        membership_lines_say_each(init, activated, i);
    }
}

/// Whether a user has anything to do with a guild.
pub open spec fn is_found_in(guild: GuildMembership, activated: Seq<u64>) -> bool {
    guild.is_owner || guild.is_member || activated.contains(guild.guild_id)
}

/// A user is found in every guild that the user owns, is a member of or has activated a license in, and each of them is
/// shown with what the user is there. A user who is found nowhere is not found.
pub proof fn users_are_found_in_their_guilds(
    user: WhoisUser,
    guilds: &[GuildMembership],
    activated: &[u64],
    r: Embed,
    i: int,
)
    requires
        call_ensures(whois, (&user, guilds, activated), r),
    ensures
        (forall|k: int| 0 <= k < guilds@.len() ==> !is_found_in(#[trigger] guilds@[k], activated@)) ==> r.title@
            == "User Not Found"@,
        0 <= i < guilds@.len() && is_found_in(guilds@[i], activated@) ==> r.title@ == "User Found"@ && says(
            r.description@,
            "`"@ + decimal(guilds@[i].guild_id as nat) + "` "@ + (if guilds@[i].is_owner {
                "owner"@
            } else if guilds@[i].is_member {
                "member"@
            } else {
                "activator"@
            }) + " "@ + guilds@[i].name@,
        ),
{
    assert(r.description@ == r@.description);
    assert(r.title@ == r@.title);
    if forall|k: int| 0 <= k < guilds@.len() ==> !is_found_in(#[trigger] guilds@[k], activated@) {
        assert forall|k: int| 0 <= k < guilds@.len() implies membership(#[trigger] guilds@[k], activated@) is None by {
            assert(!is_found_in(guilds@[k], activated@));
        }
    }
    if 0 <= i < guilds@.len() && is_found_in(guilds@[i], activated@) {
        assert(membership(guilds@[i], activated@) is Some);
        membership_lines_say_each(guilds@, activated@, i);
        let part = "`"@ + decimal(guilds@[i].guild_id as nat) + "` "@ + membership(guilds@[i], activated@)->0 + " "@
            + guilds@[i].name@;
        let start = whois_text(user) + "; was found in cache:"@;
        says_in_concatenation(start, membership_lines(guilds@, activated@), part);
    }
}

/// A user who is looked up is shown with the mention, the name, the display name, whether they are banned, and the note.
pub proof fn users_are_described(user: WhoisUser, guilds: &[GuildMembership], activated: &[u64], r: Embed)
    requires
        call_ensures(whois, (&user, guilds, activated), r),
    ensures
        mentions_user(r.description@, user.user_id),
        says(r.description@, user.name@),
        user.display_name matches Some(name) ==> says(r.description@, "; display="@ + name@),
        user.note matches Some(note) ==> says(r.description@, "; note="@ + note@),
        user.banned ==> says(r.description@, "; banned="@ + "true"@),
        !user.banned ==> says(r.description@, "; banned="@ + "false"@),
{
    broadcast use {chained_of_push, chained_of_one};

    assert(r.description@ == r@.description);
    let text = whois_text(user);
    let name = match user.discriminator {
        Some(discriminator) => user.name@ + "#"@ + crate::bot::commands::owner_commands::four_digits(
            discriminator as nat,
        ),
        None => user.name@,
    };
    let display = match user.display_name {
        Some(name) => name@,
        None => ""@,
    };
    let note = match user.note {
        Some(note) => note@,
        None => ""@,
    };
    let banned = if user.banned {
        "true"@
    } else {
        "false"@
    };
    let parts = Seq::<Seq<char>>::empty().push("User "@).push(user_mention(user.user_id)).push(" name="@).push(
        name,
    ).push("; display="@).push(display).push("; banned="@).push(banned).push("; note="@).push(note);
    assert(text == chained(parts));
    chained_says(parts, 1);
    chained_says(parts, 3);
    chained_says(parts, 4);
    chained_says(parts, 6);
    chained_says(parts, 8);
    super::texts::says_itself(user.name@);
    if let Some(discriminator) = user.discriminator {
        let digits = crate::bot::commands::owner_commands::four_digits(discriminator as nat);
        says_its_parts(user.name@, "#"@);
        says_in_concatenation(user.name@ + "#"@, digits, user.name@);
    }
    says_is_transitive(text, name, user.name@);
    let lines = membership_lines(guilds@, activated@);
    says_its_parts(text, "; was found in cache:"@);
    says_in_concatenation(text + "; was found in cache:"@, lines, text);
    says_its_parts(text, "; was not found in cache"@);
    says_is_transitive(r.description@, text, user_mention(user.user_id));
    says_is_transitive(r.description@, text, user.name@);
    says_is_transitive(r.description@, text, "; display="@ + display);
    says_is_transitive(r.description@, text, "; banned="@ + banned);
    says_is_transitive(r.description@, text, "; note="@ + note);
}

/// Stale guilds may be deleted as long as there are not more of them than allowed.
pub proof fn few_stale_guilds_may_be_deleted(stale: usize, max: u64, r: bool)
    requires
        call_ensures(may_delete_stale_guilds, (stale, max), r),
    ensures
        r <==> stale <= max,
{
}

/// Up to some number of backfills run one after the other. More of them are split into that many runs.
pub proof fn backfills_are_split(count: usize, r: usize)
    requires
        count > 0,
        call_ensures(backfill_chunk_size, (count,), r),
    ensures
        r > 0,
        r <= count,
{
    if r > count {
        assert((r - 1) * crate::bot::commands::owner_commands::BACKFILL_PARALLELISM >= count) by (nonlinear_arith)
            requires
                r > count,
                crate::bot::commands::owner_commands::BACKFILL_PARALLELISM > 0,
        ;
    }
}

/// An activation counts as backfilled exactly when its row was updated, and as skipped otherwise.
pub proof fn activations_are_backfilled_or_skipped(counts: &mut BackfillCounts, row_updated: Option<bool>)
    requires
        old(counts).backfilled + old(counts).skipped < u64::MAX,
        call_ensures(BackfillCounts::count, (counts, row_updated), ()),
    ensures
        row_updated == Some(true) ==> final(counts).backfilled == old(counts).backfilled + 1 && final(counts).skipped
            == old(counts).skipped,
        row_updated != Some(true) ==> final(counts).backfilled == old(counts).backfilled && final(counts).skipped
            == old(counts).skipped + 1,
{
}

/// Both counts of backfills add up.
pub proof fn backfills_add_up(counts: &mut BackfillCounts, other: BackfillCounts)
    requires
        call_ensures(BackfillCounts::merge, (counts, other), ()),
    ensures
        final(counts).backfilled == old(counts).backfilled + other.backfilled,
        final(counts).skipped == old(counts).skipped + other.skipped,
{
}

/// What is said of bans, tests, announcements and deleted stores is what was done.
pub proof fn owners_are_told_what_was_done(
    user_id: u64,
    guild_id: u64,
    sent: u64,
    channels: u64,
    stores: usize,
    max: u64,
    banned: Embed,
    unbanned: Embed,
    left: Embed,
    stayed: Embed,
    guild_unbanned_answer: Embed,
    announced: Embed,
    deleted: Embed,
    refused: Embed,
    test: Embed,
    production: Embed,
)
    requires
        call_ensures(user_ban_set, (user_id, true), banned),
        call_ensures(user_ban_set, (user_id, false), unbanned),
        call_ensures(guild_banned, (guild_id, true), left),
        call_ensures(guild_banned, (guild_id, false), stayed),
        call_ensures(guild_unbanned, (guild_id,), guild_unbanned_answer),
        call_ensures(announcement_sent, (sent, channels), announced),
        call_ensures(stale_guilds_deleted, (Some(stores), max), deleted),
        call_ensures(stale_guilds_deleted, (None, max), refused),
        call_ensures(test_guild_set, (true,), test),
        call_ensures(test_guild_set, (false,), production),
    ensures
        mentions_user(banned.description@, user_id) && ends_with(banned.description@, " has been banned"@),
        mentions_user(unbanned.description@, user_id) && ends_with(unbanned.description@, " has been unbanned"@),
        says(left.description@, decimal(guild_id as nat)) && ends_with(
            left.description@,
            "` has been banned and left"@,
        ),
        says(stayed.description@, decimal(guild_id as nat)) && ends_with(stayed.description@, "` has been banned"@),
        says(guild_unbanned_answer.description@, decimal(guild_id as nat)) && ends_with(
            guild_unbanned_answer.description@,
            "` has been unbanned"@,
        ),
        says(announced.description@, decimal(sent as nat) + "/"@ + decimal(channels as nat)),
        says(deleted.description@, decimal(stores as nat)) && deleted.colour == Some(Colour::DarkGreen),
        says(refused.description@, decimal(max as nat)) && refused.colour == Some(Colour::Red),
        ends_with(test.description@, "this guild is now set as a test guild"@),
        ends_with(production.description@, "this guild is now set as a production guild"@),
{
    assert(banned.description@ == banned@.description);
    assert(unbanned.description@ == unbanned@.description);
    assert(left.description@ == left@.description);
    assert(stayed.description@ == stayed@.description);
    assert(guild_unbanned_answer.description@ == guild_unbanned_answer@.description);
    assert(announced.description@ == announced@.description);
    assert(deleted.description@ == deleted@.description);
    assert(deleted.colour == deleted@.colour);
    assert(refused.description@ == refused@.description);
    assert(refused.colour == refused@.colour);
    assert(test.description@ == test@.description);
    assert(production.description@ == production@.description);
    let user = user_mention(user_id);
    says_its_parts(user, " has been banned"@);
    says_its_parts(user, " has been unbanned"@);
    let g = decimal(guild_id as nat);
    says_its_parts("Guild `"@, g);
    says_its_parts("Guild `"@ + g, "` has been banned and left"@);
    says_its_parts("Guild `"@ + g, "` has been banned"@);
    says_its_parts("Guild `"@ + g, "` has been unbanned"@);
    says_in_concatenation("Guild `"@ + g, "` has been banned and left"@, g);
    says_in_concatenation("Guild `"@ + g, "` has been banned"@, g);
    says_in_concatenation("Guild `"@ + g, "` has been unbanned"@, g);
    let counts = decimal(sent as nat) + "/"@ + decimal(channels as nat);
    assert(announced.description@ =~= "Sent announcement to "@ + counts + " channels"@);
    says_its_parts("Sent announcement to "@, counts);
    says_in_concatenation("Sent announcement to "@ + counts, " channels"@, counts);
    let n = decimal(stores as nat);
    says_its_parts("Deleted "@, n);
    says_in_concatenation("Deleted "@ + n, " stores"@, n);
    let m = decimal(max as nat);
    says_its_parts("More than max "@, m);
    says_in_concatenation("More than max "@ + m, " stale guilds detected"@, m);
    says_its_parts(Seq::empty(), test.description@);
    assert(Seq::<char>::empty() + test.description@ =~= test.description@);
    says_its_parts(Seq::empty(), production.description@);
    assert(Seq::<char>::empty() + production.description@ =~= production.description@);
}

/// Whatever is not up to date is told with the release that it was compared to.
pub proof fn releases_are_named(check: VersionCheck, r: String)
    requires
        call_ensures(VersionCheck::describe, (&check,), r),
    ensures
        check matches VersionCheck::Outdated(remote) ==> says(r@, release_link(remote)),
        check matches VersionCheck::Future(remote) ==> says(r@, release_link(remote)),
        check matches VersionCheck::BadLocal(remote) ==> says(r@, release_link(remote)),
        check matches VersionCheck::BadRemote(remote) ==> says(r@, release_link(remote)),
        check is Current ==> r@ == "jinx is up-to-date!"@,
{
    match check {
        VersionCheck::Outdated(remote) => {
            let link = release_link(remote);
            let start = "jinx is outdated! The bot owner should upgrade to "@;
            says_its_parts(start, link);
            says_in_concatenation(start + link, "."@, link);
        },
        VersionCheck::Future(remote) => {
            let link = release_link(remote);
            let start = "jinx is somehow ahead of the version on GitHub ("@;
            says_its_parts(start, link);
            says_in_concatenation(
                start + link,
                "). If you're not beta testing a pre-release then something is wrong."@,
                link,
            );
        },
        VersionCheck::BadLocal(remote) => {
            let link = release_link(remote);
            let start = "jinx local version is not semver-compatible, so could not be compared to the version on GitHub ("@;
            says_its_parts(start, link);
            says_in_concatenation(start + link, ")."@, link);
        },
        VersionCheck::BadRemote(remote) => {
            let link = release_link(remote);
            let start = "jinx version on GitHub ("@;
            says_its_parts(start, link);
            says_in_concatenation(
                start + link,
                ") is not semver-compatible, so could not be compared to the currently running version."@,
                link,
            );
        },
        _ => {},
    }
}

/// What was in the cache before it was cleared is shown, and what is in it afterwards, and how long that took.
pub proof fn cleared_caches_are_shown(before: CacheSize, after: CacheSize, times: ClearTimes, r: Embed)
    requires
        call_ensures(cache_cleared, (&before, &after, &times), r),
    ensures
        says(r.description@, "**Before:**\n"@ + cache_size_text(before)),
        says(r.description@, "\n**After:**\n"@ + cache_size_text(after)),
        says(r.description@, "\n**Elapsed:**\n"@ + clear_times_text(times)),
        says(cache_size_text(before), "API cache total products="@ + decimal(before.products as nat)),
        says(
            cache_size_text(before),
            "\nAPI cache total product versions="@ + decimal(before.product_versions as nat),
        ),
        says(cache_size_text(before), "\nAPI cache guilds="@ + decimal(before.stores as nat)),
        says(clear_times_text(times), "m1="@ + decimal(times.first_metrics_micros as nat)),
        says(clear_times_text(times), "μs\ndb="@ + decimal(times.db_clear_millis as nat)),
        says(clear_times_text(times), "ms\nmem="@ + decimal(times.cache_clear_micros as nat)),
        says(clear_times_text(times), "μs\nm2="@ + decimal(times.second_metrics_micros as nat)),
{
    broadcast use {chained_of_push, chained_of_one};

    assert(r.description@ == r@.description);
    let a = Seq::<Seq<char>>::empty().push("**Before:**\n"@).push(cache_size_text(before)).push("\n**After:**\n"@).push(
        cache_size_text(after),
    ).push("\n**Elapsed:**\n"@).push(clear_times_text(times));
    assert(r.description@ == chained(a));
    chained_says(a, 0);
    chained_says(a, 2);
    chained_says(a, 4);
    let b = Seq::<Seq<char>>::empty().push("API cache total products="@).push(decimal(before.products as nat)).push(
        "\nAPI cache total product versions="@,
    ).push(decimal(before.product_versions as nat)).push("\nAPI cache guilds="@).push(decimal(before.stores as nat));
    assert(cache_size_text(before) == chained(b));
    chained_says(b, 0);
    chained_says(b, 2);
    chained_says(b, 4);
    let c = Seq::<Seq<char>>::empty().push("m1="@).push(decimal(times.first_metrics_micros as nat)).push("μs\ndb="@).push(
        decimal(times.db_clear_millis as nat),
    ).push("ms\nmem="@).push(decimal(times.cache_clear_micros as nat)).push("μs\nm2="@).push(
        decimal(times.second_metrics_micros as nat),
    ).push("μs"@);
    assert(clear_times_text(times) == chained(c));
    chained_says(c, 0);
    chained_says(c, 2);
    chained_says(c, 4);
    chained_says(c, 6);
}

/// What is wrong with the ID of a guild is said, and the icon of a guild is found by its ID.
pub proof fn guild_ids_are_explained(
    title: &str,
    error: &str,
    guild_id: u64,
    icon: &str,
    zero: Embed,
    bad: Embed,
    url: String,
)
    requires
        call_ensures(guild_id_error, (title, None), zero),
        call_ensures(guild_id_error, (title, Some(error)), bad),
        call_ensures(guild_icon_url, (guild_id, icon), url),
    ensures
        zero.title@ == title@ && bad.title@ == title@,
        zero.description@ == "Guild was invalid (id of 0)"@,
        says(bad.description@, error@),
        says(url@, decimal(guild_id as nat) + "/"@ + icon@),
{
    assert(zero.title@ == zero@.title);
    assert(zero.description@ == zero@.description);
    assert(bad.title@ == bad@.title);
    assert(bad.description@ == bad@.description);
    let start = "Guild was invalid (parse error: "@;
    says_its_parts(start, error@);
    says_in_concatenation(start + error@, ")"@, error@);
    let base = "https://cdn.discordapp.com/icons/"@;
    let part = decimal(guild_id as nat) + "/"@ + icon@;
    assert(url@ =~= base + part + ".webp?size=128"@);
    says_its_parts(base, part);
    says_in_concatenation(base + part, ".webp?size=128"@, part);
}

} // verus!
