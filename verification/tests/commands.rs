//! Commands

use jinx::bot::commands::global_commands::{
    command_sets, get_activity_string, gumroad_nag, help, init_request, version, InitOutcome, InitRequest,
};
use jinx::bot::commands::licenses::{
    create_post, find_lock, license_deactivated, license_info, license_locked, license_not_found, license_unlocked,
    lock_ids, products_requiring_lookup, set_log_channel, stats, user_info, user_text, ActivationCounts,
    KnownLicense, LogChannelOutcome, StoreProduct,
};
use jinx::bot::commands::link_form::{
    product_select_max, LinkForm, LinkFormEvent, LinkFormResponse, SelectableProduct,
};
use jinx::bot::commands::links::{
    grant_missing_roles, link_refusal, link_warning, links_changed, list_links, misses_role, show_source, unite_roles, wildcard_role_set, wildcard_role_unset,
    GrantedRole, RoleLinks,
};
use jinx::bot::commands::owner_commands::{
    announcement, announcement_sent, backfill_chunk_size, cache_cleared, cache_expiry_seconds, debug_product_cache,
    guild_banned, guild_icon_url, guild_id_error, guild_information, guild_not_cached, guild_unbanned,
    may_delete_stale_guilds, misconfigured_guilds, owner_stats, parse_guild_id, set_text, stale_guilds_deleted, test_guild_set,
    to_kibibytes, user_ban_set, verify_api_key, verify_owner, whois, BackfillCounts, CacheSize, ClearTimes,
    GuildIdError, GuildInformation, GuildMembership, GuildSetup, OwnerStats, WhoisUser,
};
use jinx::bot::message::Colour;
use jinx::cli_args::{choose_discord_token, parse_discord_id};
use jinx::constants::{clap_version, discord_bot_version, user_agent};
use jinx::db::{LinkSource, LinkedDisplayStore, UserLicense};
use jinx::http::jinxxy::{
    AuthUser, FullProduct, LicenseActivation, LicenseInfo, ProductVersion, ProductVersionId, ProductVersionInfo,
    ProfileImage,
};
use jinx::license::validate_jinxxy_license_activation;
use jinx::http::update_checker::{RemoteVersion, VersionCheck};

fn text(text: &str) -> String {
    text.to_string()
}

#[test]
fn the_bot_is_busy() {
    assert_eq!(get_activity_string(1234), "Helping 1234 users register Jinxxy products");
    assert!(gumroad_nag(17).description.starts_with(
        "Jinx has detected that a significant number (17) of your users are providing Gumroad license keys to Jinx. This may indicate"
    ));
    assert_eq!(help().title, "Jinx Help");
}

#[test]
fn updates_are_announced() {
    let remote = || RemoteVersion {
        url: text("u"),
        version: text("2.0.0"),
    };
    let warning = version(&VersionCheck::Outdated(remote())).expect("an update should be announced");
    assert_eq!((warning.title.as_str(), warning.colour), ("Warning", Some(Colour::Orange)));
    assert_eq!(
        warning.description,
        "jinx is outdated! The bot owner should upgrade to [2.0.0](<u>)."
    );
    let error = version(&VersionCheck::UnknownRemote).expect("an error should be announced");
    assert_eq!((error.title.as_str(), error.colour), ("Error", Some(Colour::Red)));
    assert!(version(&VersionCheck::Current).is_none());
}

#[test]
fn setup_requests() {
    assert!(matches!(init_request(None), InitRequest::Reinstall));
    assert!(matches!(init_request(Some("  ")), InitRequest::Reinstall));
    assert!(matches!(
        init_request(Some(" install_owner_commands ")),
        InitRequest::OwnerCommands { install: true }
    ));
    assert!(matches!(
        init_request(Some("uninstall_owner_commands")),
        InitRequest::OwnerCommands { install: false }
    ));
    match init_request(Some("\tsk_9bba2064ee8c20aa4fd6b015eed2001a\n")) {
        InitRequest::SetApiKey(key) => assert_eq!(key, "sk_9bba2064ee8c20aa4fd6b015eed2001a"),
        other => panic!("expected an API key: {other:?}"),
    }
    for not_a_key in [
        "sk_9BBA2064ee8c20aa4fd6b015eed2001a",
        "sk_9bba2064ee8c20aa4fd6b015eed2001",
        "9bba2064ee8c20aa4fd6b015eed2001a",
        "hello",
    ] {
        assert!(matches!(init_request(Some(not_a_key)), InitRequest::Unrecognized));
    }
}

#[test]
fn setup_answers() {
    let welcome = InitOutcome::ApiKeySet {
        display_name: text("Alex"),
        has_required_scopes: false,
    };
    assert_eq!(
        welcome.answer().description,
        "Welcome, Alex! API key set and additional slash commands enabled. Please continue bot setup."
    );
    assert_eq!(welcome.warning().expect("scopes are missing").title, "Permission Warning");
    let complete = InitOutcome::ApiKeySet {
        display_name: text("Alex"),
        has_required_scopes: true,
    };
    assert!(complete.warning().is_none());
    let outcomes = [
        (InitOutcome::OwnerCommandsSet { install: true }, "Owner commands installed."),
        (InitOutcome::OwnerCommandsSet { install: false }, "Owner commands uninstalled."),
        (InitOutcome::NotOwner, "Not an owner"),
        (
            InitOutcome::ApiKeyNotVerified { error: text("oops") },
            "Error verifying API key: oops",
        ),
        (InitOutcome::Reinstalled, "Commands reinstalled."),
        (InitOutcome::NoApiKey, "Please provide a Jinxxy API key"),
    ];
    for (outcome, description) in outcomes {
        assert_eq!(outcome.answer().description, description);
        assert!(outcome.warning().is_none());
    }
    assert!(InitOutcome::Unrecognized
        .answer()
        .description
        .starts_with("Provided API key appears to be invalid."));
}

#[test]
fn command_sets_can_be_forced() {
    assert_eq!(command_sets(None, None, true, false), (true, false));
    assert_eq!(command_sets(Some(false), Some(true), true, false), (false, true));
}

const COUNTS: ActivationCounts = ActivationCounts {
    day_7: 1,
    day_30: 2,
    day_90: 3,
    day_365: 4,
    lifetime: 5,
};

#[test]
fn activation_statistics() {
    let embed = stats(&COUNTS, Some(6));
    assert_eq!(embed.title, "Jinx Stats");
    assert_eq!(
        embed.description,
        "license activations (7d)=1\nlicense activations (30d)=2\nlicense activations (90d)=3\nlicense activations (1yr)=4\nlicense activations (lifetime)=5\ngumroad licenses rejected=6"
    );
    assert!(stats(&COUNTS, None).description.ends_with("rejected=0"));
}

#[test]
fn log_channels() {
    let embed = set_log_channel(&LogChannelOutcome::Changed { channel_id: 9 });
    assert_eq!(embed.description, "Bot log channel set to <#9>.");
    let embed = set_log_channel(&LogChannelOutcome::NotChanged {
        channel_id: 9,
        error: text("oops"),
    });
    assert_eq!(embed.title, "Error Setting Log Channel");
    assert_eq!(
        embed.description,
        "Log channel not set because there was an error sending a message to <#9>: oops. Please check bot and channel permissions."
    );
    assert_eq!(set_log_channel(&LogChannelOutcome::Unset).description, "Bot log channel unset.");
}

fn user(name: Option<&str>, username: Option<&str>) -> AuthUser {
    AuthUser {
        id: text("123"),
        name: name.map(text),
        username: username.map(text),
        profile_image: Some(ProfileImage { url: text("image") }),
        scopes: vec![text("a"), text("b")],
    }
}

#[test]
fn registration_posts() {
    let post = create_post(&user(Some("Alex"), Some("al")), "123").expect("the store belongs to the user");
    assert_eq!(post.embed.title, "Jinxxy Product Registration");
    assert_eq!(
        post.embed.description,
        "Press the button below to register a Jinxxy license key for any of [Alex's](<https://jinxxy.com/al>) products."
    );
    assert_eq!(post.thumbnail_url.as_deref(), Some("image"));
    assert_eq!(post.button_id, "jinx_register_button:123");
    let post = create_post(&user(Some("Chris"), None), "123").expect("the store belongs to the user");
    assert_eq!(
        post.embed.description,
        "Press the button below to register a Jinxxy license key for any of Chris' products."
    );
    assert!(create_post(&user(None, None), "124").is_none());
}

fn info(product: &str, version: Option<&str>) -> LicenseInfo {
    LicenseInfo {
        license_id: text("id"),
        short_key: text("short"),
        key: text("long"),
        user_id: text("customer"),
        username: None,
        product_id: text(product),
        product_name: text("Avatar"),
        product_version_info: version.map(|version| ProductVersionInfo {
            product_version_id: text(version),
            product_version_name: text("1.0"),
        }),
        order_id: None,
        activations: 3,
    }
}

fn known(store: &str, info: Option<LicenseInfo>) -> KnownLicense {
    KnownLicense {
        license: UserLicense {
            jinxxy_user_id: text(store),
            jinxxy_api_key: text("key"),
            license_id: text("id"),
            jinxxy_username: None,
        },
        license_info: info,
        locked: true,
        user_text: text("`customer`"),
        store_text: text("`store`"),
    }
}

#[test]
fn products_are_looked_up_once() {
    let licenses = [
        known("a", Some(info("p", None))),
        known("a", Some(info("p", Some("v")))),
        known("a", None),
        known("a", Some(info("p", Some("w")))),
        known("b", Some(info("p", Some("v")))),
        known("a", Some(info("q", Some("v")))),
    ];
    assert_eq!(products_requiring_lookup(&licenses), vec![1, 4, 5]);
}

#[test]
fn licenses_of_a_user() {
    assert_eq!(user_info(5, &[], &[]).description, "<@5> has no license activations.");
    let products = [StoreProduct {
        jinxxy_user_id: text("a"),
        product: FullProduct {
            id: text("p"),
            name: text("Avatar"),
            versions: vec![ProductVersion {
                id: text("v"),
                name: text("2.0"),
            }],
            etag: None,
        },
    }];
    let licenses = [
        known("a", Some(info("p", Some("v")))),
        known("b", Some(info("p", Some("v")))),
        known("a", Some(info("p", None))),
        known("a", None),
    ];
    assert_eq!(
        user_info(5, &licenses, &products).description,
        "Licenses for <@5>:\
        \n- `short` store=`store` activations=3 locked=true user=`customer` product=\"Avatar\" version=2.0\
        \n- `short` store=`store` activations=3 locked=true user=`customer` product=\"Avatar\" version=`ERROR`\
        \n- `short` store=`store` activations=3 locked=true user=`customer` product=\"Avatar\" version=`null`\
        \n- store=`a` id=`id` (no data found)"
    );
}

#[test]
fn information_about_a_license() {
    let (answer, warning) = license_info("short", Some(&info("p", Some("v"))), vec![6, 0], vec![0, 6]);
    assert_eq!(answer.title, "License Info");
    assert_eq!(
        answer.description,
        "ID: `id`\nShort: `short`\nLong: `long`\nValid for Avatar 1.0\n\nRegistered users:\n- **LOCKED** (prevents further use)\n- <@6>"
    );
    assert!(warning.is_none());
    let (answer, warning) = license_info("short", Some(&info("p", None)), vec![6], Vec::new());
    assert_eq!(
        answer.description,
        "ID: `id`\nShort: `short`\nLong: `long`\nValid for Avatar `null`\n\nNo registered users."
    );
    assert_eq!(warning.expect("the lists differ").title, "Activator mismatch");
    let (answer, _) = license_info("short", None, Vec::new(), Vec::new());
    assert_eq!(answer.title, "License Info Validation Error");
    assert_eq!(
        answer.description,
        "License `short not found: please verify that the key is correct and belongs to the Jinxxy account linked to this Discord server.`"
    );
    let (answer, _) = license_info("short", None, Vec::new(), vec![7]);
    assert_eq!(
        answer.description,
        "License `short` not found, but somehow has users:\n- <@7>\nThis may indicate that the license has been revoked on the Jinxxy side."
    );
}

fn activation(id: &str, description: &str) -> LicenseActivation {
    LicenseActivation {
        id: text(id),
        description: text(description),
        created_at: "2023-12-01T01:52:15.816Z".parse().expect("Expected valid Timestamp"),
    }
}

#[test]
fn locks_are_found() {
    let activations = [
        activation("a", "discord_5"),
        activation("b", "discord_0"),
        activation("c", "discord_0"),
        activation("d", "0"),
    ];
    assert_eq!(find_lock(&activations), Some(1));
    assert_eq!(find_lock(&activations[..1]), None);
    assert_eq!(lock_ids(&activations), vec!["b", "c"]);
    assert!(lock_ids(&[]).is_empty());
}

#[test]
fn unlocking_leaves_no_lock() {
    let activations = vec![
        activation("a", "discord_5"),
        activation("b", "discord_0"),
        activation("c", "discord_00"),
    ];
    let locks = lock_ids(&activations);
    assert_eq!(locks, vec!["b", "c"]);
    assert!(validate_jinxxy_license_activation(5, &activations).locked);
    let remaining: Vec<LicenseActivation> = activations
        .into_iter()
        .filter(|activation| !locks.contains(&activation.id))
        .collect();
    assert!(lock_ids(&remaining).is_empty());
    assert!(!validate_jinxxy_license_activation(5, &remaining).locked);
}

#[test]
fn locking_is_confirmed() {
    assert_eq!(
        license_locked("x").description,
        "License `x` is now locked and cannot be used to grant roles."
    );
    assert_eq!(
        license_unlocked("x", 1, 0).description,
        "License `x` is now unlocked and may be used to grant roles."
    );
    assert_eq!(license_unlocked("x", 0, 0).description, "No locks for `x` were found.");
    assert!(license_unlocked("x", 0, 2).description.starts_with("License `x` state was out of sync"));
    assert_eq!(
        license_deactivated(5, "x").description,
        "All of <@5>'s activations for `x` have been deleted."
    );
    let embed = license_not_found("Error Locking License", "x");
    assert_eq!(embed.title, "Error Locking License");
    assert_eq!(
        embed.description,
        "License `x` not found: please verify that the key is correct and belongs to the Jinxxy account linked to this Discord server."
    );
}

#[test]
fn links_are_confirmed() {
    assert_eq!(wildcard_role_set(7).description, "Any product will now grant <@&7>");
    assert_eq!(wildcard_role_unset().title, "Wildcard Unset Successful");
    assert_eq!(unite_roles(&[3, 1, 3, 2, 1]), vec![3, 1, 2]);
    let embed = links_changed(true, false, "Avatar", &[2, 1, 2]);
    assert_eq!(embed.title, "Product Link Successful");
    assert_eq!(
        embed.description,
        "Avatar will now grant the following roles:\n- <@&2>\n- <@&1>"
    );
}

#[test]
fn sources_are_shown() {
    let stores = [
        LinkedDisplayStore {
            jinxxy_user_id: text("1"),
            jinxxy_username: Some(text("shop")),
        },
        LinkedDisplayStore {
            jinxxy_user_id: text("2"),
            jinxxy_username: None,
        },
    ];
    let product = |store: &str| LinkSource::ProductBlanket {
        jinxxy_user_id: text(store),
        product_id: text("p"),
    };
    assert_eq!(show_source(&LinkSource::GlobalBlanket, &stores, Some("x")), "`*`");
    assert_eq!(show_source(&product("1"), &stores, Some("Avatar")), "shop: Avatar");
    assert_eq!(show_source(&product("2"), &stores, None), "2: p");
    assert_eq!(show_source(&product("3"), &stores, None), "3: p");
    let version = LinkSource::ProductVersion {
        jinxxy_user_id: text("1"),
        product_version_id: ProductVersionId::from_product_id("p"),
    };
    assert_eq!(show_source(&version, &stores, None), "shop: p.null");
    assert_eq!(show_source(&version, &stores, Some("Avatar 1.0")), "shop: Avatar 1.0");
}

#[test]
fn links_are_listed() {
    let links = |role_id: u64, name: Option<&str>, sources: &[&str]| RoleLinks {
        role_id,
        role_name: name.map(text),
        sources: sources.iter().map(|source| text(source)).collect(),
    };
    let roles = [links(1, Some("one"), &["`*`", "shop: Avatar"]), links(2, None, &["x"])];
    let embed = list_links(&roles, false);
    assert_eq!(embed.title, "All product→role links");
    assert_eq!(
        embed.description,
        "- <@&1> granted by:\n  - `*`\n  - shop: Avatar\n- <@&2> granted by:\n  - x"
    );
    assert_eq!(
        list_links(&roles, true).description,
        "- `one` granted by:\n  - `*`\n  - shop: Avatar\n- `<@&2>` granted by:\n  - x"
    );
    assert_eq!(list_links(&[], false).description, "No product→role links configured");
}

#[test]
fn missing_roles_are_granted() {
    let granted = |role_id: u64, total_users: u64, missing_users: &[u64]| GrantedRole {
        role_id,
        total_users,
        missing_users: missing_users.to_vec(),
    };
    let (answer, log) = grant_missing_roles(9, &[granted(1, 3, &[5, 6]), granted(2, 0, &[])]);
    assert_eq!(
        answer.description,
        "2/3 users were missing <@&1>:\n- <@5>\n- <@6>\n0/0 users were missing <@&2>:"
    );
    assert_eq!(
        log.description,
        "<@9> granted missing roles:\n2/3 users were missing <@&1>:\n- <@5>\n- <@6>\n0/0 users were missing <@&2>:"
    );
}

#[test]
fn the_link_form() {
    assert_eq!(product_select_max(7), 7);
    assert_eq!(product_select_max(25), 25);
    assert_eq!(product_select_max(1_000), 25);
    let products = vec![SelectableProduct {
        product_id: text("1"),
        name: text("Avatar"),
    }];
    let mut form = LinkForm::new(products, vec![10, 11]);
    let submit = |link: bool| LinkFormEvent::Submit { link };
    match form.handle(submit(true)) {
        LinkFormResponse::Incomplete(answer) => assert_eq!(answer.title, "Product Link Failed"),
        other => panic!("expected nothing to be linked: {other:?}"),
    }
    assert!(matches!(
        form.handle(LinkFormEvent::SelectProducts(vec![text("1"), text("2")])),
        LinkFormResponse::Wait
    ));
    form.handle(LinkFormEvent::SelectRoles(vec![10]));
    // an empty selection is none
    form.handle(LinkFormEvent::SelectRoles(Vec::new()));
    assert!(matches!(form.handle(submit(true)), LinkFormResponse::Incomplete(_)));
    form.handle(LinkFormEvent::SelectRoles(vec![10, 12]));
    match form.handle(submit(true)) {
        LinkFormResponse::Apply {
            link,
            product_ids,
            role_ids,
            answer,
            warning,
        } => {
            assert!(link);
            assert_eq!(product_ids, vec!["1", "2"]);
            assert_eq!(role_ids, vec![10, 12]);
            assert_eq!(answer.title, "Product Link Successful");
            assert_eq!(
                answer.description,
                "The following product→role links have been created:\n- \"Avatar\"→<@&10>\n- \"Avatar\"→<@&12>\n- 2→<@&10>\n- 2→<@&12>"
            );
            assert_eq!(
                warning.expect("a role cannot be granted").description,
                "I don't currently have access to grant the following roles. Please check bot permissions.\n- <@&12>\n- <@&10>\n- <@&12>"
            );
        }
        other => panic!("expected links: {other:?}"),
    }
    assert_eq!(form.assignable_roles, vec![11]);
    form.handle(LinkFormEvent::SelectProducts(vec![text("1")]));
    form.handle(LinkFormEvent::SelectRoles(vec![11]));
    assert!(matches!(form.handle(submit(true)), LinkFormResponse::Apply { warning: None, .. }));
    // the form starts afresh
    assert!(matches!(form.handle(submit(false)), LinkFormResponse::Incomplete(_)));
    form.handle(LinkFormEvent::SelectProducts(vec![text("1")]));
    form.handle(LinkFormEvent::SelectRoles(vec![12]));
    match form.handle(submit(false)) {
        LinkFormResponse::Apply { link, answer, warning, .. } => {
            assert!(!link);
            assert_eq!(answer.title, "Product Unlink Successful");
            assert_eq!(
                answer.description,
                "The following product→role links have been removed:\n- \"Avatar\"→<@&12>"
            );
            assert!(warning.is_none());
        }
        other => panic!("expected links to be removed: {other:?}"),
    }
}

#[test]
fn statistics_for_owners() {
    let stats = OwnerStats {
        db_total_bytes: 2049,
        db_free_bytes: 1024,
        available_guilds: 1,
        unavailable_guilds: 2,
        configured_guilds: 3,
        stale_guilds: 4,
        log_channels: 5,
        license_activations: 6,
        distinct_activators: 7,
        wildcard_role_links: 8,
        product_role_links: 9,
        product_version_role_links: 10,
        cached_products: 11,
        cached_product_versions: 12,
        cached_stores: 13,
        registered_stores: 14,
        shards: 1,
        shard_lines: vec![text("0 None Connected")],
        tokio_workers: 15,
        tokio_alive_tasks: 16,
        tokio_global_queue_depth: 17,
        query_micros: 18,
    };
    assert_eq!(
        owner_stats(&stats).description,
        "db size=3 KiB\ndb free=1 KiB\ncached available guilds=1\ncached unavailable guilds=2\nconfigured guilds=3\nstale guilds=4\nlog channels=5\nlicense activations=6\ndistinct activators=7\nwildcard role links=8\nproduct→role links=9\nproduct+version→role links=10\nAPI cache total products=11\nAPI cache total product versions=12\nAPI cache stores=13\nAPI cache registered=14\nshards=1\n- 0 None Connected\ntokio num_workers=15\ntokio num_alive_tasks=16\ntokio global_queue_depth=17\nquery time=18μs"
    );
    assert_eq!(to_kibibytes(0), 0);
    assert_eq!(to_kibibytes(u64::MAX), 1 << 54);
}

#[test]
fn a_cleared_cache() {
    let before = CacheSize {
        products: 1,
        product_versions: 2,
        stores: 3,
    };
    let after = CacheSize {
        products: 0,
        product_versions: 0,
        stores: 0,
    };
    let times = ClearTimes {
        first_metrics_micros: 4,
        db_clear_millis: 5,
        cache_clear_micros: 6,
        second_metrics_micros: 7,
    };
    assert_eq!(
        cache_cleared(&before, &after, &times).description,
        "**Before:**\nAPI cache total products=1\nAPI cache total product versions=2\nAPI cache guilds=3\n**After:**\nAPI cache total products=0\nAPI cache total product versions=0\nAPI cache guilds=0\n**Elapsed:**\nm1=4μs\ndb=5ms\nmem=6μs\nm2=7μs"
    );
}

#[test]
fn announcements() {
    let embed = announcement(None, r"a\nb\\n", true);
    assert_eq!(embed.title, "Test Announcement");
    assert_eq!(embed.description, "a\nb\\\n");
    assert_eq!(announcement(None, "x", false).title, "Announcement");
    assert_eq!(announcement(Some("News"), "x", false).title, "News");
    assert_eq!(announcement_sent(3, 4).description, "Sent announcement to 3/4 channels");
    assert_eq!(test_guild_set(true).description, "this guild is now set as a test guild");
    assert_eq!(test_guild_set(false).description, "this guild is now set as a production guild");
}

#[test]
fn guild_ids() {
    assert!(matches!(parse_guild_id("17"), Ok(17)));
    assert!(matches!(parse_guild_id("+17"), Ok(17)));
    assert!(matches!(parse_guild_id("0"), Err(GuildIdError::Zero)));
    for not_a_number in ["", "-1", "1 ", "x", "18446744073709551616", "+", "++1"] {
        assert!(matches!(parse_guild_id(not_a_number), Err(GuildIdError::NotANumber(_))));
    }
    assert_eq!(guild_id_error("t", None).description, "Guild was invalid (id of 0)");
    assert_eq!(
        guild_id_error("t", Some("oops")).description,
        "Guild was invalid (parse error: oops)"
    );
    assert_eq!(parse_discord_id("12").ok(), Some(12));
    assert!(parse_discord_id("x").is_err());
}

#[test]
fn guild_owners_are_verified() {
    assert_eq!(verify_owner(5, Some(5)).description, "Provided user owns that guild.");
    let failure = verify_owner(5, Some(6));
    assert_eq!(failure.colour, Some(Colour::Orange));
    assert_eq!(
        failure.description,
        "Provided user does not own that guild. Actual owner is <@5>."
    );
    assert_eq!(verify_owner(5, None).description, "Guild owned by <@5>");
    assert_eq!(guild_not_cached().description, "Guild not in cache");
    assert_eq!(
        guild_icon_url(7, "abc"),
        "https://cdn.discordapp.com/icons/7/abc.webp?size=128"
    );
}

#[test]
fn guilds_are_described() {
    let guild = GuildInformation {
        name: text("Guild"),
        banned: false,
        note: None,
        description: Some(text("nice")),
        has_log_channel: true,
        is_test: false,
        administrator: true,
        manage_roles: true,
        counts: COUNTS,
        gumroad_failure_count: None,
        gumroad_nag_count: Some(2),
        nag_role: None,
        top_channel: None,
    };
    assert_eq!(
        guild_information(&guild).description,
        "Name=Guild\nBanned=false\nNote=\nDescription=nice\nLog channel=true\nTest=false\nAdmin=true\nManage Roles=true\nlicense activations (7d)=1\nlicense activations (30d)=2\nlicense activations (90d)=3\nlicense activations (1yr)=4\nlicense activations (lifetime)=5\nfailed gumroad licenses=0\ngumroad nags=2\nnag role=\ntop channel=`null`"
    );
}

#[test]
fn api_keys_are_verified() {
    let embed = verify_api_key(Some("shop"), "1", Ok(&user(Some("Alex"), Some("al"))));
    assert_eq!(embed.title, "API Verification Success: shop");
    assert_eq!(
        embed.description,
        "[Alex](https://jinxxy.com/al) has scopes {\"a\", \"b\"}"
    );
    let mut quoting = user(Some("Alex"), Some("al"));
    quoting.scopes = vec![text("a\"b"), text("a\"b")];
    let embed = verify_api_key(Some("shop"), "1", Ok(&quoting));
    assert_eq!(
        embed.description,
        "[Alex](https://jinxxy.com/al) has scopes {\"a\\\"b\"}"
    );
    assert_eq!(set_text(&[]), "{}");
    assert_eq!(set_text(&[text("1"), text("2"), text("3")]), "{1, 2, 3}");
    let embed = verify_api_key(None, "1", Err("oops"));
    assert_eq!(embed.title, "API Verification Error: 1");
    assert_eq!(embed.description, "API key invalid: oops");
}

#[test]
fn misconfigured_guilds_are_reported() {
    let setup = |guild_id: u64, linked: bool, invalid: bool, banned: bool, permissions: Option<(bool, bool)>| GuildSetup {
        guild_id,
        name: Some(format!("guild{guild_id}")),
        has_jinxxy_linked: linked,
        has_invalid_api_key: invalid,
        banned,
        permissions,
    };
    let good = setup(1, true, false, false, Some((false, true)));
    assert_eq!(misconfigured_guilds(&[good]).description, "No misconfigured guilds!");
    let guilds = [
        setup(1, true, false, false, Some((false, true))),
        setup(22, false, false, false, Some((true, true))),
        setup(u64::MAX, true, true, true, Some((false, false))),
        setup(3, true, false, false, None),
    ];
    let embed = misconfigured_guilds(&guilds);
    assert_eq!(embed.colour, Some(Colour::Red));
    assert_eq!(
        embed.description,
        "```\n                  22 AJ  guild22\n18446744073709551615 MIB guild18446744073709551615\n                   3 ?   guild3\n```"
    );
}

#[test]
fn cached_names_are_listed() {
    assert_eq!(
        debug_product_cache("shop", &[text("Avatar"), text("Hat")]),
        "- shop: Avatar\n- shop: Hat"
    );
    assert_eq!(debug_product_cache("shop", &[]), "");
    assert_eq!(cache_expiry_seconds(24), Some(86_400));
    assert_eq!(cache_expiry_seconds(u64::MAX), None);
}

#[test]
fn users_are_looked_up() {
    let user = WhoisUser {
        user_id: 5,
        name: text("alex"),
        discriminator: Some(42),
        display_name: Some(text("Alex")),
        banned: false,
        note: None,
    };
    let guild = |guild_id: u64, is_owner: bool, is_member: bool| GuildMembership {
        guild_id,
        name: text("g"),
        is_owner,
        is_member,
    };
    let guilds = [
        guild(1, true, true),
        guild(2, false, true),
        guild(3, false, false),
        guild(4, false, false),
    ];
    let embed = whois(&user, &guilds, &[4]);
    assert_eq!(embed.title, "User Found");
    assert_eq!(
        embed.description,
        "User <@5> name=alex#0042; display=Alex; banned=false; note=; was found in cache:\n- `1` owner g\n- `2` member g\n- `4` activator g"
    );
    let embed = whois(&user, &guilds[2..], &[]);
    assert_eq!(embed.title, "User Not Found");
    assert_eq!(
        embed.description,
        "User <@5> name=alex#0042; display=Alex; banned=false; note=; was not found in cache"
    );
}

#[test]
fn bans_are_confirmed() {
    assert_eq!(user_ban_set(5, true).description, "<@5> has been banned");
    assert_eq!(user_ban_set(5, false).description, "<@5> has been unbanned");
    assert_eq!(guild_banned(7, true).description, "Guild `7` has been banned and left");
    assert_eq!(guild_banned(7, false).description, "Guild `7` has been banned");
    assert_eq!(guild_unbanned(7).description, "Guild `7` has been unbanned");
}

#[test]
fn stale_guilds() {
    assert!(may_delete_stale_guilds(3, 3));
    assert!(!may_delete_stale_guilds(4, 3));
    assert_eq!(stale_guilds_deleted(Some(2), 3).description, "Deleted 2 stores");
    assert_eq!(
        stale_guilds_deleted(None, 3).description,
        "More than max 3 stale guilds detected"
    );
}

#[test]
fn backfills() {
    assert_eq!(backfill_chunk_size(1), 1);
    assert_eq!(backfill_chunk_size(32), 32);
    assert_eq!(backfill_chunk_size(33), 9);
    assert_eq!(backfill_chunk_size(40), 10);
    let mut counts = BackfillCounts::new();
    counts.count(Some(true));
    counts.count(Some(false));
    counts.count(None);
    let mut total = BackfillCounts::new();
    total.count(Some(true));
    total.merge(counts);
    assert_eq!(total.answer().description, "Backfilled 2, skipped 2.");
}

#[test]
fn the_bot_tells_about_itself() {
    assert_eq!(
        discord_bot_version("1.2.3", "abc"),
        "jinx 1.2.3 commit abc\nCopyright 2025 jinx contributors\nLicense: GNU AGPL v3.0 or any later version\nhttps://github.com/zkxs/jinx"
    );
    assert_eq!(
        clap_version("1.2.3", "abc", "me"),
        "1.2.3 commit abc\nCopyright 2025 jinx contributors\nLicense: GNU AGPL v3.0 or any later version\nWritten by: me"
    );
    assert_eq!(user_agent("1.2.3"), "jinx/1.2.3 https://github.com/zkxs/jinx");
    assert_eq!(choose_discord_token(Some(text("a")), Some(text("b"))), Some(text("a")));
    assert_eq!(choose_discord_token(None, Some(text("b"))), Some(text("b")));
    assert_eq!(choose_discord_token(None, None), None);
}

#[test]
fn links_of_unknown_products_are_refused() {
    assert!(link_refusal(true, false, 1).is_none());
    assert!(link_refusal(false, true, 2).is_none());
    for (link, of_version, title, description) in [
        (true, false, "Error Linking Product", "Product not found."),
        (false, false, "Error Unlinking Product", "Product not found."),
        (true, true, "Error Linking Product Version", "Product version not found."),
        (false, true, "Error Unlinking Product Version", "Product version not found."),
    ] {
        let refusal = link_refusal(link, of_version, 0).expect("there are no products");
        assert_eq!(refusal.title, title);
        assert_eq!(refusal.description, description);
        assert_eq!(refusal.colour, Some(Colour::Red));
    }
    assert_eq!(links_changed(false, false, "Avatar", &[]).title, "Product Unlink Successful");
    assert_eq!(links_changed(true, true, "Avatar", &[]).title, "Product Version Link Successful");
    assert_eq!(links_changed(false, true, "Avatar", &[]).title, "Product Version Unlink Successful");
}

#[test]
fn links_are_warned_about() {
    assert!(link_warning(true, &[1, 2], 1, &[3]).is_none());
    assert!(link_warning(false, &[1, 2], 3, &[2, 1]).is_none());
    let start = "I don't currently have access to grant the following roles. Please check bot permissions.";
    let warning = link_warning(true, &[1], 3, &[5]).expect("the role cannot be granted");
    assert_eq!(warning.description, format!("{start}\n- <@&3>"));
    let warning = link_warning(false, &[1], 3, &[5, 1, 4, 5]).expect("some roles cannot be granted");
    assert_eq!(warning.description, format!("{start}\n- <@&4>\n- <@&5>"));
    assert!(misses_role(&[1, 2], 3));
    assert!(!misses_role(&[1, 2], 2));
}

#[test]
fn users_are_shown() {
    assert_eq!(
        user_text("1", Some("al"), Some("https://jinxxy.com/al")),
        "[al](<https://jinxxy.com/al>)"
    );
    assert_eq!(user_text("1", Some("al"), None), "`al`");
    assert_eq!(user_text("1", None, None), "`1`");
    assert_eq!(user_text("1", None, Some("https://jinxxy.com/al")), "`1`");
}
