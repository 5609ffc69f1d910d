//! What is answered to commands

use super::texts::{chained, chained_of_one, chained_of_push, chained_says, says, says_is_transitive, says_its_parts};
use crate::bot::commands::licenses::{counts_text, ActivationCounts};
use crate::bot::commands::owner_commands::{
    bullet_lines, guild_information, guild_stats_text, machine_stats_text, owner_stats, GuildInformation, OwnerStats,
};
use crate::bot::message::Embed;
use crate::text::decimal;
use vstd::prelude::*;

verus! {

/// Each count of activations is shown with the time that it is about.
pub proof fn counts_are_shown(counts: ActivationCounts, r: String)
    requires
        call_ensures(ActivationCounts::describe, (&counts,), r),
    ensures
        says(r@, "license activations (7d)="@ + decimal(counts.day_7 as nat)),
        says(r@, "\nlicense activations (30d)="@ + decimal(counts.day_30 as nat)),
        says(r@, "\nlicense activations (90d)="@ + decimal(counts.day_90 as nat)),
        says(r@, "\nlicense activations (1yr)="@ + decimal(counts.day_365 as nat)),
        says(r@, "\nlicense activations (lifetime)="@ + decimal(counts.lifetime as nat)),
{
    broadcast use {chained_of_push, chained_of_one};

    let parts = Seq::<Seq<char>>::empty()
        .push("license activations (7d)="@)
        .push(decimal(counts.day_7 as nat))
        .push("\nlicense activations (30d)="@)
        .push(decimal(counts.day_30 as nat))
        .push("\nlicense activations (90d)="@)
        .push(decimal(counts.day_90 as nat))
        .push("\nlicense activations (1yr)="@)
        .push(decimal(counts.day_365 as nat))
        .push("\nlicense activations (lifetime)="@)
        .push(decimal(counts.lifetime as nat));
    assert(r@ == chained(parts));
    chained_says(parts, 0);
    chained_says(parts, 2);
    chained_says(parts, 4);
    chained_says(parts, 6);
    chained_says(parts, 8);
}

/// Each number that is known of guilds and links is shown under its name, and sizes are rounded up to KiB.
pub proof fn guild_statistics_are_shown(s: OwnerStats, r: Embed)
    requires
        call_ensures(owner_stats, (&s,), r),
    ensures
        says(r.description@, "db size="@ + decimal(((s.db_total_bytes + 1023) / 1024) as nat)),
        says(r.description@, " KiB\ndb free="@ + decimal(((s.db_free_bytes + 1023) / 1024) as nat)),
        says(r.description@, " KiB\ncached available guilds="@ + decimal(s.available_guilds as nat)),
        says(r.description@, "\ncached unavailable guilds="@ + decimal(s.unavailable_guilds as nat)),
        says(r.description@, "\nconfigured guilds="@ + decimal(s.configured_guilds as nat)),
        says(r.description@, "\nstale guilds="@ + decimal(s.stale_guilds as nat)),
        says(r.description@, "\nlog channels="@ + decimal(s.log_channels as nat)),
        says(r.description@, "\nlicense activations="@ + decimal(s.license_activations as nat)),
        says(r.description@, "\ndistinct activators="@ + decimal(s.distinct_activators as nat)),
        says(r.description@, "\nwildcard role links="@ + decimal(s.wildcard_role_links as nat)),
        says(r.description@, "\nproduct→role links="@ + decimal(s.product_role_links as nat)),
        says(r.description@, "\nproduct+version→role links="@ + decimal(s.product_version_role_links as nat)),
{
    broadcast use {chained_of_push, chained_of_one};

    assert(r.description@ == r@.description);
    let part = guild_stats_text(s);
    says_its_parts(guild_stats_text(s), machine_stats_text(s));
    let parts = Seq::<Seq<char>>::empty()
        .push("db size="@)
        .push(decimal(((s.db_total_bytes + 1023) / 1024) as nat))
        .push(" KiB\ndb free="@)
        .push(decimal(((s.db_free_bytes + 1023) / 1024) as nat))
        .push(" KiB\ncached available guilds="@)
        .push(decimal(s.available_guilds as nat))
        .push("\ncached unavailable guilds="@)
        .push(decimal(s.unavailable_guilds as nat))
        .push("\nconfigured guilds="@)
        .push(decimal(s.configured_guilds as nat))
        .push("\nstale guilds="@)
        .push(decimal(s.stale_guilds as nat))
        .push("\nlog channels="@)
        .push(decimal(s.log_channels as nat))
        .push("\nlicense activations="@)
        .push(decimal(s.license_activations as nat))
        .push("\ndistinct activators="@)
        .push(decimal(s.distinct_activators as nat))
        .push("\nwildcard role links="@)
        .push(decimal(s.wildcard_role_links as nat))
        .push("\nproduct→role links="@)
        .push(decimal(s.product_role_links as nat))
        .push("\nproduct+version→role links="@)
        .push(decimal(s.product_version_role_links as nat));
    assert(part == chained(parts));
    chained_says(parts, 0);
    says_is_transitive(r.description@, part, "db size="@ + decimal(((s.db_total_bytes + 1023) / 1024) as nat));
    chained_says(parts, 2);
    says_is_transitive(r.description@, part, " KiB\ndb free="@ + decimal(((s.db_free_bytes + 1023) / 1024) as nat));
    chained_says(parts, 4);
    says_is_transitive(r.description@, part, " KiB\ncached available guilds="@ + decimal(s.available_guilds as nat));
    chained_says(parts, 6);
    says_is_transitive(r.description@, part, "\ncached unavailable guilds="@ + decimal(s.unavailable_guilds as nat));
    chained_says(parts, 8);
    says_is_transitive(r.description@, part, "\nconfigured guilds="@ + decimal(s.configured_guilds as nat));
    chained_says(parts, 10);
    says_is_transitive(r.description@, part, "\nstale guilds="@ + decimal(s.stale_guilds as nat));
    chained_says(parts, 12);
    says_is_transitive(r.description@, part, "\nlog channels="@ + decimal(s.log_channels as nat));
    chained_says(parts, 14);
    says_is_transitive(r.description@, part, "\nlicense activations="@ + decimal(s.license_activations as nat));
    chained_says(parts, 16);
    says_is_transitive(r.description@, part, "\ndistinct activators="@ + decimal(s.distinct_activators as nat));
    chained_says(parts, 18);
    says_is_transitive(r.description@, part, "\nwildcard role links="@ + decimal(s.wildcard_role_links as nat));
    chained_says(parts, 20);
    says_is_transitive(r.description@, part, "\nproduct→role links="@ + decimal(s.product_role_links as nat));
    chained_says(parts, 22);
    says_is_transitive(r.description@, part, "\nproduct+version→role links="@ + decimal(s.product_version_role_links as nat));
}

/// Each number that is known of caches and the machine is shown under its name.
pub proof fn machine_statistics_are_shown(s: OwnerStats, r: Embed)
    requires
        call_ensures(owner_stats, (&s,), r),
    ensures
        says(r.description@, "\nAPI cache total products="@ + decimal(s.cached_products as nat)),
        says(r.description@, "\nAPI cache total product versions="@ + decimal(s.cached_product_versions as nat)),
        says(r.description@, "\nAPI cache stores="@ + decimal(s.cached_stores as nat)),
        says(r.description@, "\nAPI cache registered="@ + decimal(s.registered_stores as nat)),
        says(r.description@, "\nshards="@ + decimal(s.shards as nat)),
        says(r.description@, "\ntokio num_workers="@ + decimal(s.tokio_workers as nat)),
        says(r.description@, "\ntokio num_alive_tasks="@ + decimal(s.tokio_alive_tasks as nat)),
        says(r.description@, "\ntokio global_queue_depth="@ + decimal(s.tokio_global_queue_depth as nat)),
        says(r.description@, "\nquery time="@ + decimal(s.query_micros as nat)),
{
    broadcast use {chained_of_push, chained_of_one};

    assert(r.description@ == r@.description);
    let part = machine_stats_text(s);
    says_its_parts(guild_stats_text(s), machine_stats_text(s));
    let parts = Seq::<Seq<char>>::empty()
        .push("\nAPI cache total products="@)
        .push(decimal(s.cached_products as nat))
        .push("\nAPI cache total product versions="@)
        .push(decimal(s.cached_product_versions as nat))
        .push("\nAPI cache stores="@)
        .push(decimal(s.cached_stores as nat))
        .push("\nAPI cache registered="@)
        .push(decimal(s.registered_stores as nat))
        .push("\nshards="@)
        .push(decimal(s.shards as nat))
        .push(bullet_lines(s.shard_lines@))
        .push("\ntokio num_workers="@)
        .push(decimal(s.tokio_workers as nat))
        .push("\ntokio num_alive_tasks="@)
        .push(decimal(s.tokio_alive_tasks as nat))
        .push("\ntokio global_queue_depth="@)
        .push(decimal(s.tokio_global_queue_depth as nat))
        .push("\nquery time="@)
        .push(decimal(s.query_micros as nat))
        .push("μs"@);
    assert(part == chained(parts));
    chained_says(parts, 0);
    says_is_transitive(r.description@, part, "\nAPI cache total products="@ + decimal(s.cached_products as nat));
    chained_says(parts, 2);
    says_is_transitive(r.description@, part, "\nAPI cache total product versions="@ + decimal(s.cached_product_versions as nat));
    chained_says(parts, 4);
    says_is_transitive(r.description@, part, "\nAPI cache stores="@ + decimal(s.cached_stores as nat));
    chained_says(parts, 6);
    says_is_transitive(r.description@, part, "\nAPI cache registered="@ + decimal(s.registered_stores as nat));
    chained_says(parts, 8);
    says_is_transitive(r.description@, part, "\nshards="@ + decimal(s.shards as nat));
    chained_says(parts, 11);
    says_is_transitive(r.description@, part, "\ntokio num_workers="@ + decimal(s.tokio_workers as nat));
    chained_says(parts, 13);
    says_is_transitive(r.description@, part, "\ntokio num_alive_tasks="@ + decimal(s.tokio_alive_tasks as nat));
    chained_says(parts, 15);
    says_is_transitive(r.description@, part, "\ntokio global_queue_depth="@ + decimal(s.tokio_global_queue_depth as nat));
    chained_says(parts, 17);
    says_is_transitive(r.description@, part, "\nquery time="@ + decimal(s.query_micros as nat));
}

/// The word for a truth value.
pub open spec fn truth(b: bool) -> Seq<char> {
    if b {
        "true"@
    } else {
        "false"@
    }
}

/// A text, or what stands in for it.
pub open spec fn text_of(text: Option<String>, other: Seq<char>) -> Seq<char> {
    match text {
        Some(text) => text@,
        None => other,
    }
}

/// A number, or zero.
pub open spec fn number_of(number: Option<u64>) -> nat {
    match number {
        Some(number) => number as nat,
        None => 0,
    }
}

/// Each thing that is known of a guild is shown under its name.
pub proof fn guild_information_is_shown(g: GuildInformation, r: Embed)
    requires
        call_ensures(guild_information, (&g,), r),
    ensures
        says(r.description@, "Name="@ + g.name@),
        says(r.description@, "\nBanned="@ + truth(g.banned)),
        says(r.description@, "\nNote="@ + text_of(g.note, ""@)),
        says(r.description@, "\nDescription="@ + text_of(g.description, ""@)),
        says(r.description@, "\nLog channel="@ + truth(g.has_log_channel)),
        says(r.description@, "\nTest="@ + truth(g.is_test)),
        says(r.description@, "\nAdmin="@ + truth(g.administrator)),
{
    broadcast use {chained_of_push, chained_of_one};

    assert(r.description@ == r@.description);
    let parts = Seq::<Seq<char>>::empty()
        .push("Name="@)
        .push(g.name@)
        .push("\nBanned="@)
        .push(truth(g.banned))
        .push("\nNote="@)
        .push(text_of(g.note, ""@))
        .push("\nDescription="@)
        .push(text_of(g.description, ""@))
        .push("\nLog channel="@)
        .push(truth(g.has_log_channel))
        .push("\nTest="@)
        .push(truth(g.is_test))
        .push("\nAdmin="@)
        .push(truth(g.administrator))
        .push("\nManage Roles="@)
        .push(truth(g.manage_roles))
        .push("\n"@)
        .push(counts_text(g.counts))
        .push("\nfailed gumroad licenses="@)
        .push(decimal(number_of(g.gumroad_failure_count)))
        .push("\ngumroad nags="@)
        .push(decimal(number_of(g.gumroad_nag_count)))
        .push("\nnag role="@)
        .push(text_of(g.nag_role, ""@))
        .push("\ntop channel="@)
        .push(text_of(g.top_channel, "`null`"@));
    assert(r.description@ == chained(parts));
    chained_says(parts, 0);
    chained_says(parts, 2);
    chained_says(parts, 4);
    chained_says(parts, 6);
    chained_says(parts, 8);
    chained_says(parts, 10);
    chained_says(parts, 12);
}

/// Each number that is known of a guild is shown under its name, and so are the role and the channel that matter to it.
pub proof fn guild_numbers_are_shown(g: GuildInformation, r: Embed)
    requires
        call_ensures(guild_information, (&g,), r),
    ensures
        says(r.description@, "\nManage Roles="@ + truth(g.manage_roles)),
        says(r.description@, "\n"@ + counts_text(g.counts)),
        says(r.description@, "\nfailed gumroad licenses="@ + decimal(number_of(g.gumroad_failure_count))),
        says(r.description@, "\ngumroad nags="@ + decimal(number_of(g.gumroad_nag_count))),
        says(r.description@, "\nnag role="@ + text_of(g.nag_role, ""@)),
        says(r.description@, "\ntop channel="@ + text_of(g.top_channel, "`null`"@)),
{
    broadcast use {chained_of_push, chained_of_one};

    assert(r.description@ == r@.description);
    let parts = Seq::<Seq<char>>::empty()
        .push("Name="@)
        .push(g.name@)
        .push("\nBanned="@)
        .push(truth(g.banned))
        .push("\nNote="@)
        .push(text_of(g.note, ""@))
        .push("\nDescription="@)
        .push(text_of(g.description, ""@))
        .push("\nLog channel="@)
        .push(truth(g.has_log_channel))
        .push("\nTest="@)
        .push(truth(g.is_test))
        .push("\nAdmin="@)
        .push(truth(g.administrator))
        .push("\nManage Roles="@)
        .push(truth(g.manage_roles))
        .push("\n"@)
        .push(counts_text(g.counts))
        .push("\nfailed gumroad licenses="@)
        .push(decimal(number_of(g.gumroad_failure_count)))
        .push("\ngumroad nags="@)
        .push(decimal(number_of(g.gumroad_nag_count)))
        .push("\nnag role="@)
        .push(text_of(g.nag_role, ""@))
        .push("\ntop channel="@)
        .push(text_of(g.top_channel, "`null`"@));
    assert(r.description@ == chained(parts));
    chained_says(parts, 14);
    chained_says(parts, 16);
    chained_says(parts, 18);
    chained_says(parts, 20);
    chained_says(parts, 22);
    chained_says(parts, 24);
}

} // verus!
