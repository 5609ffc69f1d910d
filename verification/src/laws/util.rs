//! Names, roles and channels

use super::licenses::ascending_keeps_numbers;
use super::texts::{mentions_role, role_bullets_mention_each, says_in_concatenation};
use crate::bot::message::{role_bullets, Embed};
use crate::bot::util::{
    ascending, assignable_roles, channel_order, create_role_warning_from_roles, create_role_warning_from_unassignable,
    deleted_roles, grantable, may_be_private, product_display_name, sorted_channels, sort_ascending,
    truncate_string_for_discord_autocomplete, unassignable, GuildRole, MessageFlags, MessageKind, RetryCheck,
    RetryThrice,
};
use crate::text::decimal;
use vstd::prelude::*;

verus! {

/// A product and its version are shown in full, with a space between them, whenever Discord allows that. Otherwise a
/// version of up to 33 characters is shown in full, and the product fills up what is left; and if both are long, both
/// are cut.
pub proof fn names_are_shown_in_full_if_they_fit(product: &str, version: &str, shown: String)
    requires
        call_ensures(product_display_name, (product, Some(version)), shown),
    ensures
        product@.len() + 1 + version@.len() <= 100 ==> shown@ == product@ + " "@ + version@,
        product@.len() + 1 + version@.len() > 100 && version@.len() <= 33 ==> shown@ == product@.take(
            99 - version@.len(),
        ) + " "@ + version@ && shown@.len() == 100,
        product@.len() + 1 + version@.len() > 100 && 33 < version@.len() <= 99 ==> shown@ == product@.take(
            if product@.len() < 66 {
                product@.len() as int
            } else {
                66
            },
        ) + " "@ + version@.take(33),
        version@.len() > 99 && product@.len() <= 99 ==> shown@ == product@.take(
            if product@.len() < 66 {
                product@.len() as int
            } else {
                66
            },
        ) + " "@ + version@.take(33),
        product@.len() > 99 && version@.len() > 99 ==> shown@ == product@.take(50) + " "@ + version@.take(49),
        shown@.len() <= 100,
{
    reveal_strlit(" ");
    let p = product@;
    let v = version@;
    assert(p.take(p.len() as int) =~= p);
}

/// A product without a version is shown with a suffix that says so, and up to 85 characters of its own.
pub proof fn products_without_version_say_so(product: &str, shown: String)
    requires
        call_ensures(product_display_name, (product, None), shown),
    ensures
        product@.len() <= 85 ==> shown@ == product@ + " (null version)"@,
        product@.len() > 85 ==> shown@ == product@.take(85) + " (null version)"@,
{
}

/// A choice is shown in full if it has up to a hundred characters, and otherwise that many are.
pub proof fn choices_are_cut_to_size(text: &str, r: String)
    requires
        call_ensures(truncate_string_for_discord_autocomplete, (text,), r),
    ensures
        text@.len() <= 100 ==> r@ == text@,
        text@.len() > 100 ==> r@ == text@.take(100),
{
}

proof fn grantable_are_those(
    roles: Seq<GuildRole>,
    can_manage_roles: bool,
    highest_position: Option<u16>,
    everyone_id: Option<u64>,
    role_id: u64,
)
    ensures
        grantable(roles, can_manage_roles, highest_position, everyone_id).contains(role_id) <==> can_manage_roles
            && everyone_id != Some(role_id) && exists|i: int|
            0 <= i < roles.len() && (#[trigger] roles[i]).role_id == role_id && !roles[i].managed && (
            highest_position matches Some(highest) && roles[i].position < highest),
    decreases roles.len(),
{
    if roles.len() > 0 && can_manage_roles && highest_position is Some {
        let init = roles.drop_last();
        let before = grantable(init, can_manage_roles, highest_position, everyone_id);
        let after = grantable(roles, can_manage_roles, highest_position, everyone_id);
        let n = roles.len() - 1;
        grantable_are_those(init, can_manage_roles, highest_position, everyone_id, role_id);
        assert forall|i: int| 0 <= i < init.len() implies #[trigger] init[i] == roles[i] by {}
        if after.contains(role_id) {
            let k = choose|k: int| 0 <= k < after.len() && after[k] == role_id;
            if k < before.len() {
                assert(before[k] == role_id);
                let i = choose|i: int|
                    0 <= i < init.len() && (#[trigger] init[i]).role_id == role_id && !init[i].managed && (
                    highest_position matches Some(highest) && init[i].position < highest);
                assert(roles[i].role_id == role_id);
            } else {
                assert(roles[n].role_id == role_id);
            }
        }
        if everyone_id != Some(role_id) && exists|i: int|
            0 <= i < roles.len() && (#[trigger] roles[i]).role_id == role_id && !roles[i].managed && (
            highest_position matches Some(highest) && roles[i].position < highest) {
            let i = choose|i: int|
                0 <= i < roles.len() && (#[trigger] roles[i]).role_id == role_id && !roles[i].managed && (
                highest_position matches Some(highest) && roles[i].position < highest);
            if i < n {
                assert(init[i].role_id == role_id);
                let k = choose|k: int| 0 <= k < before.len() && before[k] == role_id;
                assert(after[k] == role_id);
            } else {
                assert(after[before.len() as int] == role_id);
            }
        }
    }
}

/// The bot can grant a role exactly when it may manage roles and the role is below its own highest one, is not managed
/// by an integration, and is not the role that everyone has.
pub proof fn the_bot_grants_what_is_below_it(
    roles: &[GuildRole],
    can_manage_roles: bool,
    highest_position: Option<u16>,
    everyone_id: Option<u64>,
    assignable: Vec<u64>,
    role_id: u64,
)
    requires
        call_ensures(assignable_roles, (roles, can_manage_roles, highest_position, everyone_id), assignable),
    ensures
        assignable@.contains(role_id) <==> can_manage_roles && everyone_id != Some(role_id) && exists|i: int|
            0 <= i < roles@.len() && (#[trigger] roles@[i]).role_id == role_id && !roles@[i].managed && (
            highest_position matches Some(highest) && roles@[i].position < highest),
{
    grantable_are_those(roles@, can_manage_roles, highest_position, everyone_id, role_id);
}

/// A role counts as deleted exactly when it was known and the guild does not have it.
pub proof fn missing_roles_count_as_deleted(known: &[u64], guild: &[u64], deleted: Vec<u64>, role_id: u64)
    requires
        call_ensures(deleted_roles, (known, guild), deleted),
    ensures
        deleted@.contains(role_id) <==> known@.contains(role_id) && !guild@.contains(role_id),
{
    filtered_are_those(known@, |role_id: u64| !guild@.contains(role_id), role_id);
}

/// A filter keeps what it is meant to keep, and nothing else.
pub proof fn filtered_are_those<T>(items: Seq<T>, keep: spec_fn(T) -> bool, item: T)
    ensures
        items.filter(keep).contains(item) <==> items.contains(item) && keep(item),
    decreases items.len(),
{
    reveal(Seq::filter);
    if items.len() > 0 {
        let init = items.drop_last();
        let before = init.filter(keep);
        let after = items.filter(keep);
        filtered_are_those(init, keep, item);
        if after.contains(item) {
            let k = choose|k: int| 0 <= k < after.len() && after[k] == item;
            if k < before.len() {
                assert(before[k] == item);
                let i = choose|i: int| 0 <= i < init.len() && init[i] == item;
                assert(items[i] == item);
            } else {
                assert(items[items.len() - 1] == item);
            }
        }
        if items.contains(item) && keep(item) {
            let i = choose|i: int| 0 <= i < items.len() && items[i] == item;
            if i < init.len() {
                assert(init[i] == item);
                let k = choose|k: int| 0 <= k < before.len() && before[k] == item;
                assert(after[k] == item);
            } else {
                assert(after[before.len() as int] == item);
            }
        }
    }
}

/// Sorting numbers neither loses one nor adds one, and puts them in ascending order.
pub proof fn numbers_are_sorted(numbers: &mut Vec<u64>)
    requires
        call_ensures(sort_ascending, (numbers,), ()),
    ensures
        final(numbers)@.to_multiset() == old(numbers)@.to_multiset(),
        final(numbers)@.len() == old(numbers)@.len(),
        forall|i: int, j: int| 0 <= i < j < final(numbers)@.len() ==> final(numbers)@[i] <= final(numbers)@[j],
{
    ascending_keeps_numbers(old(numbers)@);
}

/// Channels are listed by their positions, the lower ones first, and those at the same position by their IDs, the
/// bigger ones first. None is lost and none is added.
pub proof fn channels_are_listed_in_order(channels: &[(u16, u64)], sorted: Vec<(u16, u64)>)
    requires
        call_ensures(sorted_channels, (channels,), sorted),
    ensures
        sorted@.to_multiset() == channels@.to_multiset(),
        forall|i: int, j: int|
            0 <= i < j < sorted@.len() ==> (#[trigger] sorted@[i]).0 < (#[trigger] sorted@[j]).0 || sorted@[i].0
                == sorted@[j].0 && sorted@[i].1 >= sorted@[j].1,
{
    assert(vstd::relations::total_ordering(channel_order()));
    channels@.lemma_sort_by_ensures(channel_order());
    assert forall|i: int, j: int| 0 <= i < j < sorted@.len() implies (#[trigger] sorted@[i]).0 < (
    #[trigger] sorted@[j]).0 || sorted@[i].0 == sorted@[j].0 && sorted@[i].1 >= sorted@[j].1 by {
        assert(channel_order()(sorted@[i], sorted@[j]));
    }
}

proof fn unassignable_are_those(assignable: Seq<u64>, roles: Seq<u64>, role_id: u64)
    ensures
        unassignable(assignable, roles).contains(role_id) <==> roles.contains(role_id) && !assignable.contains(role_id),
    decreases roles.len(),
{
    if roles.len() > 0 {
        let init = roles.drop_last();
        let before = unassignable(assignable, init);
        let after = unassignable(assignable, roles);
        unassignable_are_those(assignable, init, role_id);
        unassignable_are_those(assignable, init, roles.last());
        if after.contains(role_id) {
            let k = choose|k: int| 0 <= k < after.len() && after[k] == role_id;
            if k < before.len() {
                assert(before[k] == role_id);
                let i = choose|i: int| 0 <= i < init.len() && init[i] == role_id;
                assert(roles[i] == role_id);
            } else {
                assert(roles[roles.len() - 1] == role_id);
            }
        }
        if roles.contains(role_id) && !assignable.contains(role_id) {
            let i = choose|i: int| 0 <= i < roles.len() && roles[i] == role_id;
            if i < init.len() {
                assert(init[i] == role_id);
                let k = choose|k: int| 0 <= k < before.len() && before[k] == role_id;
                assert(after[k] == role_id);
            } else if !before.contains(role_id) {
                assert(after[before.len() as int] == role_id);
            }
        }
    }
}

/// There is nothing to warn of exactly when all roles can be granted.
pub proof fn unassignable_is_empty(assignable: Seq<u64>, roles: Seq<u64>)
    ensures
        unassignable(assignable, roles).len() == 0 <==> forall|i: int|
            0 <= i < roles.len() ==> assignable.contains(#[trigger] roles[i]),
{
    let found = unassignable(assignable, roles);
    if found.len() > 0 {
        unassignable_are_those(assignable, roles, found[0]);
        assert(found.contains(found[0]));
        let i = choose|i: int| 0 <= i < roles.len() && roles[i] == found[0];
        assert(!assignable.contains(roles[i]));
    } else {
        assert forall|i: int| 0 <= i < roles.len() implies assignable.contains(#[trigger] roles[i]) by {
            unassignable_are_those(assignable, roles, roles[i]);
            assert(roles.contains(roles[i]));
        }
    }
}

/// A warning of roles mentions each of them, and there is one exactly when there are roles to warn of.
pub proof fn warnings_mention_roles(roles: Vec<u64>, warning: Option<Embed>, role_id: u64)
    requires
        call_ensures(create_role_warning_from_unassignable, (roles,), warning),
    ensures
        warning is Some <==> roles@.len() > 0,
        warning matches Some(w) ==> (roles@.contains(role_id) ==> mentions_role(w.description@, role_id)),
{
    if let Some(w) = warning {
        assert(w.description@ == w@.description);
        ascending_keeps_numbers(roles@);
        let sorted = ascending(roles@);
        if roles@.contains(role_id) {
            assert(sorted.contains(role_id));
            let i = choose|i: int| 0 <= i < sorted.len() && sorted[i] == role_id;
            role_bullets_mention_each(sorted, i);
            says_in_concatenation(
                "I don't currently have access to grant the following roles. Please check bot permissions."@,
                role_bullets(sorted),
                "<@&"@ + decimal(role_id as nat) + ">"@,
            );
        }
    }
}

/// Of roles there is a warning exactly when the bot cannot grant some of them, and it mentions each of those.
pub proof fn ungrantable_roles_are_warned_of(assignable: &[u64], roles: &[u64], warning: Option<Embed>, role_id: u64)
    requires
        call_ensures(create_role_warning_from_roles, (assignable, roles), warning),
    ensures
        warning is None <==> forall|i: int| 0 <= i < roles@.len() ==> assignable@.contains(#[trigger] roles@[i]),
        warning matches Some(w) ==> (roles@.contains(role_id) && !assignable@.contains(role_id) ==> mentions_role(
            w.description@,
            role_id,
        )),
{
    let found = unassignable(assignable@, roles@);
    unassignable_are_those(assignable@, roles@, role_id);
    if found.len() > 0 {
        unassignable_are_those(assignable@, roles@, found[0]);
        assert(found.contains(found[0]));
        let i = choose|i: int| 0 <= i < roles@.len() && roles@[i] == found[0];
        assert(!assignable@.contains(roles@[i]));
    } else {
        assert forall|i: int| 0 <= i < roles@.len() implies assignable@.contains(#[trigger] roles@[i]) by {
            unassignable_are_those(assignable@, roles@, roles@[i]);
            assert(roles@.contains(roles@[i]));
        }
    }
    if let Some(w) = warning {
        assert(w.description@ == w@.description);
        ascending_keeps_numbers(found);
        let sorted = ascending(found);
        if found.contains(role_id) {
            assert(sorted.contains(role_id));
            let i = choose|i: int| 0 <= i < sorted.len() && sorted[i] == role_id;
            role_bullets_mention_each(sorted, i);
            says_in_concatenation(
                "I don't currently have access to grant the following roles. Please check bot permissions."@,
                role_bullets(sorted),
                "<@&"@ + decimal(role_id as nat) + ">"@,
            );
        }
    }
}

/// A message may be a private one exactly when it is in no guild, ordinary or a reply, and nothing sets it apart.
pub proof fn ordinary_messages_may_be_private(
    guild_id: Option<u64>,
    kind: Option<MessageKind>,
    flags: Option<MessageFlags>,
    r: bool,
)
    requires
        call_ensures(may_be_private, (guild_id, kind, flags), r),
    ensures
        guild_id is Some ==> !r,
        kind is None || kind == Some(MessageKind::Other) ==> !r,
        guild_id is None && flags is None ==> (r <==> kind == Some(MessageKind::Regular) || kind == Some(
            MessageKind::InlineReply,
        )),
        flags matches Some(f) ==> (f.crosspost || f.voice_message || f.ephemeral || f.loading || f.urgent ==> !r),
        flags matches Some(f) ==> (!f.crosspost && !f.voice_message && !f.ephemeral && !f.loading && !f.urgent
            && guild_id is None ==> (r <==> kind == Some(MessageKind::Regular) || kind == Some(
            MessageKind::InlineReply,
        ))),
{
}

/// A failure that may not come again is retried after 0.3, 3 and 10 seconds, and then no more. Anything else is final.
pub proof fn failures_are_retried(attempts: &mut RetryThrice, succeeded: bool, deterministic: bool, r: RetryCheck)
    requires
        call_ensures(RetryThrice::after_attempt, (attempts, succeeded, deterministic), r),
    ensures
        succeeded || deterministic ==> r is DoNotRetry,
        !succeeded && !deterministic && old(attempts).retry_count == 0 ==> r == RetryCheck::RetryAfter(300),
        !succeeded && !deterministic && old(attempts).retry_count == 1 ==> r == RetryCheck::RetryAfter(3_000),
        !succeeded && !deterministic && old(attempts).retry_count == 2 ==> r == RetryCheck::RetryAfter(10_000),
        old(attempts).retry_count >= 3 ==> r is DoNotRetry,
        r is RetryAfter ==> final(attempts).retry_count == old(attempts).retry_count + 1,
        r is DoNotRetry ==> final(attempts).retry_count == old(attempts).retry_count,
{
}

} // verus!
