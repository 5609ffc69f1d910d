//! What is said of licenses, and who has activated them

use super::texts::{
    ends_with, last_characters_tell_ends_apart, mentions_user, says, says_in_concatenation, says_is_transitive,
    says_its_parts,
};
use crate::bot::commands::licenses::{
    activator_lines, find_lock, is_lock, last_named_version, license_info, license_line, license_lines, lock_ids, locks,
    looked_up_version, lookups, products_requiring_lookup, user_info, validity_text, KnownLicense, StoreProduct,
};
use crate::bot::message::{user_mention, Embed};
use crate::bot::util::{ascending, number_order};
use crate::http::jinxxy::{activation_user_id, LicenseActivation, LicenseInfo, ProductVersion};
use crate::text::decimal;
use vstd::prelude::*;

verus! {

/// Putting numbers in order neither loses one nor adds one.
pub proof fn ascending_keeps_numbers(numbers: Seq<u64>)
    ensures
        ascending(numbers).len() == numbers.len(),
        ascending(numbers).to_multiset() == numbers.to_multiset(),
        forall|n: u64| #[trigger] ascending(numbers).contains(n) <==> numbers.contains(n),
        forall|i: int, j: int| 0 <= i < j < numbers.len() ==> ascending(numbers)[i] <= ascending(numbers)[j],
{
    let sorted = ascending(numbers);
    numbers.lemma_sort_by_ensures(number_order());
    numbers.to_multiset_ensures();
    sorted.to_multiset_ensures();
    assert forall|n: u64| #[trigger] sorted.contains(n) <==> numbers.contains(n) by {
        assert(sorted.contains(n) <==> sorted.to_multiset().count(n) > 0);
        assert(numbers.contains(n) <==> numbers.to_multiset().count(n) > 0);
    }
    assert forall|i: int, j: int| 0 <= i < j < numbers.len() implies sorted[i] <= sorted[j] by {
        assert(number_order()(sorted[i], sorted[j]));
    }
}

/// How an activator of a license is shown. The user 0 is the lock.
pub open spec fn shows_activator(text: Seq<char>, user_id: u64) -> bool {
    if user_id == 0 {
        says(text, "**LOCKED**"@)
    } else {
        mentions_user(text, user_id)
    }
}

proof fn shown_in_concatenation(a: Seq<char>, b: Seq<char>, user_id: u64)
    requires
        shows_activator(a, user_id) || shows_activator(b, user_id),
    ensures
        shows_activator(a + b, user_id),
{
    if user_id == 0 {
        says_in_concatenation(a, b, "**LOCKED**"@);
    } else {
        says_in_concatenation(a, b, "<@"@ + decimal(user_id as nat) + ">"@);
    }
}

proof fn activator_lines_show_each(user_ids: Seq<u64>, i: int)
    requires
        0 <= i < user_ids.len(),
    ensures
        shows_activator(activator_lines(user_ids), user_ids[i]),
    decreases user_ids.len(),
{
    let others = activator_lines(user_ids.drop_last());
    let last = user_ids.last();
    if i < user_ids.len() - 1 {
        activator_lines_show_each(user_ids.drop_last(), i);
        if last == 0 {
            shown_in_concatenation(others, "\n- **LOCKED** (prevents further use)"@, user_ids[i]);
        } else {
            shown_in_concatenation(others, "\n- "@, user_ids[i]);
            shown_in_concatenation(others + "\n- "@, user_mention(last), user_ids[i]);
        }
    } else if last == 0 {
        let line = "\n- **LOCKED** (prevents further use)"@;
        reveal_strlit("\n- **LOCKED** (prevents further use)");
        reveal_strlit("**LOCKED**");
        assert(line.subrange(3, 3int + "**LOCKED**"@.len()) =~= "**LOCKED**"@);
        says_in_concatenation(others, line, "**LOCKED**"@);
    } else {
        says_its_parts(others + "\n- "@, user_mention(last));
    }
}

/// The last character of the list of activators.
proof fn activator_lines_end(user_ids: Seq<u64>)
    requires
        user_ids.len() > 0,
    ensures
        activator_lines(user_ids).len() > 0,
        activator_lines(user_ids).last() == ')' || activator_lines(user_ids).last() == '>',
{
    reveal_strlit("\n- **LOCKED** (prevents further use)");
    reveal_strlit(">");
}

/// Everybody who has activated a license is shown, whether the license still exists or not.
pub proof fn every_activator_is_shown(
    license: &str,
    info: Option<&LicenseInfo>,
    local_users: Vec<u64>,
    remote_users: Vec<u64>,
    r: (Embed, Option<Embed>),
    user_id: u64,
)
    requires
        call_ensures(license_info, (license, info, local_users, remote_users), r),
        remote_users@.contains(user_id),
    ensures
        shows_activator(r.0.description@, user_id),
{
    let users = ascending(remote_users@);
    ascending_keeps_numbers(remote_users@);
    assert(users.contains(user_id));
    let i = choose|i: int| 0 <= i < users.len() && users[i] == user_id;
    activator_lines_show_each(users, i);
    assert(users.len() > 0);
    match info {
        Some(info) => {
            shown_in_concatenation(validity_text(*info) + "\n\nRegistered users:"@, activator_lines(users), user_id);
        },
        None => {
            let start = "License `"@ + license@ + "` not found, but somehow has users:"@;
            shown_in_concatenation(start, activator_lines(users), user_id);
            shown_in_concatenation(
                start + activator_lines(users),
                "\nThis may indicate that the license has been revoked on the Jinxxy side."@,
                user_id,
            );
        },
    }
    assert(r.0.description@ == r.0@.description);
}

/// It is said of a license that it has no registered users exactly when nobody has activated it.
pub proof fn no_users_means_no_users(
    license: &str,
    info: &LicenseInfo,
    local_users: Vec<u64>,
    remote_users: Vec<u64>,
    r: (Embed, Option<Embed>),
)
    requires
        call_ensures(license_info, (license, Some(info), local_users, remote_users), r),
    ensures
        ends_with(r.0.description@, "No registered users."@) <==> remote_users@.len() == 0,
{
    let users = ascending(remote_users@);
    let text = r.0.description@;
    let end = "No registered users."@;
    ascending_keeps_numbers(remote_users@);
    assert(text == r.0@.description);
    reveal_strlit("No registered users.");
    reveal_strlit("\n\nNo registered users.");
    if remote_users@.len() == 0 {
        assert(text.skip(text.len() - end.len()) =~= end);
    } else {
        activator_lines_end(users);
        assert(text.last() == activator_lines(users).last());
        last_characters_tell_ends_apart(text, end);
    }
}

/// A license that exists is shown with its ID, its keys and its product. One that does not is shown as given, and it is
/// an error.
pub proof fn the_license_is_shown(
    license: &str,
    info: Option<&LicenseInfo>,
    local_users: Vec<u64>,
    remote_users: Vec<u64>,
    r: (Embed, Option<Embed>),
)
    requires
        call_ensures(license_info, (license, info, local_users, remote_users), r),
    ensures
        info is Some ==> r.0.title@ == "License Info"@,
        info is None ==> r.0.title@ == "License Info Validation Error"@ && says(r.0.description@, license@),
        info matches Some(info) ==> says(r.0.description@, info.license_id@) && says(
            r.0.description@,
            info.short_key@,
        ) && says(r.0.description@, info.key@) && says(r.0.description@, info.product_name@),
        info matches Some(info) ==> (info.product_version_info matches Some(version) ==> says(
            r.0.description@,
            version.product_version_name@,
        )),
{
    let text = r.0.description@;
    let users = ascending(remote_users@);
    assert(text == r.0@.description);
    assert(r.0.title@ == r.0@.title);
    match info {
        Some(info) => {
            let a = "ID: `"@ + info.license_id@;
            let b = a + "`\nShort: `"@ + info.short_key@;
            let c = b + "`\nLong: `"@ + info.key@;
            let d = c + "`\nValid for "@ + info.product_name@;
            let version = match info.product_version_info {
                Some(version) => version.product_version_name@,
                None => "`null`"@,
            };
            let e = d + " "@ + version;
            says_its_parts("ID: `"@, info.license_id@);
            says_its_parts(a + "`\nShort: `"@, info.short_key@);
            says_its_parts(b + "`\nLong: `"@, info.key@);
            says_its_parts(c + "`\nValid for "@, info.product_name@);
            says_its_parts(d + " "@, version);
            says_its_parts(d, " "@);
            says_its_parts(c, "`\nValid for "@);
            says_its_parts(b, "`\nLong: `"@);
            says_its_parts(a, "`\nShort: `"@);
            says_is_transitive(e, d + " "@, d);
            says_is_transitive(d, c + "`\nValid for "@, c);
            says_is_transitive(c, b + "`\nLong: `"@, b);
            says_is_transitive(b, a + "`\nShort: `"@, a);
            says_is_transitive(e, d, c);
            says_is_transitive(e, c, b);
            says_is_transitive(e, b, a);
            says_is_transitive(e, d, info.product_name@);
            says_is_transitive(e, c, info.key@);
            says_is_transitive(e, b, info.short_key@);
            says_is_transitive(e, a, info.license_id@);
            assert(e == validity_text(*info));
            says_its_parts(e, "\n\nNo registered users."@);
            says_its_parts(e, "\n\nRegistered users:"@);
            says_its_parts(e + "\n\nRegistered users:"@, activator_lines(users));
            if users.len() > 0 {
                says_is_transitive(text, e + "\n\nRegistered users:"@, e);
            }
            says_is_transitive(text, e, info.license_id@);
            says_is_transitive(text, e, info.short_key@);
            says_is_transitive(text, e, info.key@);
            says_is_transitive(text, e, info.product_name@);
            says_is_transitive(text, e, version);
        },
        None => {
            let a = "License `"@ + license@;
            let end = " not found: please verify that the key is correct and belongs to the Jinxxy account linked to this Discord server.`"@;
            let b = a + "` not found, but somehow has users:"@;
            let c = b + activator_lines(users);
            let d = "\nThis may indicate that the license has been revoked on the Jinxxy side."@;
            says_its_parts("License `"@, license@);
            says_in_concatenation(a, end, license@);
            says_in_concatenation(a, "` not found, but somehow has users:"@, license@);
            says_in_concatenation(b, activator_lines(users), license@);
            says_in_concatenation(c, d, license@);
        },
    }
}

/// There is a warning exactly when the database and Jinxxy do not know of the same activators, in whatever order.
pub proof fn mismatches_are_warned_about(
    license: &str,
    info: Option<&LicenseInfo>,
    local_users: Vec<u64>,
    remote_users: Vec<u64>,
    r: (Embed, Option<Embed>),
)
    requires
        call_ensures(license_info, (license, info, local_users, remote_users), r),
    ensures
        r.1 is Some <==> local_users@.to_multiset() != remote_users@.to_multiset(),
{
    let a = ascending(local_users@);
    let b = ascending(remote_users@);
    ascending_keeps_numbers(local_users@);
    ascending_keeps_numbers(remote_users@);
    if local_users@.to_multiset() == remote_users@.to_multiset() {
        local_users@.lemma_sort_by_ensures(number_order());
        remote_users@.lemma_sort_by_ensures(number_order());
        vstd::seq_lib::lemma_sorted_unique(a, b, number_order());
    }
}

/// The text of a license in a list says what is known of it: its key, store, customer and product, and whether it is
/// locked. Of a license without data it says the ID.
proof fn license_line_says(license: KnownLicense, products: Seq<StoreProduct>)
    ensures
        license.license_info is None ==> says(license_line(license, products), license.license.license_id@) && says(
            license_line(license, products),
            license.license.jinxxy_user_id@,
        ),
        license.license_info matches Some(info) ==> says(license_line(license, products), info.short_key@) && says(
            license_line(license, products),
            license.store_text@,
        ) && says(license_line(license, products), license.user_text@) && says(
            license_line(license, products),
            info.product_name@,
        ) && says(
            license_line(license, products),
            if license.locked {
                " locked="@ + "true"@
            } else {
                " locked="@ + "false"@
            },
        ),
{
    let line = license_line(license, products);
    match license.license_info {
        None => {
            let a = "\n- store=`"@ + license.license.jinxxy_user_id@;
            let b = a + "` id=`"@ + license.license.license_id@;
            says_its_parts("\n- store=`"@, license.license.jinxxy_user_id@);
            says_its_parts(a + "` id=`"@, license.license.license_id@);
            says_in_concatenation(a, "` id=`"@, license.license.jinxxy_user_id@);
            says_in_concatenation(a + "` id=`"@, license.license.license_id@, license.license.jinxxy_user_id@);
            says_in_concatenation(b, "` (no data found)"@, license.license.jinxxy_user_id@);
            says_in_concatenation(b, "` (no data found)"@, license.license.license_id@);
        },
        Some(info) => {
            let n = decimal(info.activations as nat);
            let locked = if license.locked {
                "true"@
            } else {
                "false"@
            };
            let l = " locked="@ + locked;
            let a = "\n- `"@ + info.short_key@;
            let b = a + "` store="@;
            let c = b + license.store_text@;
            let d = c + " activations="@;
            let e = d + n;
            let f = e + " locked="@;
            let g = f + locked;
            let h = g + " user="@;
            let i = h + license.user_text@;
            let j = i + " product=\""@;
            let k = j + info.product_name@;
            let m = k + "\" version="@;
            let v = crate::bot::commands::licenses::version_text(license, products);
            assert(line == m + v);
            says_its_parts("\n- `"@, info.short_key@);
            says_in_concatenation(a, "` store="@, info.short_key@);
            says_in_concatenation(b, license.store_text@, info.short_key@);
            says_its_parts(b, license.store_text@);
            says_its_parts(c, " activations="@);
            says_its_parts(d, n);
            says_is_transitive(e, d, c);
            assert(g =~= e + l);
            says_its_parts(e, l);
            says_is_transitive(g, e, c);
            says_its_parts(g, " user="@);
            says_its_parts(h, license.user_text@);
            says_is_transitive(i, h, g);
            says_its_parts(i, " product=\""@);
            says_its_parts(j, info.product_name@);
            says_is_transitive(k, j, i);
            says_its_parts(k, "\" version="@);
            says_its_parts(m, v);
            says_is_transitive(line, m, k);
            says_is_transitive(line, k, info.product_name@);
            says_is_transitive(line, k, i);
            says_is_transitive(line, i, license.user_text@);
            says_is_transitive(line, i, g);
            says_is_transitive(line, g, l);
            says_is_transitive(line, g, c);
            says_is_transitive(line, c, license.store_text@);
            says_is_transitive(line, c, info.short_key@);
        },
    }
}

proof fn license_lines_say_each(licenses: Seq<KnownLicense>, products: Seq<StoreProduct>, i: int)
    requires
        0 <= i < licenses.len(),
    ensures
        says(license_lines(licenses, products), license_line(licenses[i], products)),
    decreases licenses.len(),
{
    let before = license_lines(licenses.drop_last(), products);
    let last = license_line(licenses.last(), products);
    if i == licenses.len() - 1 {
        says_its_parts(before, last);
    } else {
        license_lines_say_each(licenses.drop_last(), products, i);
        says_in_concatenation(before, last, license_line(licenses[i], products));
    }
}

/// Every license of a user is shown: one that Jinxxy knows of with its key, store, customer and product and whether it
/// is locked, and any other one by its ID.
pub proof fn every_license_is_shown(
    user_id: u64,
    licenses: &[KnownLicense],
    products: &[StoreProduct],
    r: Embed,
    i: int,
)
    requires
        call_ensures(user_info, (user_id, licenses, products), r),
        0 <= i < licenses@.len(),
    ensures
        mentions_user(r.description@, user_id),
        licenses@[i].license_info is None ==> says(r.description@, licenses@[i].license.license_id@) && says(
            r.description@,
            licenses@[i].license.jinxxy_user_id@,
        ),
        licenses@[i].license_info matches Some(info) ==> says(r.description@, info.short_key@) && says(
            r.description@,
            licenses@[i].store_text@,
        ) && says(r.description@, licenses@[i].user_text@) && says(r.description@, info.product_name@) && says(
            r.description@,
            if licenses@[i].locked {
                " locked="@ + "true"@
            } else {
                " locked="@ + "false"@
            },
        ),
{
    let text = r.description@;
    let lines = license_lines(licenses@, products@);
    let line = license_line(licenses@[i], products@);
    let start = "Licenses for "@ + user_mention(user_id);
    assert(text == r@.description);
    says_its_parts("Licenses for "@, user_mention(user_id));
    says_in_concatenation(start, ":"@, user_mention(user_id));
    says_in_concatenation(start + ":"@, lines, user_mention(user_id));
    license_lines_say_each(licenses@, products@, i);
    license_line_says(licenses@[i], products@);
    says_in_concatenation(start + ":"@, lines, line);
    match licenses@[i].license_info {
        None => {
            says_is_transitive(text, line, licenses@[i].license.license_id@);
            says_is_transitive(text, line, licenses@[i].license.jinxxy_user_id@);
        },
        Some(info) => {
            says_is_transitive(text, line, info.short_key@);
            says_is_transitive(text, line, licenses@[i].store_text@);
            says_is_transitive(text, line, licenses@[i].user_text@);
            says_is_transitive(text, line, info.product_name@);
            says_is_transitive(
                text,
                line,
                if licenses@[i].locked {
                    " locked="@ + "true"@
                } else {
                    " locked="@ + "false"@
                },
            );
        },
    }
}

/// It is said of a user that there are no license activations if there are none.
pub proof fn no_licenses_means_no_licenses(user_id: u64, licenses: &[KnownLicense], products: &[StoreProduct], r: Embed)
    requires
        call_ensures(user_info, (user_id, licenses, products), r),
        licenses@.len() == 0,
    ensures
        mentions_user(r.description@, user_id),
        ends_with(r.description@, " has no license activations."@),
{
    assert(r.description@ == r@.description);
    says_its_parts(user_mention(user_id), " has no license activations."@);
}

/// Whether two licenses are for the same product of the same store.
pub open spec fn for_same_product(a: KnownLicense, b: KnownLicense) -> bool {
    a.license.jinxxy_user_id@ == b.license.jinxxy_user_id@ && a.license_info->0.product_id@
        == b.license_info->0.product_id@
}

proof fn lookups_cover(licenses: Seq<KnownLicense>, i: int)
    requires
        licenses.len() <= usize::MAX,
    ensures
        forall|k: int| 0 <= k < lookups(licenses).len() ==> (#[trigger] lookups(licenses)[k]) < licenses.len(),
        forall|k: int, l: int|
            0 <= k < l < lookups(licenses).len() ==> #[trigger] lookups(licenses)[k] < #[trigger] lookups(licenses)[l],
        forall|k: int|
            0 <= k < lookups(licenses).len() ==> licenses[(#[trigger] lookups(licenses)[k]) as int].license_info is Some
                && licenses[lookups(licenses)[k] as int].license_info->0.product_version_info is Some,
        0 <= i < licenses.len() && licenses[i].license_info is Some
            && licenses[i].license_info->0.product_version_info is Some ==> exists|k: int|
            0 <= k < lookups(licenses).len() && for_same_product(
                licenses[(#[trigger] lookups(licenses)[k]) as int],
                licenses[i],
            ),
    decreases licenses.len(),
{
    if licenses.len() > 0 {
        let init = licenses.drop_last();
        let last = licenses.last();
        let before = lookups(init);
        let all = lookups(licenses);
        let position = licenses.len() - 1;
        lookups_cover(init, i);
        assert forall|k: int| 0 <= k < before.len() implies #[trigger] before[k] == all[k] by {}
        assert forall|k: int| 0 <= k < init.len() implies #[trigger] init[k] == licenses[k] by {}
        if 0 <= i < licenses.len() && licenses[i].license_info is Some
            && licenses[i].license_info->0.product_version_info is Some {
            if i < position {
                let k = choose|k: int|
                    0 <= k < before.len() && for_same_product(init[(#[trigger] before[k]) as int], init[i]);
                assert(for_same_product(licenses[all[k] as int], licenses[i]));
            } else if all.len() > before.len() {
                assert(for_same_product(licenses[all[before.len() as int] as int], licenses[i]));
            } else {
                let j = choose|j: int|
                    0 <= j < position && crate::bot::commands::licenses::wants_product(
                        #[trigger] licenses[j],
                        last.license.jinxxy_user_id@,
                        last.license_info->0.product_id@,
                    );
                lookups_cover(init, j);
                let k = choose|k: int|
                    0 <= k < before.len() && for_same_product(init[(#[trigger] before[k]) as int], init[j]);
                assert(for_same_product(licenses[all[k] as int], licenses[i]));
            }
        }
    }
}

/// The product of every license for a version is looked up, and of no other: there is a position for each, in order.
pub proof fn every_version_can_be_named(licenses: &[KnownLicense], positions: Vec<usize>, i: int)
    requires
        call_ensures(products_requiring_lookup, (licenses,), positions),
        licenses@.len() <= usize::MAX,
    ensures
        forall|k: int| 0 <= k < positions@.len() ==> (#[trigger] positions@[k]) < licenses@.len(),
        forall|k: int, l: int| 0 <= k < l < positions@.len() ==> #[trigger] positions@[k] < #[trigger] positions@[l],
        forall|k: int|
            0 <= k < positions@.len() ==> licenses@[(#[trigger] positions@[k]) as int].license_info is Some
                && licenses@[positions@[k] as int].license_info->0.product_version_info is Some,
        0 <= i < licenses@.len() && licenses@[i].license_info is Some
            && licenses@[i].license_info->0.product_version_info is Some ==> exists|k: int|
            0 <= k < positions@.len() && for_same_product(licenses@[(#[trigger] positions@[k]) as int], licenses@[i]),
{
    lookups_cover(licenses@, i);
}

proof fn locks_are_those(activations: Seq<LicenseActivation>, id: String)
    ensures
        locks(activations).contains(id) <==> exists|i: int|
            0 <= i < activations.len() && (#[trigger] activations[i]).id == id && activation_user_id(
                activations[i].description@,
            ) == Some(0u64),
    decreases activations.len(),
{
    if activations.len() > 0 {
        let init = activations.drop_last();
        let before = locks(init);
        let all = locks(activations);
        locks_are_those(init, id);
        assert forall|i: int| 0 <= i < init.len() implies #[trigger] init[i] == activations[i] by {}
        if all.contains(id) {
            let k = choose|k: int| 0 <= k < all.len() && all[k] == id;
            if k < before.len() {
                assert(before[k] == id);
                let i = choose|i: int|
                    0 <= i < init.len() && (#[trigger] init[i]).id == id && activation_user_id(init[i].description@)
                        == Some(0u64);
                assert(activations[i].id == id);
            } else {
                assert(activations[activations.len() - 1].id == id);
            }
        }
        if exists|i: int|
            0 <= i < activations.len() && (#[trigger] activations[i]).id == id && activation_user_id(
                activations[i].description@,
            ) == Some(0u64) {
            let i = choose|i: int|
                0 <= i < activations.len() && (#[trigger] activations[i]).id == id && activation_user_id(
                    activations[i].description@,
                ) == Some(0u64);
            if i < init.len() {
                assert(init[i].id == id);
                let k = choose|k: int| 0 <= k < before.len() && before[k] == id;
                assert(all[k] == id);
            } else {
                assert(all[before.len() as int] == id);
            }
        }
    }
}

/// A license is unlocked by deleting its locks, and nothing else: an ID is listed exactly when it is that of an
/// activation by the user 0.
pub proof fn locks_are_deleted(activations: &[LicenseActivation], ids: Vec<String>, id: String)
    requires
        call_ensures(lock_ids, (activations,), ids),
    ensures
        ids@.contains(id) <==> exists|i: int|
            0 <= i < activations@.len() && (#[trigger] activations@[i]).id == id && activation_user_id(
                activations@[i].description@,
            ) == Some(0u64),
{
    locks_are_those(activations@, id);
}

/// A license has a lock exactly when one is found, and the first one is found.
pub proof fn a_lock_is_found(activations: &[LicenseActivation], position: Option<usize>)
    requires
        call_ensures(find_lock, (activations,), position),
    ensures
        position is Some <==> exists|i: int|
            0 <= i < activations@.len() && activation_user_id((#[trigger] activations@[i]).description@) == Some(0u64),
        position matches Some(p) ==> p < activations@.len() && activation_user_id(activations@[p as int].description@)
            == Some(0u64),
        position matches Some(p) ==> forall|i: int|
            0 <= i < p ==> activation_user_id((#[trigger] activations@[i]).description@) != Some(0u64),
{
    let all = activations@;
    assert forall|i: int| 0 <= i < all.len() implies (is_lock(#[trigger] all[i]) <==> activation_user_id(
        all[i].description@,
    ) == Some(0u64)) by {}
    match position {
        Some(p) => {
            assert(is_lock(all[p as int]));
            assert(activation_user_id(all[p as int].description@) == Some(0u64));
            assert forall|i: int| 0 <= i < p implies activation_user_id((#[trigger] all[i]).description@) != Some(
                0u64,
            ) by {
                assert(!is_lock(all[i]));
            }
        },
        None => {
            assert forall|i: int| 0 <= i < all.len() implies activation_user_id((#[trigger] all[i]).description@)
                != Some(0u64) by {
                assert(!is_lock(all[i]));
            }
        },
    }
}

/// Whether a product that was looked up is that of a license.
pub open spec fn is_product_of(product: StoreProduct, license: KnownLicense) -> bool {
    product.jinxxy_user_id@ == license.license.jinxxy_user_id@ && product.product.id@
        == license.license_info->0.product_id@
}

proof fn last_named_version_is_named(versions: Seq<ProductVersion>, id: Seq<char>)
    ensures
        last_named_version(versions, id) is Some <==> exists|i: int|
            0 <= i < versions.len() && (#[trigger] versions[i]).id@ == id,
        last_named_version(versions, id) matches Some(name) ==> exists|i: int|
            0 <= i < versions.len() && (#[trigger] versions[i]).id@ == id && versions[i].name@ == name,
    decreases versions.len(),
{
    if versions.len() > 0 {
        let init = versions.drop_last();
        last_named_version_is_named(init, id);
        assert forall|i: int| 0 <= i < init.len() implies #[trigger] init[i] == versions[i] by {}
        assert(versions[versions.len() - 1] == versions.last());
        if versions.last().id@ != id && last_named_version(init, id) is Some {
            let name = last_named_version(init, id)->0;
            let i = choose|i: int| 0 <= i < init.len() && (#[trigger] init[i]).id@ == id && init[i].name@ == name;
            assert(versions[i].id@ == id);
        }
        if exists|i: int| 0 <= i < versions.len() && (#[trigger] versions[i]).id@ == id {
            let i = choose|i: int| 0 <= i < versions.len() && (#[trigger] versions[i]).id@ == id;
            if i < init.len() {
                assert(init[i].id@ == id);
            }
        }
    }
}

proof fn looked_up_version_is_named(products: Seq<StoreProduct>, store: Seq<char>, product_id: Seq<char>, id: Seq<char>)
    ensures
        looked_up_version(products, store, product_id, id) is Some <==> exists|p: int, v: int|
            0 <= p < products.len() && products[p].jinxxy_user_id@ == store
                && products[p].product.id@ == product_id && 0
                <= v < products[p].product.versions@.len() && (#[trigger] products[p].product.versions@[v]).id@ == id,
        looked_up_version(products, store, product_id, id) matches Some(name) ==> exists|p: int, v: int|
            0 <= p < products.len() && products[p].jinxxy_user_id@ == store
                && products[p].product.id@ == product_id && 0
                <= v < products[p].product.versions@.len() && (#[trigger] products[p].product.versions@[v]).id@ == id
                && products[p].product.versions@[v].name@ == name,
    decreases products.len(),
{
    if products.len() > 0 {
        let init = products.drop_last();
        let n = products.len() - 1;
        let last = products.last();
        assert(products[n] == last);
        assert forall|p: int| 0 <= p < init.len() implies #[trigger] init[p] == products[p] by {}
        looked_up_version_is_named(init, store, product_id, id);
        last_named_version_is_named(last.product.versions@, id);
        let found = last_named_version(last.product.versions@, id);
        if last.jinxxy_user_id@ == store && last.product.id@ == product_id && found is Some {
            let v = choose|v: int|
                0 <= v < last.product.versions@.len() && (#[trigger] last.product.versions@[v]).id@ == id
                    && last.product.versions@[v].name@ == found->0;
            assert(products[n].product.versions@[v].id@ == id);
        } else {
            if looked_up_version(init, store, product_id, id) is Some {
                let name = looked_up_version(init, store, product_id, id)->0;
                let (p, v) = choose|p: int, v: int|
                    0 <= p < init.len() && init[p].jinxxy_user_id@ == store && init[p].product.id@ == product_id
                        && 0 <= v
                        < init[p].product.versions@.len() && (#[trigger] init[p].product.versions@[v]).id@ == id
                        && init[p].product.versions@[v].name@ == name;
                assert(init[p] == products[p]);
                assert(products[p].product.versions@[v].id@ == id);
            }
            if exists|p: int, v: int|
                0 <= p < products.len() && products[p].jinxxy_user_id@ == store && products[p].product.id@ == product_id
                    && 0 <= v < products[p].product.versions@.len() && (
                #[trigger] products[p].product.versions@[v]).id@ == id {
                let (p, v) = choose|p: int, v: int|
                    0 <= p < products.len() && products[p].jinxxy_user_id@ == store && products[p].product.id@
                        == product_id && 0 <= v < products[p].product.versions@.len() && (
                    #[trigger] products[p].product.versions@[v]).id@ == id;
                if p < n {
                    assert(init[p] == products[p]);
                    assert(init[p].product.versions@[v].id@ == id);
                } else {
                    assert(last.product.versions@[v].id@ == id);
                }
            }
        }
    }
}

/// The version of a license is shown by the name that its product has for it, if the product was looked up and has one.
/// A version without a name is shown as an error, and a license without a version as having none.
pub proof fn versions_are_shown_by_name(
    user_id: u64,
    licenses: &[KnownLicense],
    products: &[StoreProduct],
    r: Embed,
    i: int,
)
    requires
        call_ensures(user_info, (user_id, licenses, products), r),
        0 <= i < licenses@.len(),
        licenses@[i].license_info is Some,
    ensures
        licenses@[i].license_info->0.product_version_info is None ==> says(r.description@, " version="@ + "`null`"@),
        licenses@[i].license_info->0.product_version_info matches Some(version) ==> {
            let id = version.product_version_id@;
            &&& (forall|p: int, v: int|
                0 <= p < products@.len() && is_product_of(products@[p], licenses@[i]) && 0 <= v
                    < products@[p].product.versions@.len() ==> (
                #[trigger] products@[p].product.versions@[v]).id@ != id) ==> says(
                r.description@,
                " version="@ + "`ERROR`"@,
            )
            &&& (exists|p: int, v: int|
                0 <= p < products@.len() && is_product_of(products@[p], licenses@[i]) && 0 <= v
                    < products@[p].product.versions@.len() && (
                #[trigger] products@[p].product.versions@[v]).id@ == id) ==> exists|p: int, v: int|
                0 <= p < products@.len() && is_product_of(products@[p], licenses@[i]) && 0 <= v
                    < products@[p].product.versions@.len() && (
                #[trigger] products@[p].product.versions@[v]).id@ == id && says(
                    r.description@,
                    " version="@ + products@[p].product.versions@[v].name@,
                )
        },
{
    let text = r.description@;
    assert(text == r@.description);
    let lines = license_lines(licenses@, products@);
    let license = licenses@[i];
    let info = license.license_info->0;
    let line = license_line(license, products@);
    let start = "Licenses for "@ + user_mention(user_id) + ":"@;
    license_lines_say_each(licenses@, products@, i);
    says_in_concatenation(start, lines, line);
    let shown = crate::bot::commands::licenses::version_text(license, products@);
    line_ends_with_version(license, products@);
    says_is_transitive(text, line, " version="@ + shown);
    if let Some(version) = info.product_version_info {
        let store = license.license.jinxxy_user_id@;
        let id = version.product_version_id@;
        looked_up_version_is_named(products@, store, info.product_id@, id);
        if looked_up_version(products@, store, info.product_id@, id) is Some {
            let name = looked_up_version(products@, store, info.product_id@, id)->0;
            let (p, v) = choose|p: int, v: int|
                0 <= p < products@.len() && products@[p].jinxxy_user_id@ == store && products@[p].product.id@
                    == info.product_id@ && 0 <= v < products@[p].product.versions@.len() && (
                #[trigger] products@[p].product.versions@[v]).id@ == id && products@[p].product.versions@[v].name@
                    == name;
            assert(is_product_of(products@[p], license));
        }
    }
}

proof fn line_ends_with_version(license: KnownLicense, products: Seq<StoreProduct>)
    requires
        license.license_info is Some,
    ensures
        says(
            license_line(license, products),
            " version="@ + crate::bot::commands::licenses::version_text(license, products),
        ),
{
    let line = license_line(license, products);
    let v = crate::bot::commands::licenses::version_text(license, products);
    let n = line.len() - v.len();
    let before = line.take(n);
    reveal_strlit("\" version=");
    reveal_strlit(" version=");
    let part = " version="@ + v;
    assert(line.take(n) + v =~= line);
    assert(line.subrange(n - " version="@.len(), n - " version="@.len() + part.len()) =~= part);
}

proof fn ascending_of_push(numbers: Seq<u64>, number: u64)
    requires
        forall|i: int| 0 <= i < numbers.len() ==> #[trigger] numbers[i] <= number,
    ensures
        ascending(numbers.push(number)) == ascending(numbers).push(number),
{
    let more = numbers.push(number);
    let sorted = ascending(numbers);
    let expected = sorted.push(number);
    ascending_keeps_numbers(numbers);
    more.lemma_sort_by_ensures(number_order());
    numbers.lemma_sort_by_ensures(number_order());
    numbers.to_multiset_ensures();
    sorted.to_multiset_ensures();
    assert(expected.to_multiset() == more.to_multiset());
    assert forall|i: int, j: int| 0 <= i < j < expected.len() implies number_order()(
        #[trigger] expected[i],
        #[trigger] expected[j],
    ) by {
        if j < sorted.len() {
            assert(sorted[i] <= sorted[j]);
        } else {
            assert(sorted.contains(sorted[i]));
            assert(numbers.contains(sorted[i]));
            let k = choose|k: int| 0 <= k < numbers.len() && numbers[k] == sorted[i];
            assert(numbers[k] <= number);
        }
    }
    assert(vstd::relations::sorted_by(expected, number_order()));
    vstd::seq_lib::lemma_sorted_unique(ascending(more), expected, number_order());
}

/// One more activator of a license is one more line, and nothing else, in ascending order of their IDs. The first one
/// is announced.
pub proof fn activators_are_shown_one_by_one(
    license: &str,
    info: &LicenseInfo,
    local_users: Vec<u64>,
    remote_users: Vec<u64>,
    more_users: Vec<u64>,
    user_id: u64,
    r: (Embed, Option<Embed>),
    more: (Embed, Option<Embed>),
)
    requires
        more_users@ == remote_users@.push(user_id),
        forall|i: int| 0 <= i < remote_users@.len() ==> #[trigger] remote_users@[i] <= user_id,
        call_ensures(license_info, (license, Some(info), local_users, remote_users), r),
        call_ensures(license_info, (license, Some(info), local_users, more_users), more),
    ensures
        remote_users@.len() > 0 && user_id != 0 ==> more.0.description@ == r.0.description@ + ("\n- "@ + ("<@"@
            + decimal(user_id as nat) + ">"@)),
        remote_users@.len() == 0 && user_id != 0 ==> ends_with(
            more.0.description@,
            "\n\nRegistered users:"@ + ("\n- "@ + ("<@"@ + decimal(user_id as nat) + ">"@)),
        ),
{
    let a = ascending(remote_users@);
    let b = ascending(more_users@);
    ascending_of_push(remote_users@, user_id);
    ascending_keeps_numbers(remote_users@);
    assert(b.drop_last() =~= a);
    assert(r.0.description@ == r.0@.description);
    assert(more.0.description@ == more.0@.description);
    if user_id != 0 {
        let line = "\n- "@ + user_mention(user_id);
        assert(activator_lines(b) =~= activator_lines(a) + line);
        let start = validity_text(*info) + "\n\nRegistered users:"@;
        assert(more.0.description@ == start + activator_lines(b));
        if remote_users@.len() > 0 {
            assert(r.0.description@ == start + activator_lines(a));
            assert(more.0.description@ =~= r.0.description@ + line);
        } else {
            assert(activator_lines(a) =~= Seq::<char>::empty());
            assert(more.0.description@ =~= validity_text(*info) + ("\n\nRegistered users:"@ + line));
            says_its_parts(validity_text(*info), "\n\nRegistered users:"@ + line);
        }
    }
}

/// One more license is one more line, and nothing else.
pub proof fn licenses_are_shown_one_by_one(
    user_id: u64,
    licenses: &[KnownLicense],
    more_licenses: &[KnownLicense],
    license: KnownLicense,
    products: &[StoreProduct],
    r: Embed,
    more: Embed,
)
    requires
        licenses@.len() > 0,
        more_licenses@ == licenses@.push(license),
        call_ensures(user_info, (user_id, licenses, products), r),
        call_ensures(user_info, (user_id, more_licenses, products), more),
    ensures
        more.description@ == r.description@ + license_line(license, products@),
{
    assert(more_licenses@.drop_last() =~= licenses@);
    assert(r.description@ == r@.description);
    assert(more.description@ == more@.description);
    assert(more.description@ =~= r.description@ + license_line(license, products@));
}

proof fn lookups_are_of_different_products(licenses: Seq<KnownLicense>, k: int, l: int)
    requires
        licenses.len() <= usize::MAX,
        0 <= k < l < lookups(licenses).len(),
    ensures
        !for_same_product(licenses[lookups(licenses)[k] as int], licenses[lookups(licenses)[l] as int]),
    decreases licenses.len(),
{
    let init = licenses.drop_last();
    let before = lookups(init);
    let all = lookups(licenses);
    lookups_cover(init, 0);
    lookups_cover(licenses, 0);
    assert(all[k] == before[k]);
    assert(before[k] < init.len());
    assert(init[before[k] as int] == licenses[all[k] as int]);
    if l < before.len() {
        lookups_are_of_different_products(init, k, l);
        assert(all[l] == before[l]);
        assert(init[before[l] as int] == licenses[all[l] as int]);
    } else {
        let last = licenses.last();
        assert(licenses[all[l] as int] == last);
        let earlier = licenses[all[k] as int];
        assert(earlier.license_info is Some && earlier.license_info->0.product_version_info is Some);
        assert(!crate::bot::commands::licenses::wants_product(
            licenses[all[k] as int],
            last.license.jinxxy_user_id@,
            last.license_info->0.product_id@,
        ));
    }
}

/// No product is looked up twice.
pub proof fn no_product_is_looked_up_twice(licenses: &[KnownLicense], positions: Vec<usize>, k: int, l: int)
    requires
        call_ensures(products_requiring_lookup, (licenses,), positions),
        licenses@.len() <= usize::MAX,
        0 <= k < l < positions@.len(),
    ensures
        !for_same_product(licenses@[positions@[k] as int], licenses@[positions@[l] as int]),
{
    lookups_are_of_different_products(licenses@, k, l);
}

} // verus!
