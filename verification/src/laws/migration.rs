//! The migration of the database

use crate::db::migration::{
    activation_of, activation_position, all_linked, every_activation_is_migrated_once,
    every_product_is_migrated_once, every_product_role_is_migrated_once, every_product_version_is_migrated_once,
    every_product_version_role_is_migrated_once, every_store_is_migrated_once, has_product, has_product_role,
    has_product_version, has_product_version_role, has_user, latest_cache_time_counts, merged_activation,
    merged_activations,
    merged_product_roles, merged_product_version_roles, merged_product_versions, merged_products, merged_users,
    migrate_guilds, migrate_license_activations, migrate_links, migrate_product_roles,
    migrate_product_version_roles, migrate_product_versions, migrate_products, migrate_users, product_of,
    product_role_of, product_version_of, product_version_role_of, same_activation, same_product,
    same_product_role, same_product_version, same_product_version_role, store_position, stores_of, user_of,
    GuildRow, GuildRowV1, GuildStores, JinxxyUserGuildRow, JinxxyUserRow, LicenseActivationRow,
    LicenseActivationRowV1, ProductRoleRow, ProductRoleRowV1, ProductRow, ProductRowV1, ProductVersionRoleRow,
    ProductVersionRoleRowV1, ProductVersionRow, ProductVersionRowV1,
};
use vstd::prelude::*;

verus! {

/// No setting of a guild is lost: each guild is migrated, with all its settings, and its store is its default store.
pub proof fn guilds_keep_their_settings(guilds: &[GuildRowV1], rows: Vec<GuildRow>, i: int)
    requires
        all_linked(guilds@),
        call_ensures(migrate_guilds, (guilds,), rows),
        0 <= i < guilds@.len(),
    ensures
        rows@.len() == guilds@.len(),
        rows@[i].guild_id == guilds@[i].guild_id,
        rows@[i].log_channel_id == guilds@[i].log_channel_id,
        rows@[i].test == guilds@[i].test,
        rows@[i].owner == guilds@[i].owner,
        rows@[i].gumroad_failure_count == guilds@[i].gumroad_failure_count,
        rows@[i].gumroad_nag_count == guilds@[i].gumroad_nag_count,
        rows@[i].blanket_role_id == guilds@[i].blanket_role_id,
        Some(rows@[i].default_jinxxy_user) == guilds@[i].jinxxy_user_id,
{
}

/// Each guild is linked to its store, with its API key.
pub proof fn guilds_keep_their_stores(guilds: &[GuildRowV1], rows: Vec<JinxxyUserGuildRow>, i: int)
    requires
        all_linked(guilds@),
        call_ensures(migrate_links, (guilds,), rows),
        0 <= i < guilds@.len(),
    ensures
        rows@.len() == guilds@.len(),
        rows@[i].guild_id == guilds@[i].guild_id,
        Some(rows@[i].jinxxy_user_id) == guilds@[i].jinxxy_user_id,
        Some(rows@[i].jinxxy_api_key) == guilds@[i].jinxxy_api_key,
{
}

/// Whether a new row is of the same product as an old one, at the store of its guild.
pub open spec fn is_product(stores: Map<i64, String>, old: ProductRowV1, new: ProductRow) -> bool {
    new.jinxxy_user_id@ == stores[old.guild_id]@ && new.product_id@ == old.product_id@
}

/// Whether a new row has all that is in an old one.
pub open spec fn has_all_of_product(stores: Map<i64, String>, old: ProductRowV1, new: ProductRow) -> bool {
    new.jinxxy_user_id == stores[old.guild_id] && new.product_id == old.product_id
        && new.product_name == old.product_name && new.etag == old.etag
}

/// Whether a new row has all that is in the first of the old rows of the same product.
pub open spec fn comes_from_product(stores: Map<i64, String>, rows: Seq<ProductRowV1>, new: ProductRow) -> bool {
    exists|i: int|
        0 <= i < rows.len() && has_all_of_product(stores, #[trigger] rows[i], new) && forall|k: int|
            0 <= k < i ==> !is_product(stores, #[trigger] rows[k], new)
}

/// Whether some new row is of the same product as an old one.
pub open spec fn product_is_among(stores: Map<i64, String>, old: ProductRowV1, rows: Seq<ProductRow>) -> bool {
    exists|j: int| 0 <= j < rows.len() && is_product(stores, old, #[trigger] rows[j])
}

proof fn merged_products_hold(stores: Map<i64, String>, rows: Seq<ProductRowV1>)
    ensures
        forall|i: int|
            0 <= i < rows.len() ==> product_is_among(stores, #[trigger] rows[i], merged_products(stores, rows)),
        forall|j: int|
            0 <= j < merged_products(stores, rows).len() ==> comes_from_product(
                stores,
                rows,
                #[trigger] merged_products(stores, rows)[j],
            ),
    decreases rows.len(),
{
    if rows.len() > 0 {
        let init = rows.drop_last();
        let old = rows.last();
        let before = merged_products(stores, init);
        let after = merged_products(stores, rows);
        let row = product_of(stores, old);
        merged_products_hold(stores, init);
        assert forall|i: int| 0 <= i < init.len() implies #[trigger] init[i] == rows[i] by {}
        assert forall|j: int| 0 <= j < before.len() implies #[trigger] before[j] == after[j] by {}
        assert forall|i: int| 0 <= i < rows.len() implies product_is_among(stores, #[trigger] rows[i], after) by {
            if i < init.len() {
                assert(product_is_among(stores, init[i], before));
                let j = choose|j: int| 0 <= j < before.len() && is_product(stores, init[i], #[trigger] before[j]);
                assert(is_product(stores, rows[i], after[j]));
            } else if has_product(before, row) {
                let j = choose|j: int| 0 <= j < before.len() && same_product(#[trigger] before[j], row);
                assert(is_product(stores, rows[i], after[j]));
            } else {
                assert(is_product(stores, rows[i], after[before.len() as int]));
            }
        }
        assert forall|j: int| 0 <= j < after.len() implies comes_from_product(stores, rows, #[trigger] after[j]) by {
            if j < before.len() {
                assert(comes_from_product(stores, init, before[j]));
                let i = choose|i: int|
                    0 <= i < init.len() && has_all_of_product(stores, #[trigger] init[i], before[j]) && forall|k: int|
                        0 <= k < i ==> !is_product(stores, #[trigger] init[k], before[j]);
                assert(has_all_of_product(stores, rows[i], after[j]));
                assert forall|k: int| 0 <= k < i implies !is_product(stores, #[trigger] rows[k], after[j]) by {
                    assert(init[k] == rows[k]);
                }
            } else {
                let i = rows.len() - 1;
                assert(has_all_of_product(stores, rows[i], after[j]));
                assert forall|k: int| 0 <= k < i implies !is_product(stores, #[trigger] rows[k], after[j]) by {
                    assert(init[k] == rows[k]);
                    assert(product_is_among(stores, init[k], before));
                    let m = choose|m: int| 0 <= m < before.len() && is_product(stores, init[k], #[trigger] before[m]);
                    assert(!same_product(before[m], row));
                }
            }
        }
    }
}

/// The products are migrated to the stores of their guilds: none is lost, each has all that the first of its old rows
/// had, and none is there twice.
pub proof fn products_are_migrated(stores: GuildStores, rows: Vec<ProductRowV1>, migrated: Vec<ProductRow>)
    requires
        call_ensures(migrate_products, (&stores, rows), migrated),
    ensures
        forall|i: int| 0 <= i < rows@.len() ==> product_is_among(stores.view(), #[trigger] rows@[i], migrated@),
        forall|j: int| 0 <= j < migrated@.len() ==> comes_from_product(stores.view(), rows@, #[trigger] migrated@[j]),
        forall|i: int, j: int|
            0 <= i < j < migrated@.len() ==> {
                let a = #[trigger] migrated@[i];
                let b = #[trigger] migrated@[j];
                !(a.jinxxy_user_id@ == b.jinxxy_user_id@ && a.product_id@ == b.product_id@)
            },
{
    merged_products_hold(stores.view(), rows@);
    every_product_is_migrated_once(stores.view(), rows@);
    assert forall|i: int, j: int| 0 <= i < j < migrated@.len() implies {
        let a = #[trigger] migrated@[i];
        let b = #[trigger] migrated@[j];
        !(a.jinxxy_user_id@ == b.jinxxy_user_id@ && a.product_id@ == b.product_id@)
    } by {
        assert(!same_product(migrated@[i], migrated@[j]));
    }
}

/// Whether a new row is of the same product version as an old one, at the store of its guild.
pub open spec fn is_product_version(
    stores: Map<i64, String>,
    old: ProductVersionRowV1,
    new: ProductVersionRow,
) -> bool {
    new.jinxxy_user_id@ == stores[old.guild_id]@ && new.product_id@ == old.product_id@
        && new.version_id@ == old.version_id@
}

/// Whether a new row has all that is in an old one.
pub open spec fn has_all_of_product_version(
    stores: Map<i64, String>,
    old: ProductVersionRowV1,
    new: ProductVersionRow,
) -> bool {
    new.jinxxy_user_id == stores[old.guild_id] && new.product_id == old.product_id
        && new.version_id == old.version_id && new.product_version_name == old.product_version_name
}

/// Whether a new row has all that is in the first of the old rows of the same product version.
pub open spec fn comes_from_product_version(
    stores: Map<i64, String>,
    rows: Seq<ProductVersionRowV1>,
    new: ProductVersionRow,
) -> bool {
    exists|i: int|
        0 <= i < rows.len() && has_all_of_product_version(stores, #[trigger] rows[i], new) && forall|k: int|
            0 <= k < i ==> !is_product_version(stores, #[trigger] rows[k], new)
}

/// Whether some new row is of the same product version as an old one.
pub open spec fn product_version_is_among(
    stores: Map<i64, String>,
    old: ProductVersionRowV1,
    rows: Seq<ProductVersionRow>,
) -> bool {
    exists|j: int| 0 <= j < rows.len() && is_product_version(stores, old, #[trigger] rows[j])
}

proof fn merged_product_versions_hold(stores: Map<i64, String>, rows: Seq<ProductVersionRowV1>)
    ensures
        forall|i: int|
            0 <= i < rows.len() ==> product_version_is_among(stores, #[trigger] rows[i], merged_product_versions(stores, rows)),
        forall|j: int|
            0 <= j < merged_product_versions(stores, rows).len() ==> comes_from_product_version(
                stores,
                rows,
                #[trigger] merged_product_versions(stores, rows)[j],
            ),
    decreases rows.len(),
{
    if rows.len() > 0 {
        let init = rows.drop_last();
        let old = rows.last();
        let before = merged_product_versions(stores, init);
        let after = merged_product_versions(stores, rows);
        let row = product_version_of(stores, old);
        merged_product_versions_hold(stores, init);
        assert forall|i: int| 0 <= i < init.len() implies #[trigger] init[i] == rows[i] by {}
        assert forall|j: int| 0 <= j < before.len() implies #[trigger] before[j] == after[j] by {}
        assert forall|i: int| 0 <= i < rows.len() implies product_version_is_among(stores, #[trigger] rows[i], after) by {
            if i < init.len() {
                assert(product_version_is_among(stores, init[i], before));
                let j = choose|j: int| 0 <= j < before.len()
                    && is_product_version(stores, init[i], #[trigger] before[j]);
                assert(is_product_version(stores, rows[i], after[j]));
            } else if has_product_version(before, row) {
                let j = choose|j: int| 0 <= j < before.len() && same_product_version(#[trigger] before[j], row);
                assert(is_product_version(stores, rows[i], after[j]));
            } else {
                assert(is_product_version(stores, rows[i], after[before.len() as int]));
            }
        }
        assert forall|j: int| 0 <= j < after.len() implies comes_from_product_version(stores, rows, #[trigger] after[j]) by {
            if j < before.len() {
                assert(comes_from_product_version(stores, init, before[j]));
                let i = choose|i: int|
                    0 <= i < init.len() && has_all_of_product_version(stores, #[trigger] init[i], before[j])
                        && forall|k: int|
                        0 <= k < i ==> !is_product_version(stores, #[trigger] init[k], before[j]);
                assert(has_all_of_product_version(stores, rows[i], after[j]));
                assert forall|k: int| 0 <= k < i implies !is_product_version(stores, #[trigger] rows[k], after[j]) by {
                    assert(init[k] == rows[k]);
                }
            } else {
                let i = rows.len() - 1;
                assert(has_all_of_product_version(stores, rows[i], after[j]));
                assert forall|k: int| 0 <= k < i implies !is_product_version(stores, #[trigger] rows[k], after[j]) by {
                    assert(init[k] == rows[k]);
                    assert(product_version_is_among(stores, init[k], before));
                    let m = choose|m: int| 0 <= m < before.len()
                        && is_product_version(stores, init[k], #[trigger] before[m]);
                    assert(!same_product_version(before[m], row));
                }
            }
        }
    }
}

/// The product versions are migrated to the stores of their guilds: none is lost, each has all that the first of its old rows
/// had, and none is there twice.
pub proof fn product_versions_are_migrated(
    stores: GuildStores,
    rows: Vec<ProductVersionRowV1>,
    migrated: Vec<ProductVersionRow>,
)
    requires
        call_ensures(migrate_product_versions, (&stores, rows), migrated),
    ensures
        forall|i: int| 0 <= i < rows@.len() ==> product_version_is_among(stores.view(), #[trigger] rows@[i], migrated@),
        forall|j: int| 0 <= j < migrated@.len()
            ==> comes_from_product_version(stores.view(), rows@, #[trigger] migrated@[j]),
        forall|i: int, j: int|
            0 <= i < j < migrated@.len() ==> {
                let a = #[trigger] migrated@[i];
                let b = #[trigger] migrated@[j];
                !(a.jinxxy_user_id@ == b.jinxxy_user_id@ && a.product_id@ == b.product_id@
                    && a.version_id@ == b.version_id@)
            },
{
    merged_product_versions_hold(stores.view(), rows@);
    every_product_version_is_migrated_once(stores.view(), rows@);
    assert forall|i: int, j: int| 0 <= i < j < migrated@.len() implies {
        let a = #[trigger] migrated@[i];
        let b = #[trigger] migrated@[j];
        !(a.jinxxy_user_id@ == b.jinxxy_user_id@ && a.product_id@ == b.product_id@ && a.version_id@ == b.version_id@)
    } by {
        assert(!same_product_version(migrated@[i], migrated@[j]));
    }
}

/// Whether a new row is of the same role of a product as an old one, at the store of its guild.
pub open spec fn is_product_role(stores: Map<i64, String>, old: ProductRoleRowV1, new: ProductRoleRow) -> bool {
    new.jinxxy_user_id@ == stores[old.guild_id]@ && new.product_id@ == old.product_id@
        && new.guild_id == old.guild_id && new.role_id == old.role_id
}

/// Whether a new row has all that is in an old one.
pub open spec fn has_all_of_product_role(stores: Map<i64, String>, old: ProductRoleRowV1, new: ProductRoleRow) -> bool {
    new.jinxxy_user_id == stores[old.guild_id] && new.product_id == old.product_id
        && new.guild_id == old.guild_id && new.role_id == old.role_id
}

/// Whether a new row has all that is in the first of the old rows of the same role of a product.
pub open spec fn comes_from_product_role(
    stores: Map<i64, String>,
    rows: Seq<ProductRoleRowV1>,
    new: ProductRoleRow,
) -> bool {
    exists|i: int|
        0 <= i < rows.len() && has_all_of_product_role(stores, #[trigger] rows[i], new) && forall|k: int|
            0 <= k < i ==> !is_product_role(stores, #[trigger] rows[k], new)
}

/// Whether some new row is of the same role of a product as an old one.
pub open spec fn product_role_is_among(
    stores: Map<i64, String>,
    old: ProductRoleRowV1,
    rows: Seq<ProductRoleRow>,
) -> bool {
    exists|j: int| 0 <= j < rows.len() && is_product_role(stores, old, #[trigger] rows[j])
}

proof fn merged_product_roles_hold(stores: Map<i64, String>, rows: Seq<ProductRoleRowV1>)
    ensures
        forall|i: int|
            0 <= i < rows.len() ==> product_role_is_among(stores, #[trigger] rows[i], merged_product_roles(stores, rows)),
        forall|j: int|
            0 <= j < merged_product_roles(stores, rows).len() ==> comes_from_product_role(
                stores,
                rows,
                #[trigger] merged_product_roles(stores, rows)[j],
            ),
    decreases rows.len(),
{
    if rows.len() > 0 {
        let init = rows.drop_last();
        let old = rows.last();
        let before = merged_product_roles(stores, init);
        let after = merged_product_roles(stores, rows);
        let row = product_role_of(stores, old);
        merged_product_roles_hold(stores, init);
        assert forall|i: int| 0 <= i < init.len() implies #[trigger] init[i] == rows[i] by {}
        assert forall|j: int| 0 <= j < before.len() implies #[trigger] before[j] == after[j] by {}
        assert forall|i: int| 0 <= i < rows.len() implies product_role_is_among(stores, #[trigger] rows[i], after) by {
            if i < init.len() {
                assert(product_role_is_among(stores, init[i], before));
                let j = choose|j: int| 0 <= j < before.len() && is_product_role(stores, init[i], #[trigger] before[j]);
                assert(is_product_role(stores, rows[i], after[j]));
            } else if has_product_role(before, row) {
                let j = choose|j: int| 0 <= j < before.len() && same_product_role(#[trigger] before[j], row);
                assert(is_product_role(stores, rows[i], after[j]));
            } else {
                assert(is_product_role(stores, rows[i], after[before.len() as int]));
            }
        }
        assert forall|j: int| 0 <= j < after.len() implies comes_from_product_role(stores, rows, #[trigger] after[j]) by {
            if j < before.len() {
                assert(comes_from_product_role(stores, init, before[j]));
                let i = choose|i: int|
                    0 <= i < init.len() && has_all_of_product_role(stores, #[trigger] init[i], before[j])
                        && forall|k: int|
                        0 <= k < i ==> !is_product_role(stores, #[trigger] init[k], before[j]);
                assert(has_all_of_product_role(stores, rows[i], after[j]));
                assert forall|k: int| 0 <= k < i implies !is_product_role(stores, #[trigger] rows[k], after[j]) by {
                    assert(init[k] == rows[k]);
                }
            } else {
                let i = rows.len() - 1;
                assert(has_all_of_product_role(stores, rows[i], after[j]));
                assert forall|k: int| 0 <= k < i implies !is_product_role(stores, #[trigger] rows[k], after[j]) by {
                    assert(init[k] == rows[k]);
                    assert(product_role_is_among(stores, init[k], before));
                    let m = choose|m: int| 0 <= m < before.len()
                        && is_product_role(stores, init[k], #[trigger] before[m]);
                    assert(!same_product_role(before[m], row));
                }
            }
        }
    }
}

/// The roles of products are migrated to the stores of their guilds: none is lost, each has all that the first of its old rows
/// had, and none is there twice.
pub proof fn product_roles_are_migrated(stores: GuildStores, rows: Vec<ProductRoleRowV1>, migrated: Vec<ProductRoleRow>)
    requires
        call_ensures(migrate_product_roles, (&stores, rows), migrated),
    ensures
        forall|i: int| 0 <= i < rows@.len() ==> product_role_is_among(stores.view(), #[trigger] rows@[i], migrated@),
        forall|j: int| 0 <= j < migrated@.len()
            ==> comes_from_product_role(stores.view(), rows@, #[trigger] migrated@[j]),
        forall|i: int, j: int|
            0 <= i < j < migrated@.len() ==> {
                let a = #[trigger] migrated@[i];
                let b = #[trigger] migrated@[j];
                !(a.jinxxy_user_id@ == b.jinxxy_user_id@ && a.product_id@ == b.product_id@
                    && a.guild_id == b.guild_id && a.role_id == b.role_id)
            },
{
    merged_product_roles_hold(stores.view(), rows@);
    every_product_role_is_migrated_once(stores.view(), rows@);
    assert forall|i: int, j: int| 0 <= i < j < migrated@.len() implies {
        let a = #[trigger] migrated@[i];
        let b = #[trigger] migrated@[j];
        !(a.jinxxy_user_id@ == b.jinxxy_user_id@ && a.product_id@ == b.product_id@ && a.guild_id == b.guild_id
            && a.role_id == b.role_id)
    } by {
        assert(!same_product_role(migrated@[i], migrated@[j]));
    }
}

/// Whether a new row is of the same role of a product version as an old one, at the store of its guild.
pub open spec fn is_product_version_role(
    stores: Map<i64, String>,
    old: ProductVersionRoleRowV1,
    new: ProductVersionRoleRow,
) -> bool {
    new.jinxxy_user_id@ == stores[old.guild_id]@ && new.product_id@ == old.product_id@
        && new.version_id@ == old.version_id@ && new.guild_id == old.guild_id && new.role_id == old.role_id
}

/// Whether a new row has all that is in an old one.
pub open spec fn has_all_of_product_version_role(
    stores: Map<i64, String>,
    old: ProductVersionRoleRowV1,
    new: ProductVersionRoleRow,
) -> bool {
    new.jinxxy_user_id == stores[old.guild_id] && new.product_id == old.product_id
        && new.version_id == old.version_id && new.guild_id == old.guild_id && new.role_id == old.role_id
}

/// Whether a new row has all that is in the first of the old rows of the same role of a product version.
pub open spec fn comes_from_product_version_role(
    stores: Map<i64, String>,
    rows: Seq<ProductVersionRoleRowV1>,
    new: ProductVersionRoleRow,
) -> bool {
    exists|i: int|
        0 <= i < rows.len() && has_all_of_product_version_role(stores, #[trigger] rows[i], new) && forall|k: int|
            0 <= k < i ==> !is_product_version_role(stores, #[trigger] rows[k], new)
}

/// Whether some new row is of the same role of a product version as an old one.
pub open spec fn product_version_role_is_among(
    stores: Map<i64, String>,
    old: ProductVersionRoleRowV1,
    rows: Seq<ProductVersionRoleRow>,
) -> bool {
    exists|j: int| 0 <= j < rows.len() && is_product_version_role(stores, old, #[trigger] rows[j])
}

proof fn merged_product_version_roles_hold(stores: Map<i64, String>, rows: Seq<ProductVersionRoleRowV1>)
    ensures
        forall|i: int|
            0 <= i < rows.len() ==> product_version_role_is_among(stores, #[trigger] rows[i], merged_product_version_roles(stores, rows)),
        forall|j: int|
            0 <= j < merged_product_version_roles(stores, rows).len() ==> comes_from_product_version_role(
                stores,
                rows,
                #[trigger] merged_product_version_roles(stores, rows)[j],
            ),
    decreases rows.len(),
{
    if rows.len() > 0 {
        let init = rows.drop_last();
        let old = rows.last();
        let before = merged_product_version_roles(stores, init);
        let after = merged_product_version_roles(stores, rows);
        let row = product_version_role_of(stores, old);
        merged_product_version_roles_hold(stores, init);
        assert forall|i: int| 0 <= i < init.len() implies #[trigger] init[i] == rows[i] by {}
        assert forall|j: int| 0 <= j < before.len() implies #[trigger] before[j] == after[j] by {}
        assert forall|i: int| 0 <= i < rows.len() implies product_version_role_is_among(stores, #[trigger] rows[i], after) by {
            if i < init.len() {
                assert(product_version_role_is_among(stores, init[i], before));
                let j = choose|j: int| 0 <= j < before.len()
                    && is_product_version_role(stores, init[i], #[trigger] before[j]);
                assert(is_product_version_role(stores, rows[i], after[j]));
            } else if has_product_version_role(before, row) {
                let j = choose|j: int| 0 <= j < before.len() && same_product_version_role(#[trigger] before[j], row);
                assert(is_product_version_role(stores, rows[i], after[j]));
            } else {
                assert(is_product_version_role(stores, rows[i], after[before.len() as int]));
            }
        }
        assert forall|j: int| 0 <= j < after.len() implies comes_from_product_version_role(stores, rows, #[trigger] after[j]) by {
            if j < before.len() {
                assert(comes_from_product_version_role(stores, init, before[j]));
                let i = choose|i: int|
                    0 <= i < init.len() && has_all_of_product_version_role(stores, #[trigger] init[i], before[j]) && forall|k: int|
                        0 <= k < i ==> !is_product_version_role(stores, #[trigger] init[k], before[j]);
                assert(has_all_of_product_version_role(stores, rows[i], after[j]));
                assert forall|k: int| 0 <= k < i implies !is_product_version_role(stores, #[trigger] rows[k], after[j]) by {
                    assert(init[k] == rows[k]);
                }
            } else {
                let i = rows.len() - 1;
                assert(has_all_of_product_version_role(stores, rows[i], after[j]));
                assert forall|k: int| 0 <= k < i implies !is_product_version_role(stores, #[trigger] rows[k], after[j]) by {
                    assert(init[k] == rows[k]);
                    assert(product_version_role_is_among(stores, init[k], before));
                    let m = choose|m: int| 0 <= m < before.len()
                        && is_product_version_role(stores, init[k], #[trigger] before[m]);
                    assert(!same_product_version_role(before[m], row));
                }
            }
        }
    }
}

/// The roles of product versions are migrated to the stores of their guilds: none is lost, each has all that the first of its old rows
/// had, and none is there twice.
pub proof fn product_version_roles_are_migrated(
    stores: GuildStores,
    rows: Vec<ProductVersionRoleRowV1>,
    migrated: Vec<ProductVersionRoleRow>,
)
    requires
        call_ensures(migrate_product_version_roles, (&stores, rows), migrated),
    ensures
        forall|i: int| 0 <= i < rows@.len()
            ==> product_version_role_is_among(stores.view(), #[trigger] rows@[i], migrated@),
        forall|j: int| 0 <= j < migrated@.len()
            ==> comes_from_product_version_role(stores.view(), rows@, #[trigger] migrated@[j]),
        forall|i: int, j: int|
            0 <= i < j < migrated@.len() ==> {
                let a = #[trigger] migrated@[i];
                let b = #[trigger] migrated@[j];
                !(a.jinxxy_user_id@ == b.jinxxy_user_id@ && a.product_id@ == b.product_id@
                    && a.version_id@ == b.version_id@ && a.guild_id == b.guild_id && a.role_id == b.role_id)
            },
{
    merged_product_version_roles_hold(stores.view(), rows@);
    every_product_version_role_is_migrated_once(stores.view(), rows@);
    assert forall|i: int, j: int| 0 <= i < j < migrated@.len() implies {
        let a = #[trigger] migrated@[i];
        let b = #[trigger] migrated@[j];
        !(a.jinxxy_user_id@ == b.jinxxy_user_id@ && a.product_id@ == b.product_id@
            && a.version_id@ == b.version_id@ && a.guild_id == b.guild_id && a.role_id == b.role_id)
    } by {
        assert(!same_product_version_role(migrated@[i], migrated@[j]));
    }
}

/// Every guild is found with its store, as long as no later guild has the same ID.
pub proof fn guilds_are_found_with_their_stores(guilds: &[GuildRowV1], stores: GuildStores, i: int)
    requires
        all_linked(guilds@),
        call_ensures(GuildStores::new, (guilds,), stores),
        0 <= i < guilds@.len(),
        forall|j: int| i < j < guilds@.len() ==> (#[trigger] guilds@[j]).guild_id != guilds@[i].guild_id,
    ensures
        stores.view().contains_key(guilds@[i].guild_id),
        guilds@[i].jinxxy_user_id == Some(stores.view()[guilds@[i].guild_id]),
        forall|store: String| #[trigger]
            call_ensures(GuildStores::store, (&stores, guilds@[i].guild_id), store) ==> guilds@[i].jinxxy_user_id
                == Some(store),
{
    store_of_guild(guilds@, i);
    assert(guilds@[i].jinxxy_user_id is Some);
}

proof fn store_of_guild(guilds: Seq<GuildRowV1>, i: int)
    requires
        0 <= i < guilds.len(),
        forall|j: int| i < j < guilds.len() ==> (#[trigger] guilds[j]).guild_id != guilds[i].guild_id,
    ensures
        stores_of(guilds).contains_key(guilds[i].guild_id),
        stores_of(guilds)[guilds[i].guild_id] == guilds[i].jinxxy_user_id->0,
    decreases guilds.len(),
{
    let init = guilds.drop_last();
    if i < init.len() {
        assert(guilds[guilds.len() - 1].guild_id != guilds[i].guild_id);
        assert forall|j: int| i < j < init.len() implies (#[trigger] init[j]).guild_id != init[i].guild_id by {
            assert(init[j] == guilds[j]);
        }
        store_of_guild(init, i);
    }
}

/// Whether a guild has a store.
pub open spec fn has_store(guild: GuildRowV1, store: Seq<char>) -> bool {
    guild.jinxxy_user_id matches Some(id) && id@ == store
}

/// Whether a username is the one that the last guild of a store knows that knows any.
pub open spec fn is_latest_username(guilds: Seq<GuildRowV1>, store: Seq<char>, username: Option<String>) -> bool {
    match username {
        Some(_) => exists|g: int|
            0 <= g < guilds.len() && has_store(#[trigger] guilds[g], store) && guilds[g].jinxxy_username == username
                && forall|h: int|
                g < h < guilds.len() && has_store(#[trigger] guilds[h], store) ==> guilds[h].jinxxy_username is None,
        None => forall|g: int|
            0 <= g < guilds.len() && has_store(#[trigger] guilds[g], store) ==> guilds[g].jinxxy_username is None,
    }
}

proof fn usernames_are_latest(guilds: Seq<GuildRowV1>)
    requires
        all_linked(guilds),
    ensures
        forall|j: int|
            0 <= j < merged_users(guilds).len() ==> is_latest_username(
                guilds,
                (#[trigger] merged_users(guilds)[j]).jinxxy_user_id@,
                merged_users(guilds)[j].jinxxy_username,
            ),
    decreases guilds.len(),
{
    if guilds.len() > 0 {
        let init = guilds.drop_last();
        let last = guilds.last();
        let n = init.len() as int;
        assert forall|g: int| 0 <= g < n implies #[trigger] init[g] == guilds[g] by {}
        assert(all_linked(init)) by {
            assert forall|g: int| 0 <= g < n implies (#[trigger] init[g]).jinxxy_api_key is Some
                && init[g].jinxxy_user_id is Some by {
                assert(guilds[g].jinxxy_user_id is Some);
            }
        }
        usernames_are_latest(init);
        every_store_is_migrated_once(init);
        every_store_is_migrated_once(guilds);
        assert(guilds[n].jinxxy_user_id is Some);
        assert(user_of(last).jinxxy_user_id@ == last.jinxxy_user_id->0@);
        let before = merged_users(init);
        let after = merged_users(guilds);
        let store = last.jinxxy_user_id->0@;
        assert forall|j: int| 0 <= j < after.len() implies is_latest_username(
            guilds,
            (#[trigger] after[j]).jinxxy_user_id@,
            after[j].jinxxy_username,
        ) by {
            let id = after[j].jinxxy_user_id@;
            store_position_bounds(before, store);
            if id == store {
                if last.jinxxy_username is Some {
                    if j < before.len() {
                        assert(before[j].jinxxy_user_id@ == store);
                        position_is_unique(before, store, j);
                    }
                    assert(after[j].jinxxy_username == last.jinxxy_username);
                    assert(has_store(guilds[n], store));
                } else if j < before.len() {
                    assert(before[j].jinxxy_user_id@ == store);
                    position_is_unique(before, store, j);
                    assert(is_latest_username(init, before[j].jinxxy_user_id@, before[j].jinxxy_username));
                    assert(after[j].jinxxy_username == before[j].jinxxy_username);
                    latest_username_of_more(init, last, store, before[j].jinxxy_username);
                    assert(guilds =~= init.push(last));
                } else {
                    assert forall|g: int| 0 <= g < guilds.len() && has_store(
                        #[trigger] guilds[g],
                        store,
                    ) implies guilds[g].jinxxy_username is None by {
                        if g < n {
                            assert(has_user(before, user_of(init[g]).jinxxy_user_id@));
                            let m = choose|m: int|
                                0 <= m < before.len() && (#[trigger] before[m]).jinxxy_user_id@ == store;
                            assert(after[m].jinxxy_user_id@ == store);
                        }
                    }
                }
            } else {
                assert(j < before.len());
                assert(before[j] == after[j]);
                assert(is_latest_username(init, before[j].jinxxy_user_id@, before[j].jinxxy_username));
                latest_username_of_more(init, last, id, before[j].jinxxy_username);
                assert(guilds =~= init.push(last));
            }
        }
    }
}

proof fn latest_username_of_more(guilds: Seq<GuildRowV1>, last: GuildRowV1, store: Seq<char>, username: Option<String>)
    requires
        is_latest_username(guilds, store, username),
        has_store(last, store) ==> last.jinxxy_username is None,
    ensures
        is_latest_username(guilds.push(last), store, username),
{
    let more = guilds.push(last);
    assert forall|g: int| 0 <= g < guilds.len() implies #[trigger] more[g] == guilds[g] by {}
    if username is Some {
        let g = choose|g: int|
            0 <= g < guilds.len() && has_store(#[trigger] guilds[g], store) && guilds[g].jinxxy_username == username
                && forall|h: int|
                g < h < guilds.len() && has_store(#[trigger] guilds[h], store) ==> guilds[h].jinxxy_username is None;
        assert(has_store(more[g], store));
        assert forall|h: int| g < h < more.len() && has_store(
            #[trigger] more[h],
            store,
        ) implies more[h].jinxxy_username is None by {
            if h < guilds.len() {
                assert(has_store(guilds[h], store));
            }
        }
    } else {
        assert forall|g: int| 0 <= g < more.len() && has_store(
            #[trigger] more[g],
            store,
        ) implies more[g].jinxxy_username is None by {
            if g < guilds.len() {
                assert(has_store(guilds[g], store));
            }
        }
    }
}

proof fn store_position_bounds(users: Seq<JinxxyUserRow>, store: Seq<char>)
    ensures
        0 <= store_position(users, store) <= users.len(),
        store_position(users, store) < users.len() ==> users[store_position(users, store)].jinxxy_user_id@ == store,
        forall|i: int| 0 <= i < store_position(users, store) ==> (#[trigger] users[i]).jinxxy_user_id@ != store,
    decreases users.len(),
{
    if users.len() == 0 || users.first().jinxxy_user_id@ == store {
    } else {
        let rest = users.drop_first();
        store_position_bounds(rest, store);
        let p = store_position(rest, store);
        assert(p < rest.len() ==> rest[p] == users[p + 1]);
        assert forall|i: int| 0 <= i < p + 1 implies (#[trigger] users[i]).jinxxy_user_id@ != store by {
            if i > 0 {
                assert(rest[i - 1] == users[i]);
            }
        }
    }
}

proof fn position_is_unique(users: Seq<JinxxyUserRow>, store: Seq<char>, j: int)
    requires
        0 <= j < users.len(),
        users[j].jinxxy_user_id@ == store,
        forall|a: int, b: int|
            0 <= a < b < users.len() ==> (#[trigger] users[a]).jinxxy_user_id@ != (#[trigger] users[b]).jinxxy_user_id@,
    ensures
        store_position(users, store) == j,
{
    store_position_bounds(users, store);
    let p = store_position(users, store);
    if p < j {
        assert(users[p].jinxxy_user_id@ != users[j].jinxxy_user_id@);
    }
}

/// No store is lost, and none is migrated twice.
pub proof fn stores_are_migrated(guilds: &[GuildRowV1], users: Vec<JinxxyUserRow>, i: int)
    requires
        all_linked(guilds@),
        call_ensures(migrate_users, (guilds,), users),
        0 <= i < guilds@.len(),
    ensures
        exists|j: int| 0 <= j < users@.len() && has_store(guilds@[i], (#[trigger] users@[j]).jinxxy_user_id@),
        forall|j: int, k: int|
            0 <= j < k < users@.len() ==> (#[trigger] users@[j]).jinxxy_user_id@ != (
            #[trigger] users@[k]).jinxxy_user_id@,
{
    every_store_is_migrated_once(guilds@);
    assert(guilds@[i].jinxxy_user_id is Some);
    assert(has_user(users@, user_of(guilds@[i]).jinxxy_user_id@));
}

/// A migrated store has the latest cache time of its guilds.
pub proof fn stores_keep_their_cache_time(guilds: &[GuildRowV1], users: Vec<JinxxyUserRow>, j: int, g: int)
    requires
        all_linked(guilds@),
        call_ensures(migrate_users, (guilds,), users),
        0 <= j < users@.len(),
    ensures
        0 <= g < guilds@.len() && has_store(guilds@[g], users@[j].jinxxy_user_id@) ==> guilds@[g].cache_time_unix_ms
            <= users@[j].cache_time_unix_ms,
        exists|h: int|
            0 <= h < guilds@.len() && has_store(#[trigger] guilds@[h], users@[j].jinxxy_user_id@)
                && guilds@[h].cache_time_unix_ms == users@[j].cache_time_unix_ms,
{
    let all = guilds@;
    latest_cache_time_counts(all, j);
    if 0 <= g < all.len() && has_store(all[g], users@[j].jinxxy_user_id@) {
        assert(user_of(all[g]).jinxxy_user_id@ == users@[j].jinxxy_user_id@);
    }
    let h = choose|h: int|
        0 <= h < all.len() && user_of(#[trigger] all[h]).jinxxy_user_id@ == users@[j].jinxxy_user_id@
            && all[h].cache_time_unix_ms == users@[j].cache_time_unix_ms;
    assert(all[h].jinxxy_user_id is Some);
    assert(has_store(all[h], users@[j].jinxxy_user_id@));
}

/// A migrated store has the last username that any of its guilds knew.
pub proof fn stores_keep_their_username(guilds: &[GuildRowV1], users: Vec<JinxxyUserRow>, j: int)
    requires
        all_linked(guilds@),
        call_ensures(migrate_users, (guilds,), users),
        0 <= j < users@.len(),
    ensures
        is_latest_username(guilds@, users@[j].jinxxy_user_id@, users@[j].jinxxy_username),
{
    usernames_are_latest(guilds@);
}

/// Whether a new row is of the same activation as an old one, at the store of its guild.
pub open spec fn is_activation(
    stores: Map<i64, String>,
    old: LicenseActivationRowV1,
    new: LicenseActivationRow,
) -> bool {
    new.jinxxy_user_id@ == stores[old.guild_id]@ && new.license_id@ == old.license_id@ && new.activator_user_id
        == old.user_id && new.license_activation_id@ == old.license_activation_id@
}

/// Whether an old row has a version. An empty version ID is none.
pub open spec fn has_version(old: LicenseActivationRowV1) -> bool {
    old.version_id matches Some(version_id) && version_id@.len() > 0
}

/// Whether a new row has the product of the last old row of its activation, and the version of the last one that has
/// any.
pub open spec fn has_latest_product(
    stores: Map<i64, String>,
    rows: Seq<LicenseActivationRowV1>,
    new: LicenseActivationRow,
) -> bool {
    &&& exists|i: int|
        0 <= i < rows.len() && is_activation(stores, #[trigger] rows[i], new) && rows[i].product_id == Some(
            new.product_id,
        ) && forall|k: int| i < k < rows.len() ==> !is_activation(stores, #[trigger] rows[k], new)
    &&& match new.version_id {
        Some(_) => exists|i: int|
            0 <= i < rows.len() && is_activation(stores, #[trigger] rows[i], new) && has_version(rows[i])
                && rows[i].version_id == new.version_id && forall|k: int|
                i < k < rows.len() && is_activation(stores, #[trigger] rows[k], new) ==> !has_version(rows[k]),
        None => forall|k: int|
            0 <= k < rows.len() && is_activation(stores, #[trigger] rows[k], new) ==> !has_version(rows[k]),
    }
}

/// What was known of an activation is still known when another old row is of another activation.
proof fn latest_product_of_more(
    stores: Map<i64, String>,
    rows: Seq<LicenseActivationRowV1>,
    old: LicenseActivationRowV1,
    new: LicenseActivationRow,
)
    requires
        has_latest_product(stores, rows, new),
        !is_activation(stores, old, new),
    ensures
        has_latest_product(stores, rows.push(old), new),
{
    let more = rows.push(old);
    assert forall|k: int| 0 <= k < rows.len() implies #[trigger] more[k] == rows[k] by {}
    let i = choose|i: int|
        0 <= i < rows.len() && is_activation(stores, #[trigger] rows[i], new) && rows[i].product_id == Some(
            new.product_id,
        ) && forall|k: int| i < k < rows.len() ==> !is_activation(stores, #[trigger] rows[k], new);
    assert(is_activation(stores, more[i], new));
    assert forall|k: int| i < k < more.len() implies !is_activation(stores, #[trigger] more[k], new) by {
        if k < rows.len() {
            assert(!is_activation(stores, rows[k], new));
        }
    }
    versions_of_more(stores, rows, old, new);
}

proof fn versions_of_more(
    stores: Map<i64, String>,
    rows: Seq<LicenseActivationRowV1>,
    old: LicenseActivationRowV1,
    new: LicenseActivationRow,
)
    requires
        !is_activation(stores, old, new) || !has_version(old),
        new.version_id is Some ==> exists|i: int|
            0 <= i < rows.len() && is_activation(stores, #[trigger] rows[i], new) && has_version(rows[i])
                && rows[i].version_id == new.version_id && forall|k: int|
                i < k < rows.len() && is_activation(stores, #[trigger] rows[k], new) ==> !has_version(rows[k]),
        new.version_id is None ==> forall|k: int|
            0 <= k < rows.len() && is_activation(stores, #[trigger] rows[k], new) ==> !has_version(rows[k]),
    ensures
        ({
            let more = rows.push(old);
            match new.version_id {
                Some(_) => exists|i: int|
                    0 <= i < more.len() && is_activation(stores, #[trigger] more[i], new) && has_version(more[i])
                        && more[i].version_id == new.version_id && forall|k: int|
                        i < k < more.len() && is_activation(stores, #[trigger] more[k], new) ==> !has_version(more[k]),
                None => forall|k: int|
                    0 <= k < more.len() && is_activation(stores, #[trigger] more[k], new) ==> !has_version(more[k]),
            }
        }),
{
    let more = rows.push(old);
    assert forall|k: int| 0 <= k < rows.len() implies #[trigger] more[k] == rows[k] by {}
    if new.version_id is Some {
        let i = choose|i: int|
            0 <= i < rows.len() && is_activation(stores, #[trigger] rows[i], new) && has_version(rows[i])
                && rows[i].version_id == new.version_id && forall|k: int|
                i < k < rows.len() && is_activation(stores, #[trigger] rows[k], new) ==> !has_version(rows[k]);
        assert(is_activation(stores, more[i], new));
        assert forall|k: int| i < k < more.len() && is_activation(stores, #[trigger] more[k], new) implies !has_version(
            more[k],
        ) by {
            if k < rows.len() {
                assert(is_activation(stores, rows[k], new));
            }
        }
    } else {
        assert forall|k: int| 0 <= k < more.len()
            && is_activation(stores, #[trigger] more[k], new) implies !has_version(
            more[k],
        ) by {
            if k < rows.len() {
                assert(is_activation(stores, rows[k], new));
            }
        }
    }
}

proof fn merged_activation_holds(stores: Map<i64, String>, rows: Seq<LicenseActivationRowV1>, j: int)
    requires
        forall|i: int| 0 <= i < rows.len() ==> (#[trigger] rows[i]).product_id is Some,
        0 <= j < merged_activations(stores, rows).len(),
    ensures
        has_latest_product(stores, rows, merged_activations(stores, rows)[j]),
    decreases rows.len(),
{
    let init = rows.drop_last();
    let old = rows.last();
    let row = activation_of(stores, old);
    let before = merged_activations(stores, init);
    let new = merged_activations(stores, rows)[j];
    assert forall|i: int| 0 <= i < init.len() implies (#[trigger] init[i]).product_id is Some by {
        assert(init[i] == rows[i]);
    }
    assert(rows[rows.len() - 1].product_id is Some);
    assert(rows =~= init.push(old));
    activation_position_bounds(before, row);
    let p = activation_position(before, row);
    if j != p {
        assert(before[j] == new);
        merged_activation_holds(stores, init, j);
        others_stay(stores, init, old, j);
        latest_product_of_more(stores, init, old, new);
    } else if p < before.len() {
        merged_activation_holds(stores, init, p);
        known_activation_is_updated(stores, init, old, before[p]);
    } else {
        new_activation_is_added(stores, init, old);
    }
}

/// An activation that is not at the position of a row is another one.
proof fn others_stay(
    stores: Map<i64, String>,
    rows: Seq<LicenseActivationRowV1>,
    old: LicenseActivationRowV1,
    j: int,
)
    requires
        0 <= j < merged_activations(stores, rows).len(),
        j != activation_position(merged_activations(stores, rows), activation_of(stores, old)),
    ensures
        !is_activation(stores, old, merged_activations(stores, rows)[j]),
{
    let before = merged_activations(stores, rows);
    let row = activation_of(stores, old);
    let p = activation_position(before, row);
    every_activation_is_migrated_once(stores, rows);
    activation_position_bounds(before, row);
    if is_activation(stores, old, before[j]) {
        assert(same_activation(before[j], row));
        assert(p < j);
        assert(same_activation(before[p], before[j]));
    }
}

proof fn known_activation_is_updated(
    stores: Map<i64, String>,
    rows: Seq<LicenseActivationRowV1>,
    old: LicenseActivationRowV1,
    known: LicenseActivationRow,
)
    requires
        has_latest_product(stores, rows, known),
        same_activation(known, activation_of(stores, old)),
        old.product_id is Some,
    ensures
        has_latest_product(stores, rows.push(old), merged_activation(known, activation_of(stores, old))),
{
    let new = merged_activation(known, activation_of(stores, old));
    let more = rows.push(old);
    let n = rows.len() as int;
    assert(more[n] == old);
    assert(is_activation(stores, more[n], new));
    assert(more[n].product_id == Some(new.product_id));
    if has_version(old) {
        assert(has_version(more[n]));
        assert(more[n].version_id == new.version_id);
    } else {
        assert(new.version_id == known.version_id);
        assert forall|k: int| 0 <= k < n implies (is_activation(stores, #[trigger] rows[k], known) <==> is_activation(
            stores,
            rows[k],
            new,
        )) by {}
        if new.version_id is Some {
            let i = choose|i: int|
                0 <= i < rows.len() && is_activation(stores, #[trigger] rows[i], known) && has_version(rows[i])
                    && rows[i].version_id == known.version_id && forall|k: int|
                    i < k < rows.len() && is_activation(stores, #[trigger] rows[k], known) ==> !has_version(rows[k]);
            assert(is_activation(stores, rows[i], new));
        }
        versions_of_more(stores, rows, old, new);
    }
}

proof fn new_activation_is_added(
    stores: Map<i64, String>,
    rows: Seq<LicenseActivationRowV1>,
    old: LicenseActivationRowV1,
)
    requires
        old.product_id is Some,
        activation_position(merged_activations(stores, rows), activation_of(stores, old)) >= merged_activations(
            stores,
            rows,
        ).len(),
    ensures
        has_latest_product(stores, rows.push(old), activation_of(stores, old)),
{
    let before = merged_activations(stores, rows);
    let new = activation_of(stores, old);
    let more = rows.push(old);
    let n = rows.len() as int;
    every_activation_is_migrated_once(stores, rows);
    activation_position_bounds(before, new);
    assert(more[n] == old);
    assert(is_activation(stores, more[n], new));
    assert forall|k: int| 0 <= k < n implies !is_activation(stores, #[trigger] more[k], new) by {
        assert(rows[k] == more[k]);
        let m = choose|m: int|
            0 <= m < before.len() && same_activation(#[trigger] before[m], activation_of(stores, rows[k]));
        assert(!same_activation(before[m], new));
    }
    if has_version(old) {
        assert(has_version(more[n]));
        assert(more[n].version_id == new.version_id);
    }
}

proof fn activation_position_bounds(rows: Seq<LicenseActivationRow>, row: LicenseActivationRow)
    ensures
        0 <= activation_position(rows, row) <= rows.len(),
        activation_position(rows, row) < rows.len() ==> same_activation(rows[activation_position(rows, row)], row),
        forall|i: int| 0 <= i < activation_position(rows, row) ==> !same_activation(#[trigger] rows[i], row),
    decreases rows.len(),
{
    if rows.len() == 0 || same_activation(rows.first(), row) {
    } else {
        let rest = rows.drop_first();
        activation_position_bounds(rest, row);
        let p = activation_position(rest, row);
        assert(p < rest.len() ==> rest[p] == rows[p + 1]);
        assert forall|i: int| 0 <= i < p + 1 implies !same_activation(#[trigger] rows[i], row) by {
            if i > 0 {
                assert(rest[i - 1] == rows[i]);
            }
        }
    }
}

/// No activation of a license is lost, and none is migrated twice.
pub proof fn activations_are_migrated(
    stores: GuildStores,
    rows: Vec<LicenseActivationRowV1>,
    migrated: Vec<LicenseActivationRow>,
    i: int,
)
    requires
        call_ensures(migrate_license_activations, (&stores, rows), migrated),
        0 <= i < rows@.len(),
    ensures
        exists|j: int| 0 <= j < migrated@.len() && is_activation(stores.view(), rows@[i], #[trigger] migrated@[j]),
        forall|j: int, k: int|
            0 <= j < k < migrated@.len() ==> {
                let a = #[trigger] migrated@[j];
                let b = #[trigger] migrated@[k];
                !(a.jinxxy_user_id@ == b.jinxxy_user_id@ && a.license_id@ == b.license_id@ && a.activator_user_id
                    == b.activator_user_id && a.license_activation_id@ == b.license_activation_id@)
            },
{
    let map = stores.view();
    every_activation_is_migrated_once(map, rows@);
    let j = choose|j: int|
        0 <= j < migrated@.len() && same_activation(#[trigger] migrated@[j], activation_of(map, rows@[i]));
    assert(is_activation(map, rows@[i], migrated@[j]));
    assert forall|j: int, k: int| 0 <= j < k < migrated@.len() implies {
        let a = #[trigger] migrated@[j];
        let b = #[trigger] migrated@[k];
        !(a.jinxxy_user_id@ == b.jinxxy_user_id@ && a.license_id@ == b.license_id@ && a.activator_user_id
            == b.activator_user_id && a.license_activation_id@ == b.license_activation_id@)
    } by {
        assert(!same_activation(migrated@[j], migrated@[k]));
    }
}

/// A migrated activation has the product of the last of its old rows, and the version of the last one that had any.
pub proof fn activations_keep_their_product(
    stores: GuildStores,
    rows: Vec<LicenseActivationRowV1>,
    migrated: Vec<LicenseActivationRow>,
    j: int,
)
    requires
        forall|i: int| 0 <= i < rows@.len() ==> (#[trigger] rows@[i]).product_id is Some,
        call_ensures(migrate_license_activations, (&stores, rows), migrated),
        0 <= j < migrated@.len(),
    ensures
        has_latest_product(stores.view(), rows@, migrated@[j]),
{
    merged_activation_holds(stores.view(), rows@, j);
}

} // verus!
