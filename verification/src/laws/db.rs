//! What goes into the database and comes out of it

use super::util::filtered_are_those;
use crate::db::schema::{check_migration, check_v2_schema, pending_v1_upgrades, upgrades_from, v1_upgrades};
use crate::db::{
    escape_like, escaped_text_matches_itself_alone, has_db_version, has_product_id, id_from_db, id_to_db, like_literal,
    needs_gumroad_nag, product_sources, role_sources, stale_product_versions, stale_products, username_prefix_pattern,
    version_sources, LinkSource, LinkedDisplayStore, Links, ProductRoleLink, ProductVersionRoleLink,
};
use crate::http::jinxxy::{ProductNameInfo, ProductVersionId, ProductVersionNameInfo};
use vstd::prelude::*;

verus! {

/// An ID comes out of the database as it went in, whatever it is. A small one is its own number there.
pub proof fn ids_come_back(id: u64, number: i64, back: u64)
    requires
        call_ensures(id_to_db, (id,), number),
        call_ensures(id_from_db, (number,), back),
    ensures
        back == id,
        id < 0x8000_0000_0000_0000 ==> number == id,
        id >= 0x8000_0000_0000_0000 ==> number == id - 0x1_0000_0000_0000_0000,
{
}

/// A product version comes out of the database as it went in, unless its version ID is empty. Both ways of putting it
/// there agree.
pub proof fn product_versions_come_back(
    id: ProductVersionId,
    borrowed: (&str, &str),
    owned: (String, String),
    back: ProductVersionId,
)
    requires
        call_ensures(ProductVersionId::as_db_values, (&id,), borrowed),
        call_ensures(ProductVersionId::into_db_values, (id,), owned),
        call_ensures(ProductVersionId::from_db_values, (owned.0, owned.1), back),
    ensures
        borrowed.0@ == id.product_id@,
        owned.0@ == id.product_id@,
        owned.1@ == borrowed.1@,
        back.product_id@ == id.product_id@,
        id.product_version_id matches Some(version_id) ==> borrowed.1@ == version_id@ && (version_id@.len() > 0
            ==> back.product_version_id is Some && back.product_version_id->0@ == version_id@),
        id.product_version_id is None ==> borrowed.1@.len() == 0 && back.product_version_id is None,
{
    let view = back@;
    assert(view.product_version_id is Some <==> back.product_version_id is Some);
}

/// A product is deleted from the database exactly when it is there and was not just persisted.
pub proof fn missing_products_are_deleted(
    infos: &[ProductNameInfo],
    existing: Vec<String>,
    stale: Vec<String>,
    product_id: String,
)
    requires
        call_ensures(stale_products, (infos, existing), stale),
    ensures
        stale@.contains(product_id) <==> existing@.contains(product_id) && forall|i: int|
            0 <= i < infos@.len() ==> (#[trigger] infos@[i]).id@ != product_id@,
{
    filtered_are_those(existing@, |id: String| !has_product_id(infos@, id@), product_id);
}

/// A product version is deleted from the database exactly when it is there and was not just persisted. No version is
/// written as an empty version ID.
pub proof fn missing_versions_are_deleted(
    infos: &[ProductVersionNameInfo],
    existing: Vec<(String, String)>,
    stale: Vec<(String, String)>,
    key: (String, String),
)
    requires
        call_ensures(stale_product_versions, (infos, existing), stale),
    ensures
        stale@.contains(key) <==> existing@.contains(key) && forall|i: int|
            0 <= i < infos@.len() ==> !((#[trigger] infos@[i]).id.product_id@ == key.0@ && (
            match infos@[i].id.product_version_id {
                Some(version_id) => version_id@ == key.1@,
                None => key.1@.len() == 0,
            })),
{
    filtered_are_those(existing@, |k: (String, String)| !has_db_version(infos@, k.0@, k.1@), key);
    let is_same = |i: int|
        infos@[i].id.product_id@ == key.0@ && (match infos@[i].id.product_version_id {
            Some(version_id) => version_id@ == key.1@,
            None => key.1@.len() == 0,
        });
    if has_db_version(infos@, key.0@, key.1@) {
        let i = choose|i: int|
            0 <= i < infos@.len() && (#[trigger] infos@[i]).id@.product_id == key.0@ && crate::db::db_version(
                infos@[i].id@,
            ) == key.1@;
        assert(is_same(i));
    } else {
        assert forall|i: int| 0 <= i < infos@.len() implies !((#[trigger] infos@[i]).id.product_id@ == key.0@ && (
        match infos@[i].id.product_version_id {
            Some(version_id) => version_id@ == key.1@,
            None => key.1@.len() == 0,
        })) by {
            if infos@[i].id.product_version_id is None && key.1@.len() == 0 {
                assert(key.1@ =~= Seq::<char>::empty());
            }
            assert(!(infos@[i].id@.product_id == key.0@ && crate::db::db_version(infos@[i].id@) == key.1@));
        }
    }
}

/// The owner of a guild is told about Gumroad keys once, when ten of them were rejected and they are more than a fifth
/// of the activations.
pub proof fn owners_are_nagged_once(nag_count: u64, failure_count: u64, activation_count: u64, r: bool)
    requires
        call_ensures(needs_gumroad_nag, (nag_count, failure_count, activation_count), r),
    ensures
        r <==> nag_count == 0 && failure_count >= 10 && 5 * failure_count > activation_count,
{
}

/// A text that is searched for stands for itself alone, and a prefix for itself with anything behind it.
pub proof fn searches_are_literal(text: &str, escaped: String, pattern: String)
    requires
        call_ensures(escape_like, (text,), escaped),
        call_ensures(username_prefix_pattern, (text,), pattern),
    ensures
        like_literal(escaped@) == Some(text@),
        pattern@ == escaped@ + "%"@,
{
    escaped_text_matches_itself_alone(text@);
}

proof fn product_sources_are_those(rows: Seq<ProductRoleLink>, role_id: u64, source: LinkSource)
    ensures
        product_sources(rows, role_id).contains(source) <==> exists|i: int|
            0 <= i < rows.len() && (#[trigger] rows[i]).role_id == role_id && source == (LinkSource::ProductBlanket {
                jinxxy_user_id: rows[i].jinxxy_user_id,
                product_id: rows[i].product_id,
            }),
    decreases rows.len(),
{
    if rows.len() > 0 {
        let init = rows.drop_last();
        let n = rows.len() - 1;
        let before = product_sources(init, role_id);
        let after = product_sources(rows, role_id);
        product_sources_are_those(init, role_id, source);
        assert forall|i: int| 0 <= i < init.len() implies #[trigger] init[i] == rows[i] by {}
        if after.contains(source) {
            let k = choose|k: int| 0 <= k < after.len() && after[k] == source;
            if k < before.len() {
                assert(before[k] == source);
                let i = choose|i: int|
                    0 <= i < init.len() && (#[trigger] init[i]).role_id == role_id && source == (
                    LinkSource::ProductBlanket {
                        jinxxy_user_id: init[i].jinxxy_user_id,
                        product_id: init[i].product_id,
                    });
                assert(rows[i].role_id == role_id);
            } else {
                assert(rows[n].role_id == role_id);
            }
        }
        if exists|i: int|
            0 <= i < rows.len() && (#[trigger] rows[i]).role_id == role_id && source == (LinkSource::ProductBlanket {
                jinxxy_user_id: rows[i].jinxxy_user_id,
                product_id: rows[i].product_id,
            }) {
            let i = choose|i: int|
                0 <= i < rows.len() && (#[trigger] rows[i]).role_id == role_id && source == (
                LinkSource::ProductBlanket {
                    jinxxy_user_id: rows[i].jinxxy_user_id,
                    product_id: rows[i].product_id,
                });
            if i < n {
                assert(init[i].role_id == role_id);
                let k = choose|k: int| 0 <= k < before.len() && before[k] == source;
                assert(after[k] == source);
            } else {
                assert(after[before.len() as int] == source);
            }
        }
    }
}

proof fn version_sources_are_those(rows: Seq<ProductVersionRoleLink>, role_id: u64, source: LinkSource)
    ensures
        version_sources(rows, role_id).contains(source) <==> exists|i: int|
            0 <= i < rows.len() && (#[trigger] rows[i]).role_id == role_id && source == (LinkSource::ProductVersion {
                jinxxy_user_id: rows[i].jinxxy_user_id,
                product_version_id: rows[i].product_version_id,
            }),
    decreases rows.len(),
{
    if rows.len() > 0 {
        let init = rows.drop_last();
        let n = rows.len() - 1;
        let before = version_sources(init, role_id);
        let after = version_sources(rows, role_id);
        version_sources_are_those(init, role_id, source);
        assert forall|i: int| 0 <= i < init.len() implies #[trigger] init[i] == rows[i] by {}
        if after.contains(source) {
            let k = choose|k: int| 0 <= k < after.len() && after[k] == source;
            if k < before.len() {
                assert(before[k] == source);
                let i = choose|i: int|
                    0 <= i < init.len() && (#[trigger] init[i]).role_id == role_id && source == (
                    LinkSource::ProductVersion {
                        jinxxy_user_id: init[i].jinxxy_user_id,
                        product_version_id: init[i].product_version_id,
                    });
                assert(rows[i].role_id == role_id);
            } else {
                assert(rows[n].role_id == role_id);
            }
        }
        if exists|i: int|
            0 <= i < rows.len() && (#[trigger] rows[i]).role_id == role_id && source == (LinkSource::ProductVersion {
                jinxxy_user_id: rows[i].jinxxy_user_id,
                product_version_id: rows[i].product_version_id,
            }) {
            let i = choose|i: int|
                0 <= i < rows.len() && (#[trigger] rows[i]).role_id == role_id && source == (
                LinkSource::ProductVersion {
                    jinxxy_user_id: rows[i].jinxxy_user_id,
                    product_version_id: rows[i].product_version_id,
                });
            if i < n {
                assert(init[i].role_id == role_id);
                let k = choose|k: int| 0 <= k < before.len() && before[k] == source;
                assert(after[k] == source);
            } else {
                assert(after[before.len() as int] == source);
            }
        }
    }
}

/// Whether something gives a role: it is the wildcard, a row of a product or a row of a product version.
pub open spec fn gives_role(
    blanket_role_id: Option<u64>,
    products: Seq<ProductRoleLink>,
    versions: Seq<ProductVersionRoleLink>,
    role_id: u64,
    source: LinkSource,
) -> bool {
    ||| blanket_role_id == Some(role_id) && source is GlobalBlanket
    ||| exists|i: int|
        0 <= i < products.len() && (#[trigger] products[i]).role_id == role_id && source == (
        LinkSource::ProductBlanket {
            jinxxy_user_id: products[i].jinxxy_user_id,
            product_id: products[i].product_id,
        })
    ||| exists|i: int|
        0 <= i < versions.len() && (#[trigger] versions[i]).role_id == role_id && source == (
        LinkSource::ProductVersion {
            jinxxy_user_id: versions[i].jinxxy_user_id,
            product_version_id: versions[i].product_version_id,
        })
}

/// The links of a guild are listed in full: under each role there is exactly what gives it, and there are no other
/// roles.
pub proof fn all_links_are_listed(
    stores: Vec<LinkedDisplayStore>,
    blanket_role_id: Option<u64>,
    products: Vec<ProductRoleLink>,
    versions: Vec<ProductVersionRoleLink>,
    links: Links,
    role_id: u64,
    source: LinkSource,
)
    requires
        call_ensures(Links::new, (stores, blanket_role_id, products, versions), links),
    ensures
        links.stores == stores,
        links.links@.contains_key(role_id) ==> links.links@[role_id]@.len() > 0,
        (links.links@.contains_key(role_id) && links.links@[role_id]@.contains(source)) <==> gives_role(
            blanket_role_id,
            products@,
            versions@,
            role_id,
            source,
        ),
{
    let blanket = if blanket_role_id == Some(role_id) {
        seq![LinkSource::GlobalBlanket]
    } else {
        Seq::empty()
    };
    let a = product_sources(products@, role_id);
    let b = version_sources(versions@, role_id);
    let all = role_sources(blanket_role_id, products@, versions@, role_id);
    assert(all == blanket + a + b);
    product_sources_are_those(products@, role_id, source);
    version_sources_are_those(versions@, role_id, source);
    if all.contains(source) {
        let k = choose|k: int| 0 <= k < all.len() && all[k] == source;
        if k < blanket.len() {
        } else if k < blanket.len() + a.len() {
            assert(a[k - blanket.len()] == source);
        } else {
            assert(b[k - blanket.len() - a.len()] == source);
        }
    }
    if gives_role(blanket_role_id, products@, versions@, role_id, source) {
        if blanket_role_id == Some(role_id) && source is GlobalBlanket {
            assert(all[0] == source);
        } else if a.contains(source) {
            let k = choose|k: int| 0 <= k < a.len() && a[k] == source;
            assert(all[blanket.len() + k] == source);
        } else {
            let k = choose|k: int| 0 <= k < b.len() && b[k] == source;
            assert(all[blanket.len() + a.len() + k] == source);
        }
        assert(all.len() > 0);
    }
    assert(links.links@.contains_key(role_id) <==> all.len() > 0);
}

/// Everything that has been added to the first major schema version, in order.
pub open spec fn v1_statements() -> Seq<Seq<char>> {
    seq![
        "ALTER TABLE guild ADD COLUMN log_channel_id INTEGER"@,
        "ALTER TABLE guild ADD COLUMN test INTEGER NOT NULL DEFAULT 0"@,
        "ALTER TABLE guild ADD COLUMN owner INTEGER NOT NULL DEFAULT 0"@,
        "ALTER TABLE guild RENAME COLUMN id TO guild_id"@,
        "ALTER TABLE guild ADD COLUMN gumroad_failure_count INTEGER NOT NULL DEFAULT 0"@,
        "ALTER TABLE guild ADD COLUMN gumroad_nag_count INTEGER NOT NULL DEFAULT 0"@,
        "ALTER TABLE guild ADD COLUMN blanket_role_id INTEGER"@,
        "ALTER TABLE guild ADD COLUMN cache_time_unix_ms INTEGER NOT NULL DEFAULT 0"@,
        "ALTER TABLE license_activation ADD COLUMN product_id TEXT"@,
        "ALTER TABLE license_activation ADD COLUMN version_id TEXT"@,
        "ALTER TABLE product ADD COLUMN etag BLOB"@,
    ]
}

/// A database of an older version gets all that was added since, in order, and a new one nothing. A newer one is
/// refused.
pub proof fn old_schemas_are_completed(recorded_version: Option<i32>, r: Result<Vec<String>, String>)
    requires
        call_ensures(pending_v1_upgrades, (recorded_version,), r),
    ensures
        r is Err <==> (recorded_version matches Some(version) && version > 9),
        recorded_version is None ==> r->Ok_0@.len() == 0,
        r matches Ok(statements) ==> (recorded_version matches Some(version) ==> statements@.map_values(|s: String| s@)
            == v1_statements().skip(
            if version < 2 {
                0
            } else if version == 2 {
                2
            } else if version == 3 {
                3
            } else if version == 4 {
                4
            } else if version == 5 {
                6
            } else if version == 6 {
                7
            } else if version == 7 {
                8
            } else if version == 8 {
                10
            } else {
                11
            },
        )),
{
    reveal_with_fuel(upgrades_from, 12);
    if let Ok(statements) = r {
        let version = match recorded_version {
            Some(version) => version,
            None => 9,
        };
        let all = v1_upgrades();
        let texts = statements@.map_values(|s: String| s@);
        assert(texts.len() == statements@.len());
        assert(texts == upgrades_from(all, version));
        if version < 2 {
            assert(texts =~= v1_statements().skip(0));
        } else if version == 2 {
            assert(texts =~= v1_statements().skip(2));
        } else if version == 3 {
            assert(texts =~= v1_statements().skip(3));
        } else if version == 4 {
            assert(texts =~= v1_statements().skip(4));
        } else if version == 5 {
            assert(texts =~= v1_statements().skip(6));
        } else if version == 6 {
            assert(texts =~= v1_statements().skip(7));
        } else if version == 7 {
            assert(texts =~= v1_statements().skip(8));
        } else if version == 8 {
            assert(texts =~= v1_statements().skip(10));
        } else {
            assert(texts =~= v1_statements().skip(11));
        }
    }
}

/// A schema of the second major version is refused exactly when its minor version is newer.
pub proof fn newer_schemas_are_refused(minor: Option<i32>, patch: Option<i32>, r: Result<(), String>)
    requires
        call_ensures(check_v2_schema, (minor, patch), r),
    ensures
        r is Err <==> (minor matches Some(minor) && minor > 0),
{
}

/// A migration is done exactly when there is something to migrate and nothing to overwrite.
pub proof fn nothing_is_overwritten(v1_db_exists: bool, v2_db_is_new: bool, r: Result<(), String>)
    requires
        call_ensures(check_migration, (v1_db_exists, v2_db_is_new), r),
    ensures
        r is Ok <==> v1_db_exists && v2_db_is_new,
{
}

} // verus!
