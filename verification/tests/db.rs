//! What is kept in the database

use jinx::db::migration::{
    migrate_guilds, migrate_license_activations, migrate_links, migrate_product_roles, migrate_product_version_roles,
    migrate_product_versions, migrate_products, migrate_users, GuildRowV1, GuildStores, LicenseActivationRowV1,
    ProductRoleRowV1, ProductRowV1, ProductVersionRoleRowV1, ProductVersionRowV1,
};
use jinx::db::roles::{role_grants, roles_to_restore, RecordedActivation};
use jinx::db::schema::{check_migration, check_v2_schema, pending_v1_upgrades};
use jinx::db::{
    escape_like, id_from_db, id_to_db, needs_gumroad_nag, stale_product_versions, stale_products,
    username_prefix_pattern, LinkSource, LinkedDisplayStore, Links, ProductRoleLink, ProductVersionRoleLink,
};
use jinx::http::jinxxy::{ProductNameInfo, ProductNameInfoValue, ProductVersionId, ProductVersionNameInfo};

#[test]
fn test_escape_like_none() {
    assert_eq!(escape_like("hello"), "hello");
}

#[test]
fn test_escape_like_empty() {
    assert_eq!(escape_like(""), "");
}

#[test]
fn test_escape_like_percent() {
    assert_eq!(escape_like("foo%bar"), "foo?%bar");
}

#[test]
fn test_escape_like_underscore() {
    assert_eq!(escape_like("foo_bar"), "foo?_bar");
}

#[test]
fn test_escape_like_question() {
    assert_eq!(escape_like("foo?bar"), "foo??bar");
}

#[test]
fn test_escape_like_multiple() {
    assert_eq!(escape_like("%_?"), "?%?_??");
}

#[test]
fn test_escape_like_multiple_same() {
    assert_eq!(escape_like("???"), "??????");
}

#[test]
fn prefixes_become_patterns() {
    assert_eq!(username_prefix_pattern("a_b"), "a?_b%");
    assert_eq!(username_prefix_pattern(""), "%");
    assert_eq!(username_prefix_pattern("→%"), "→?%%");
}

#[test]
fn ids_survive_the_database() {
    for id in [
        0,
        0x7F,
        0x80,
        0x81,
        0x7FFF_FFFF_FFFF_FFFF,
        0x8000_0000_0000_0000,
        0x8000_0000_0000_0001,
        0xFFFF_FFFF_FFFF_FFFF,
    ] {
        assert_eq!(id_from_db(id_to_db(id)), id);
        assert_eq!(id_to_db(id), id as i64);
    }
    assert_eq!(id_to_db(u64::MAX), -1);
    assert_eq!(id_from_db(i64::MIN), 0x8000_0000_0000_0000);
}

fn version_id(product_id: &str, version: Option<&str>) -> ProductVersionId {
    ProductVersionId {
        product_id: product_id.to_string(),
        product_version_id: version.map(|version| version.to_string()),
    }
}

#[test]
fn product_versions_survive_the_database() {
    for version in [None, Some("v")] {
        let id = version_id("p", version);
        assert_eq!(id.as_db_values(), ("p", version.unwrap_or("")));
        let (product_id, version_text) = id.copied().into_db_values();
        assert_eq!(ProductVersionId::from_db_values(product_id, version_text), id);
    }
    // an empty version ID is none
    assert_eq!(
        ProductVersionId::from_db_values("p".to_string(), String::new()),
        version_id("p", None)
    );
}

#[test]
fn links_are_grouped_by_role() {
    let product = |role_id: u64, product_id: &str| ProductRoleLink {
        role_id,
        jinxxy_user_id: "store".to_string(),
        product_id: product_id.to_string(),
    };
    let stores = vec![LinkedDisplayStore {
        jinxxy_user_id: "store".to_string(),
        jinxxy_username: None,
    }];
    let links = Links::new(
        stores,
        Some(1),
        vec![product(2, "a"), product(1, "b"), product(2, "c")],
        vec![ProductVersionRoleLink {
            role_id: 3,
            jinxxy_user_id: "store".to_string(),
            product_version_id: version_id("d", None),
        }],
    );
    assert_eq!(links.stores.len(), 1);
    assert_eq!(links.links.len(), 3);
    let one = &links.links[&1];
    assert!(matches!(one[0], LinkSource::GlobalBlanket));
    assert!(matches!(&one[1], LinkSource::ProductBlanket { product_id, .. } if product_id == "b"));
    let two = &links.links[&2];
    assert_eq!(two.len(), 2);
    assert!(matches!(&two[0], LinkSource::ProductBlanket { product_id, .. } if product_id == "a"));
    assert!(matches!(&two[1], LinkSource::ProductBlanket { product_id, .. } if product_id == "c"));
    assert!(matches!(
        &links.links[&3][0],
        LinkSource::ProductVersion { product_version_id, .. } if *product_version_id == version_id("d", None)
    ));
    let none = Links::new(Vec::new(), None, Vec::new(), Vec::new());
    assert!(none.links.is_empty());
}

#[test]
fn licenses_give_roles() {
    let product = |role_id: u64, product_id: &str| ProductRoleLink {
        role_id,
        jinxxy_user_id: "store".to_string(),
        product_id: product_id.to_string(),
    };
    let version = |role_id: u64, id: ProductVersionId| ProductVersionRoleLink {
        role_id,
        jinxxy_user_id: "store".to_string(),
        product_version_id: id,
    };
    let products = [product(9, "a"), product(2, "b"), product(5, "a"), product(3, "a")];
    let versions = [
        version(4, version_id("a", Some("v"))),
        version(5, version_id("a", Some("v"))),
        version(6, version_id("a", Some("w"))),
        version(7, version_id("a", None)),
        version(8, version_id("b", None)),
    ];
    let grants = |blanket: Option<u64>, id: ProductVersionId| role_grants(blanket, &products, &versions, &id);
    assert_eq!(grants(None, version_id("a", Some("v"))), vec![3, 4, 5, 9]);
    assert_eq!(grants(Some(4), version_id("a", Some("v"))), vec![3, 4, 5, 9]);
    assert_eq!(grants(Some(10), version_id("a", None)), vec![3, 5, 7, 9, 10]);
    assert_eq!(grants(Some(1), version_id("a", Some(""))), vec![1, 3, 5, 7, 9]);
    assert_eq!(grants(Some(1), version_id("c", None)), vec![1]);
    assert!(grants(None, version_id("c", None)).is_empty());
}

#[test]
fn stale_names_are_found() {
    let product = |id: &str| ProductNameInfo {
        id: id.to_string(),
        value: ProductNameInfoValue {
            product_name: "x".to_string(),
            etag: None,
        },
    };
    let existing = vec!["1".to_string(), "2".to_string(), "3".to_string()];
    assert_eq!(stale_products(&[product("2")], existing), vec!["1", "3"]);
    let version = |id: ProductVersionId| ProductVersionNameInfo {
        id,
        product_version_name: "x".to_string(),
    };
    let key = |product_id: &str, version_id: &str| (product_id.to_string(), version_id.to_string());
    let existing = vec![key("1", ""), key("1", "a"), key("2", "a"), key("2", "")];
    let infos = [version(version_id("1", None)), version(version_id("2", Some("a")))];
    assert_eq!(stale_product_versions(&infos, existing), vec![key("1", "a"), key("2", "")]);
}

#[test]
fn gumroad_nags() {
    assert!(needs_gumroad_nag(0, 10, 49));
    assert!(!needs_gumroad_nag(0, 10, 50));
    assert!(!needs_gumroad_nag(0, 9, 0));
    assert!(!needs_gumroad_nag(1, 100, 0));
    assert!(needs_gumroad_nag(0, u64::MAX, u64::MAX));
}

#[test]
fn schema_upgrades() {
    assert!(pending_v1_upgrades(None).expect("a new schema").is_empty());
    assert!(pending_v1_upgrades(Some(9)).expect("a current schema").is_empty());
    assert_eq!(
        pending_v1_upgrades(Some(7)).expect("an old schema"),
        vec![
            "ALTER TABLE license_activation ADD COLUMN product_id TEXT",
            "ALTER TABLE license_activation ADD COLUMN version_id TEXT",
            "ALTER TABLE product ADD COLUMN etag BLOB",
        ]
    );
    assert_eq!(pending_v1_upgrades(Some(1)).expect("the oldest schema").len(), 11);
    assert_eq!(
        pending_v1_upgrades(Some(10)).expect_err("a schema from the future"),
        "db schema version is v10, which is newer than v9 which is the latest schema this Jinx build supports."
    );
}

#[test]
fn schema_checks() {
    assert!(check_v2_schema(None, None).is_ok());
    assert!(check_v2_schema(Some(0), Some(7)).is_ok());
    assert_eq!(
        check_v2_schema(Some(1), Some(-2)).expect_err("a schema from the future"),
        "db schema version is v2.1.-2, which is newer than v2.0 which is the latest schema this Jinx build supports."
    );
    assert!(check_migration(true, true).is_ok());
    assert_eq!(
        check_migration(true, false).expect_err("there is a database already"),
        "attempted to perform v1->v2 DB migration into an existing v2 DB"
    );
    assert_eq!(
        check_migration(false, true).expect_err("there is nothing to migrate"),
        "attempted to perform v1->v2 DB migration when v1 DB does not exist"
    );
}

fn guild(guild_id: i64, store: &str, username: Option<&str>, cache_time: i64) -> GuildRowV1 {
    GuildRowV1 {
        guild_id,
        jinxxy_api_key: Some(format!("key{guild_id}")),
        log_channel_id: Some(100 + guild_id),
        test: 0,
        owner: 1,
        gumroad_failure_count: 2,
        gumroad_nag_count: 3,
        cache_time_unix_ms: cache_time,
        blanket_role_id: None,
        jinxxy_user_id: Some(store.to_string()),
        jinxxy_username: username.map(|username| username.to_string()),
    }
}

fn guilds() -> Vec<GuildRowV1> {
    vec![
        guild(1, "a", Some("old"), 50),
        guild(2, "b", None, 10),
        guild(3, "a", Some("new"), 20),
        guild(4, "a", None, 30),
    ]
}

#[test]
fn stores_are_merged() {
    let users = migrate_users(&guilds());
    assert_eq!(users.len(), 2);
    assert_eq!(users[0].jinxxy_user_id, "a");
    assert_eq!(users[0].jinxxy_username.as_deref(), Some("new"));
    assert_eq!(users[0].cache_time_unix_ms, 50);
    assert_eq!(users[1].jinxxy_user_id, "b");
    assert_eq!(users[1].jinxxy_username, None);
    assert_eq!(users[1].cache_time_unix_ms, 10);
}

#[test]
fn guilds_are_migrated() {
    let rows = migrate_guilds(&guilds());
    assert_eq!(rows.len(), 4);
    assert_eq!(rows[2].guild_id, 3);
    assert_eq!(rows[2].log_channel_id, Some(103));
    assert_eq!((rows[2].test, rows[2].owner), (0, 1));
    assert_eq!((rows[2].gumroad_failure_count, rows[2].gumroad_nag_count), (2, 3));
    assert_eq!(rows[2].default_jinxxy_user, "a");
    let links = migrate_links(&guilds());
    assert_eq!(links[1].jinxxy_user_id, "b");
    assert_eq!(links[1].guild_id, 2);
    assert_eq!(links[1].jinxxy_api_key, "key2");
}

#[test]
fn products_are_merged() {
    let stores = GuildStores::new(&guilds());
    let product = |guild_id: i64, product_id: &str, name: &str| ProductRowV1 {
        guild_id,
        product_id: product_id.to_string(),
        product_name: name.to_string(),
        etag: None,
    };
    let rows = migrate_products(
        &stores,
        vec![product(1, "p", "first"), product(2, "p", "other"), product(3, "p", "second")],
    );
    assert_eq!(rows.len(), 2);
    assert_eq!(rows[0].jinxxy_user_id, "a");
    assert_eq!(rows[0].product_name, "first");
    assert_eq!(rows[1].jinxxy_user_id, "b");
    let version = |guild_id: i64, version_id: &str| ProductVersionRowV1 {
        guild_id,
        product_id: "p".to_string(),
        version_id: version_id.to_string(),
        product_version_name: format!("name{guild_id}"),
    };
    let rows = migrate_product_versions(&stores, vec![version(1, "v"), version(3, "v"), version(3, "w")]);
    assert_eq!(rows.len(), 2);
    assert_eq!(rows[0].product_version_name, "name1");
    assert_eq!(rows[1].version_id, "w");
}

#[test]
fn roles_are_migrated() {
    let stores = GuildStores::new(&guilds());
    let role = |guild_id: i64, role_id: i64| ProductRoleRowV1 {
        guild_id,
        product_id: "p".to_string(),
        role_id,
    };
    // links of different guilds are different, even at the same store
    let rows = migrate_product_roles(&stores, vec![role(1, 7), role(3, 7), role(1, 7)]);
    assert_eq!(rows.len(), 2);
    assert_eq!((rows[1].guild_id, rows[1].role_id), (3, 7));
    let role = |guild_id: i64, version_id: &str| ProductVersionRoleRowV1 {
        guild_id,
        product_id: "p".to_string(),
        version_id: version_id.to_string(),
        role_id: 7,
    };
    let rows = migrate_product_version_roles(&stores, vec![role(1, ""), role(1, "v"), role(2, "")]);
    assert_eq!(rows.len(), 3);
    assert_eq!(rows[2].jinxxy_user_id, "b");
}

#[test]
fn activations_are_merged() {
    let stores = GuildStores::new(&guilds());
    let activation = |guild_id: i64, product: &str, version: Option<&str>| LicenseActivationRowV1 {
        guild_id,
        license_id: "l".to_string(),
        license_activation_id: "x".to_string(),
        user_id: -5,
        product_id: Some(product.to_string()),
        version_id: version.map(|version| version.to_string()),
    };
    let rows = migrate_license_activations(
        &stores,
        vec![
            activation(1, "p", Some("v")),
            activation(2, "q", Some("")),
            activation(3, "r", Some("")),
        ],
    );
    assert_eq!(rows.len(), 2);
    assert_eq!(rows[0].jinxxy_user_id, "a");
    assert_eq!(rows[0].activator_user_id, -5);
    // the newer product counts, and the version that is known
    assert_eq!(rows[0].product_id, "r");
    assert_eq!(rows[0].version_id.as_deref(), Some("v"));
    assert_eq!(rows[1].version_id, None);
}

#[test]
fn rejoining_users_get_their_roles_back() {
    let version = |product_id: &str, version_id: Option<&str>| ProductVersionId {
        product_id: product_id.to_string(),
        product_version_id: version_id.map(|id| id.to_string()),
    };
    let products = [ProductRoleLink {
        role_id: 30,
        jinxxy_user_id: "s".to_string(),
        product_id: "p".to_string(),
    }];
    let versions = [ProductVersionRoleLink {
        role_id: 20,
        jinxxy_user_id: "s".to_string(),
        product_version_id: version("q", Some("1")),
    }];
    let activation = |license_id: &str, activator_user_id: u64, product_version_id: Option<ProductVersionId>| {
        RecordedActivation {
            jinxxy_user_id: "s".to_string(),
            license_id: license_id.to_string(),
            activator_user_id,
            product_version_id,
        }
    };
    let activations = [
        activation("a", 5, Some(version("p", Some("1")))),
        activation("b", 5, Some(version("q", Some("1")))),
        activation("c", 6, Some(version("q", Some("2")))),
        activation("d", 7, Some(version("p", None))),
        activation("d", 0, None),
        activation("e", 8, None),
    ];
    let restored =
        |user_id: u64, blanket: Option<u64>| roles_to_restore(user_id, &activations, blanket, &products, &versions);
    assert_eq!(restored(5, None), vec![20, 30]);
    assert_eq!(restored(5, Some(25)), vec![20, 25, 30]);
    // another version of the product
    assert!(restored(6, None).is_empty());
    assert_eq!(restored(6, Some(25)), vec![25]);
    // the license is locked
    assert!(restored(7, Some(25)).is_empty());
    assert!(restored(0, Some(25)).is_empty());
    // the product is not known
    assert_eq!(restored(8, Some(25)), vec![25]);
    assert!(restored(8, None).is_empty());
    // nothing was activated
    assert!(restored(9, Some(25)).is_empty());
}
