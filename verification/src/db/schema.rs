//! Versions of the database schema.

use crate::text::{decimal, u64_to_string};
use vstd::prelude::*;

verus! {

/// The latest version of the first major schema version
pub const DB_V1_SCHEMA_VERSION_VALUE: i32 = 9;

/// Increment this if there is a backwards-compatibility breaking schema change, such as deleting a column
pub const SCHEMA_MINOR_VERSION_VALUE: i32 = 0;

/// Increment this if there is a backwards-compatible change, such as adding a new column
pub const SCHEMA_PATCH_VERSION_VALUE: i32 = 0;

/// The statements that bring the first major schema version up to date, each with the version that it belongs to.
pub open spec fn v1_upgrades() -> Seq<(i32, Seq<char>)> {
    seq![
        (2i32, "ALTER TABLE guild ADD COLUMN log_channel_id INTEGER"@),
        (2i32, "ALTER TABLE guild ADD COLUMN test INTEGER NOT NULL DEFAULT 0"@),
        (3i32, "ALTER TABLE guild ADD COLUMN owner INTEGER NOT NULL DEFAULT 0"@),
        (4i32, "ALTER TABLE guild RENAME COLUMN id TO guild_id"@),
        (5i32, "ALTER TABLE guild ADD COLUMN gumroad_failure_count INTEGER NOT NULL DEFAULT 0"@),
        (5i32, "ALTER TABLE guild ADD COLUMN gumroad_nag_count INTEGER NOT NULL DEFAULT 0"@),
        (6i32, "ALTER TABLE guild ADD COLUMN blanket_role_id INTEGER"@),
        (7i32, "ALTER TABLE guild ADD COLUMN cache_time_unix_ms INTEGER NOT NULL DEFAULT 0"@),
        (8i32, "ALTER TABLE license_activation ADD COLUMN product_id TEXT"@),
        (8i32, "ALTER TABLE license_activation ADD COLUMN version_id TEXT"@),
        (9i32, "ALTER TABLE product ADD COLUMN etag BLOB"@),
    ]
}

/// The statements that a version lacks, in order.
pub open spec fn upgrades_from(upgrades: Seq<(i32, Seq<char>)>, version: i32) -> Seq<Seq<char>>
    decreases upgrades.len(),
{
    if upgrades.len() == 0 {
        Seq::empty()
    } else if version < upgrades.last().0 {
        upgrades_from(upgrades.drop_last(), version).push(upgrades.last().1)
    } else {
        upgrades_from(upgrades.drop_last(), version)
    }
}

/// What an error says about a schema that is too new.
pub open spec fn v1_too_new(version: i32) -> Seq<char> {
    "db schema version is v"@ + decimal(version as nat)
        + ", which is newer than v9 which is the latest schema this Jinx build supports."@
}

/// The statements that bring the first major schema version up to date. A database without a recorded version is
/// new, and lacks nothing. A schema that is newer than this build knows is an error.
pub fn pending_v1_upgrades(recorded_version: Option<i32>) -> (r: Result<Vec<String>, String>)
    ensures
        ({
            let version = match recorded_version {
                Some(version) => version,
                None => DB_V1_SCHEMA_VERSION_VALUE,
            };
            &&& r is Ok <==> version <= DB_V1_SCHEMA_VERSION_VALUE
            &&& r matches Ok(statements) ==> statements@.map_values(|s: String| s@) == upgrades_from(
                v1_upgrades(),
                version,
            )
            &&& r matches Err(message) ==> message@ == v1_too_new(version)
        }),
{
    let version: i32 = match recorded_version {
        Some(version) => version,
        None => DB_V1_SCHEMA_VERSION_VALUE,
    };
    // handle schema downgrade (or rather, DON'T handle it and throw an error)
    if version > DB_V1_SCHEMA_VERSION_VALUE {
        return Err(
            "db schema version is v".to_owned().concat(u64_to_string(version as u64).as_str()).concat(
                ", which is newer than v9 which is the latest schema this Jinx build supports.",
            ),
        );
    }
    let upgrades: Vec<(i32, &str)> = vec![
        (2, "ALTER TABLE guild ADD COLUMN log_channel_id INTEGER"),
        (2, "ALTER TABLE guild ADD COLUMN test INTEGER NOT NULL DEFAULT 0"),
        (3, "ALTER TABLE guild ADD COLUMN owner INTEGER NOT NULL DEFAULT 0"),
        (4, "ALTER TABLE guild RENAME COLUMN id TO guild_id"),
        (5, "ALTER TABLE guild ADD COLUMN gumroad_failure_count INTEGER NOT NULL DEFAULT 0"),
        (5, "ALTER TABLE guild ADD COLUMN gumroad_nag_count INTEGER NOT NULL DEFAULT 0"),
        (6, "ALTER TABLE guild ADD COLUMN blanket_role_id INTEGER"),
        (7, "ALTER TABLE guild ADD COLUMN cache_time_unix_ms INTEGER NOT NULL DEFAULT 0"),
        (8, "ALTER TABLE license_activation ADD COLUMN product_id TEXT"),
        (8, "ALTER TABLE license_activation ADD COLUMN version_id TEXT"),
        (9, "ALTER TABLE product ADD COLUMN etag BLOB"),
    ];
    let ghost all = v1_upgrades();
    let mut statements: Vec<String> = Vec::new();
    proof {
        assert(statements@.map_values(|s: String| s@) =~= upgrades_from(all.take(0), version));
    }
    for i in 0..upgrades.len()
        invariant
            all == v1_upgrades(),
            upgrades@.len() == all.len(),
            forall|j: int|
                0 <= j < all.len() ==> (#[trigger] upgrades@[j]).0 == all[j].0 && upgrades@[j].1@ == all[j].1,
            statements@.map_values(|s: String| s@) == upgrades_from(all.take(i as int), version),
    {
        proof {
            assert(all.take(i + 1).drop_last() =~= all.take(i as int));
            assert(all.take(i + 1).last() == all[i as int]);
        }
        if version < upgrades[i].0 {
            let ghost before = statements@;
            statements.push(upgrades[i].1.to_owned());
            proof {
                assert(statements@.map_values(|s: String| s@) =~= before.map_values(|s: String| s@).push(
                    all[i as int].1,
                ));
            }
        }
    }
    proof {
        assert(all.take(all.len() as int) =~= all);
    }
    Ok(statements)
}

/// An up to date schema lacks nothing.
pub proof fn current_schema_lacks_nothing()
    ensures
        upgrades_from(v1_upgrades(), DB_V1_SCHEMA_VERSION_VALUE) == Seq::<Seq<char>>::empty(),
{
    no_upgrades(v1_upgrades(), DB_V1_SCHEMA_VERSION_VALUE);
}

proof fn no_upgrades(upgrades: Seq<(i32, Seq<char>)>, version: i32)
    requires
        forall|i: int| 0 <= i < upgrades.len() ==> (#[trigger] upgrades[i]).0 <= version,
    ensures
        upgrades_from(upgrades, version) == Seq::<Seq<char>>::empty(),
    decreases upgrades.len(),
{
    if upgrades.len() > 0 {
        assert(upgrades[upgrades.len() - 1].0 <= version);
        no_upgrades(upgrades.drop_last(), version);
    }
}

/// The decimal notation of a number that may be negative.
pub open spec fn signed_decimal(n: int) -> Seq<char> {
    if n < 0 {
        "-"@ + decimal((-n) as nat)
    } else {
        decimal(n as nat)
    }
}

fn i32_to_string(n: i32) -> (r: String)
    ensures
        r@ == signed_decimal(n as int),
{
    if n < 0 {
        "-".to_owned().concat(u64_to_string((-(n as i64)) as u64).as_str())
    } else {
        u64_to_string(n as u64)
    }
}

/// Check that the second major schema version is not newer than this build knows. Only the minor version counts.
pub fn check_v2_schema(recorded_minor: Option<i32>, recorded_patch: Option<i32>) -> (r: Result<(), String>)
    ensures
        ({
            let minor = match recorded_minor {
                Some(minor) => minor,
                None => SCHEMA_MINOR_VERSION_VALUE,
            };
            let patch = match recorded_patch {
                Some(patch) => patch,
                None => SCHEMA_PATCH_VERSION_VALUE,
            };
            &&& r is Ok <==> minor <= SCHEMA_MINOR_VERSION_VALUE
            &&& r matches Err(message) ==> message@ == "db schema version is v2."@ + signed_decimal(minor as int) + "."@
                + signed_decimal(patch as int)
                + ", which is newer than v2.0 which is the latest schema this Jinx build supports."@
        }),
{
    let minor: i32 = match recorded_minor {
        Some(minor) => minor,
        None => SCHEMA_MINOR_VERSION_VALUE,
    };
    let patch: i32 = match recorded_patch {
        Some(patch) => patch,
        None => SCHEMA_PATCH_VERSION_VALUE,
    };
    // handle schema downgrade (or rather, DON'T handle it and throw an error)
    if minor > SCHEMA_MINOR_VERSION_VALUE {
        return Err(
            "db schema version is v2.".to_owned().concat(i32_to_string(minor).as_str()).concat(".").concat(
                i32_to_string(patch).as_str(),
            ).concat(", which is newer than v2.0 which is the latest schema this Jinx build supports."),
        );
    }
    Ok(())
}

/// Check that there is a database of the first major version to migrate, and none of the second that it would be
/// migrated into.
pub fn check_migration(v1_db_exists: bool, v2_db_is_new: bool) -> (r: Result<(), String>)
    ensures
        r is Ok <==> v1_db_exists && v2_db_is_new,
        r matches Err(message) ==> message@ == (if v1_db_exists {
            "attempted to perform v1->v2 DB migration into an existing v2 DB"@
        } else {
            "attempted to perform v1->v2 DB migration when v1 DB does not exist"@
        }),
{
    if v1_db_exists {
        if v2_db_is_new {
            Ok(())
        } else {
            Err("attempted to perform v1->v2 DB migration into an existing v2 DB".to_owned())
        }
    } else {
        Err("attempted to perform v1->v2 DB migration when v1 DB does not exist".to_owned())
    }
}

} // verus!
