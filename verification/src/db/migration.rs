//! The migration of the database from its first major version, in which everything belonged to a guild, to its
//! second, in which a guild is linked to any number of stores and what is known of a store is shared.
//!
//! All functions here take rows of the first version and give rows of the second.

use std::collections::HashMap;
use vstd::prelude::*;

verus! {

/// A guild, with the one store that it belonged to
#[derive(Debug)]
pub struct GuildRowV1 {
    pub guild_id: i64,
    pub jinxxy_api_key: Option<String>,
    pub log_channel_id: Option<i64>,
    pub test: i64,
    pub owner: i64,
    pub gumroad_failure_count: i64,
    pub gumroad_nag_count: i64,
    pub cache_time_unix_ms: i64,
    pub blanket_role_id: Option<i64>,
    pub jinxxy_user_id: Option<String>,
    pub jinxxy_username: Option<String>,
}

#[derive(Debug)]
pub struct ProductRowV1 {
    pub guild_id: i64,
    pub product_id: String,
    pub product_name: String,
    pub etag: Option<Vec<u8>>,
}

#[derive(Debug)]
pub struct ProductVersionRowV1 {
    pub guild_id: i64,
    pub product_id: String,
    pub version_id: String,
    pub product_version_name: String,
}

#[derive(Debug)]
pub struct ProductRoleRowV1 {
    pub guild_id: i64,
    pub product_id: String,
    pub role_id: i64,
}

#[derive(Debug)]
pub struct ProductVersionRoleRowV1 {
    pub guild_id: i64,
    pub product_id: String,
    pub version_id: String,
    pub role_id: i64,
}

#[derive(Debug)]
pub struct LicenseActivationRowV1 {
    pub guild_id: i64,
    pub license_id: String,
    pub license_activation_id: String,
    pub user_id: i64,
    pub product_id: Option<String>,
    pub version_id: Option<String>,
}

/// A store
#[derive(Debug)]
pub struct JinxxyUserRow {
    pub jinxxy_user_id: String,
    pub jinxxy_username: Option<String>,
    pub cache_time_unix_ms: i64,
}

/// A guild
#[derive(Debug)]
pub struct GuildRow {
    pub guild_id: i64,
    pub log_channel_id: Option<i64>,
    pub test: i64,
    pub owner: i64,
    pub gumroad_failure_count: i64,
    pub gumroad_nag_count: i64,
    pub blanket_role_id: Option<i64>,
    pub default_jinxxy_user: String,
}

/// A link between a store and a guild
#[derive(Debug)]
pub struct JinxxyUserGuildRow {
    pub jinxxy_user_id: String,
    pub guild_id: i64,
    pub jinxxy_api_key: String,
}

#[derive(Debug)]
pub struct ProductRow {
    pub jinxxy_user_id: String,
    pub product_id: String,
    pub product_name: String,
    pub etag: Option<Vec<u8>>,
}

#[derive(Debug)]
pub struct ProductVersionRow {
    pub jinxxy_user_id: String,
    pub product_id: String,
    pub version_id: String,
    pub product_version_name: String,
}

#[derive(Debug)]
pub struct ProductRoleRow {
    pub jinxxy_user_id: String,
    pub guild_id: i64,
    pub product_id: String,
    pub role_id: i64,
}

#[derive(Debug)]
pub struct ProductVersionRoleRow {
    pub jinxxy_user_id: String,
    pub guild_id: i64,
    pub product_id: String,
    pub version_id: String,
    pub role_id: i64,
}

#[derive(Debug)]
pub struct LicenseActivationRow {
    pub jinxxy_user_id: String,
    pub license_id: String,
    pub activator_user_id: i64,
    pub license_activation_id: String,
    pub product_id: String,
    pub version_id: Option<String>,
}

/// Whether every guild has a store and an API key. A guild without them cannot be migrated.
pub open spec fn all_linked(guilds: Seq<GuildRowV1>) -> bool {
    forall|i: int|
        0 <= i < guilds.len() ==> (#[trigger] guilds[i]).jinxxy_api_key is Some && guilds[i].jinxxy_user_id is Some
}

/// The store of each guild.
pub open spec fn stores_of(guilds: Seq<GuildRowV1>) -> Map<i64, String>
    decreases guilds.len(),
{
    if guilds.len() == 0 {
        Map::empty()
    } else {
        stores_of(guilds.drop_last()).insert(guilds.last().guild_id, guilds.last().jinxxy_user_id->0)
    }
}

/// The position of a store, or the number of stores if it is not among them.
pub open spec fn store_position(users: Seq<JinxxyUserRow>, jinxxy_user_id: Seq<char>) -> int
    decreases users.len(),
{
    if users.len() == 0 || users.first().jinxxy_user_id@ == jinxxy_user_id {
        0
    } else {
        1 + store_position(users.drop_first(), jinxxy_user_id)
    }
}

/// What two guilds know of the same store together: the later cache time counts, and the newer username if
/// there is one.
pub open spec fn merged_user(known: JinxxyUserRow, new: JinxxyUserRow) -> JinxxyUserRow {
    JinxxyUserRow {
        jinxxy_user_id: known.jinxxy_user_id,
        jinxxy_username: if new.jinxxy_username is Some {
            new.jinxxy_username
        } else {
            known.jinxxy_username
        },
        cache_time_unix_ms: if new.cache_time_unix_ms > known.cache_time_unix_ms {
            new.cache_time_unix_ms
        } else {
            known.cache_time_unix_ms
        },
    }
}

/// The stores with what a guild knows of its store.
pub open spec fn with_user(users: Seq<JinxxyUserRow>, user: JinxxyUserRow) -> Seq<JinxxyUserRow> {
    let position = store_position(users, user.jinxxy_user_id@);
    if position < users.len() {
        users.update(position, merged_user(users[position], user))
    } else {
        users.push(user)
    }
}

/// What a guild knows of its store.
pub open spec fn user_of(guild: GuildRowV1) -> JinxxyUserRow {
    JinxxyUserRow {
        jinxxy_user_id: guild.jinxxy_user_id->0,
        jinxxy_username: guild.jinxxy_username,
        cache_time_unix_ms: guild.cache_time_unix_ms,
    }
}

/// The stores of all guilds, each of them once.
pub open spec fn merged_users(guilds: Seq<GuildRowV1>) -> Seq<JinxxyUserRow>
    decreases guilds.len(),
{
    if guilds.len() == 0 {
        Seq::empty()
    } else {
        with_user(merged_users(guilds.drop_last()), user_of(guilds.last()))
    }
}

/// A guild without what belongs to its store.
pub open spec fn guild_of(guild: GuildRowV1) -> GuildRow {
    GuildRow {
        guild_id: guild.guild_id,
        log_channel_id: guild.log_channel_id,
        test: guild.test,
        owner: guild.owner,
        gumroad_failure_count: guild.gumroad_failure_count,
        gumroad_nag_count: guild.gumroad_nag_count,
        blanket_role_id: guild.blanket_role_id,
        default_jinxxy_user: guild.jinxxy_user_id->0,
    }
}

/// The link between a guild and its store.
pub open spec fn link_of(guild: GuildRowV1) -> JinxxyUserGuildRow {
    JinxxyUserGuildRow {
        jinxxy_user_id: guild.jinxxy_user_id->0,
        guild_id: guild.guild_id,
        jinxxy_api_key: guild.jinxxy_api_key->0,
    }
}

proof fn store_position_is_first(users: Seq<JinxxyUserRow>, jinxxy_user_id: Seq<char>)
    ensures
        0 <= store_position(users, jinxxy_user_id) <= users.len(),
        store_position(users, jinxxy_user_id) < users.len() ==> users[store_position(
            users,
            jinxxy_user_id,
        )].jinxxy_user_id@ == jinxxy_user_id,
        forall|i: int|
            0 <= i < store_position(users, jinxxy_user_id) ==> (#[trigger] users[i]).jinxxy_user_id@ != jinxxy_user_id,
    decreases users.len(),
{
    if users.len() == 0 || users.first().jinxxy_user_id@ == jinxxy_user_id {
    } else {
        let rest = users.drop_first();
        store_position_is_first(rest, jinxxy_user_id);
        let p = store_position(rest, jinxxy_user_id);
        assert(p < rest.len() ==> rest[p] == users[p + 1]);
        assert forall|i: int| 0 <= i < p + 1 implies (#[trigger] users[i]).jinxxy_user_id@ != jinxxy_user_id by {
            if i > 0 {
                assert(rest[i - 1] == users[i]);
            }
        }
    }
}

/// The store of each guild, to find the store that a row belongs to
#[derive(Debug)]
pub struct GuildStores {
    pub stores: HashMap<i64, String>,
}

impl GuildStores {
    /// The store of each guild.
    pub open spec fn view(self) -> Map<i64, String> {
        self.stores@
    }

    /// Collect the stores of guilds
    pub fn new(guilds: &[GuildRowV1]) -> (r: GuildStores)
        requires
            all_linked(guilds@),
        ensures
            r.view() == stores_of(guilds@),
    {
        broadcast use vstd::std_specs::hash::group_hash_axioms;

        let mut stores: HashMap<i64, String> = HashMap::new();
        proof {
            assert(stores@ =~= stores_of(guilds@.take(0)));
        }
        for i in 0..guilds.len()
            invariant
                all_linked(guilds@),
                stores@ == stores_of(guilds@.take(i as int)),
        {
            broadcast use vstd::std_specs::hash::group_hash_axioms;

            proof {
                assert(guilds@.take(i + 1).drop_last() =~= guilds@.take(i as int));
                assert(guilds@[i as int].jinxxy_user_id is Some);
            }
            if let Some(jinxxy_user_id) = &guilds[i].jinxxy_user_id {
                stores.insert(guilds[i].guild_id, jinxxy_user_id.clone());
            }
        }
        proof {
            assert(guilds@.take(guilds@.len() as int) =~= guilds@);
        }
        GuildStores { stores }
    }

    /// The store of a guild
    pub fn store(&self, guild_id: i64) -> (r: String)
        requires
            self.view().contains_key(guild_id),
        ensures
            r == self.view()[guild_id],
    {
        broadcast use vstd::std_specs::hash::group_hash_axioms;

        match self.stores.get(&guild_id) {
            Some(store) => store.clone(),
            None => String::new(),
        }
    }
}

/// The stores of all guilds, each of them once
pub fn migrate_users(guilds: &[GuildRowV1]) -> (r: Vec<JinxxyUserRow>)
    requires
        all_linked(guilds@),
    ensures
        r@ == merged_users(guilds@),
{
    let mut users: Vec<JinxxyUserRow> = Vec::new();
    for i in 0..guilds.len()
        invariant
            all_linked(guilds@),
            users@ == merged_users(guilds@.take(i as int)),
    {
        proof {
            assert(guilds@.take(i + 1).drop_last() =~= guilds@.take(i as int));
            assert(guilds@[i as int].jinxxy_user_id is Some);
        }
        if let Some(jinxxy_user_id) = &guilds[i].jinxxy_user_id {
            let user = JinxxyUserRow {
                jinxxy_user_id: jinxxy_user_id.clone(),
                jinxxy_username: copy_option(&guilds[i].jinxxy_username),
                cache_time_unix_ms: guilds[i].cache_time_unix_ms,
            };
            add_user(&mut users, user);
        }
    }
    proof {
        assert(guilds@.take(guilds@.len() as int) =~= guilds@);
    }
    users
}

fn copy_option(text: &Option<String>) -> (r: Option<String>)
    ensures
        r == *text,
{
    match text {
        Some(text) => Some(text.clone()),
        None => None,
    }
}

fn add_user(users: &mut Vec<JinxxyUserRow>, user: JinxxyUserRow)
    ensures
        final(users)@ == with_user(old(users)@, user),
{
    let ghost all = users@;
    let mut position: usize = 0;
    proof {
        assert(all.skip(0) =~= all);
        store_position_is_first(all, user.jinxxy_user_id@);
    }
    while position < users.len() && users[position].jinxxy_user_id != user.jinxxy_user_id
        invariant
            users@ == all,
            position <= all.len(),
            store_position(all, user.jinxxy_user_id@) == position + store_position(
                all.skip(position as int),
                user.jinxxy_user_id@,
            ),
        decreases all.len() - position,
    {
        proof {
            assert(all.skip(position as int).first() == all[position as int]);
            assert(all.skip(position as int).drop_first() =~= all.skip(position + 1));
        }
        position = position + 1;
    }
    proof {
        if position < all.len() {
            assert(all.skip(position as int).first() == all[position as int]);
        }
        assert(store_position(all, user.jinxxy_user_id@) == position);
    }
    if position < users.len() {
        let known = users.remove(position);
        let cache_time_unix_ms: i64 = if user.cache_time_unix_ms > known.cache_time_unix_ms {
            user.cache_time_unix_ms
        } else {
            known.cache_time_unix_ms
        };
        let jinxxy_username = match user.jinxxy_username {
            Some(username) => Some(username),
            None => known.jinxxy_username,
        };
        users.insert(
            position,
            JinxxyUserRow { jinxxy_user_id: known.jinxxy_user_id, jinxxy_username, cache_time_unix_ms },
        );
        proof {
            assert(users@ =~= with_user(all, user));
        }
    } else {
        users.push(user);
    }
}

/// The guilds, each without what belongs to its store
pub fn migrate_guilds(guilds: &[GuildRowV1]) -> (r: Vec<GuildRow>)
    requires
        all_linked(guilds@),
    ensures
        r@ == guilds@.map_values(|guild: GuildRowV1| guild_of(guild)),
{
    let mut rows: Vec<GuildRow> = Vec::new();
    for i in 0..guilds.len()
        invariant
            all_linked(guilds@),
            rows@.len() == i,
            forall|j: int| 0 <= j < i ==> #[trigger] rows@[j] == guild_of(guilds@[j]),
    {
        proof {
            assert(guilds@[i as int].jinxxy_user_id is Some);
        }
        let guild = &guilds[i];
        if let Some(jinxxy_user_id) = &guild.jinxxy_user_id {
            rows.push(
                GuildRow {
                    guild_id: guild.guild_id,
                    log_channel_id: guild.log_channel_id,
                    test: guild.test,
                    owner: guild.owner,
                    gumroad_failure_count: guild.gumroad_failure_count,
                    gumroad_nag_count: guild.gumroad_nag_count,
                    blanket_role_id: guild.blanket_role_id,
                    default_jinxxy_user: jinxxy_user_id.clone(),
                },
            );
        }
    }
    rows
}

/// The links between the guilds and their stores
pub fn migrate_links(guilds: &[GuildRowV1]) -> (r: Vec<JinxxyUserGuildRow>)
    requires
        all_linked(guilds@),
    ensures
        r@ == guilds@.map_values(|guild: GuildRowV1| link_of(guild)),
{
    let mut rows: Vec<JinxxyUserGuildRow> = Vec::new();
    for i in 0..guilds.len()
        invariant
            all_linked(guilds@),
            rows@.len() == i,
            forall|j: int| 0 <= j < i ==> #[trigger] rows@[j] == link_of(guilds@[j]),
    {
        proof {
            assert(guilds@[i as int].jinxxy_user_id is Some);
        }
        let guild = &guilds[i];
        if let (Some(jinxxy_user_id), Some(jinxxy_api_key)) = (&guild.jinxxy_user_id, &guild.jinxxy_api_key) {
            rows.push(
                JinxxyUserGuildRow {
                    jinxxy_user_id: jinxxy_user_id.clone(),
                    guild_id: guild.guild_id,
                    jinxxy_api_key: jinxxy_api_key.clone(),
                },
            );
        }
    }
    rows
}

/// Whether two rows are of the same product.
pub open spec fn same_product(a: ProductRow, b: ProductRow) -> bool {
    a.jinxxy_user_id@ == b.jinxxy_user_id@ && a.product_id@ == b.product_id@
}

/// Whether there is a row of a product.
pub open spec fn has_product(rows: Seq<ProductRow>, row: ProductRow) -> bool {
    exists|i: int| 0 <= i < rows.len() && same_product(#[trigger] rows[i], row)
}

/// A row with the store of its guild.
pub open spec fn product_of(stores: Map<i64, String>, row: ProductRowV1) -> ProductRow {
    ProductRow { jinxxy_user_id: stores[row.guild_id], product_id: row.product_id, product_name: row.product_name, etag: row.etag }
}

/// The products of the stores of all guilds. Of the rows that several guilds have of the same product the first one counts.
pub open spec fn merged_products(stores: Map<i64, String>, rows: Seq<ProductRowV1>) -> Seq<ProductRow>
    decreases rows.len(),
{
    if rows.len() == 0 {
        Seq::empty()
    } else {
        let others = merged_products(stores, rows.drop_last());
        let row = product_of(stores, rows.last());
        if has_product(others, row) {
            others
        } else {
            others.push(row)
        }
    }
}

fn contains_product(rows: &Vec<ProductRow>, row: &ProductRow) -> (r: bool)
    ensures
        r == has_product(rows@, *row),
{
    for i in 0..rows.len()
        invariant
            forall|j: int| 0 <= j < i ==> !same_product(#[trigger] rows@[j], *row),
    {
        if rows[i].jinxxy_user_id == row.jinxxy_user_id && rows[i].product_id == row.product_id {
            proof {
                assert(same_product(rows@[i as int], *row));
            }
            return true;
        }
    }
    false
}

/// The products of the stores of all guilds
pub fn migrate_products(stores: &GuildStores, rows: Vec<ProductRowV1>) -> (r: Vec<ProductRow>)
    requires
        forall|i: int| 0 <= i < rows@.len() ==> stores.view().contains_key((#[trigger] rows@[i]).guild_id),
    ensures
        r@ == merged_products(stores.view(), rows@),
{
    let ghost all = rows@;
    let mut merged: Vec<ProductRow> = Vec::new();
    for row in it: rows
        invariant
            forall|i: int| 0 <= i < all.len() ==> stores.view().contains_key((#[trigger] all[i]).guild_id),
            it.seq() == all,
            merged@ == merged_products(stores.view(), all.take(it.index() as int)),
    {
        proof {
            assert(all.take(it.index() + 1).drop_last() =~= all.take(it.index() as int));
            assert(all.take(it.index() + 1).last() == all[it.index() as int]);
        }
        let new_row = ProductRow { jinxxy_user_id: stores.store(row.guild_id), product_id: row.product_id, product_name: row.product_name, etag: row.etag };
        if !contains_product(&merged, &new_row) {
            merged.push(new_row);
        }
    }
    proof {
        assert(all.take(all.len() as int) =~= all);
    }
    merged
}

/// Whether two rows are of the same product version.
pub open spec fn same_product_version(a: ProductVersionRow, b: ProductVersionRow) -> bool {
    a.jinxxy_user_id@ == b.jinxxy_user_id@ && a.product_id@ == b.product_id@ && a.version_id@ == b.version_id@
}

/// Whether there is a row of a product version.
pub open spec fn has_product_version(rows: Seq<ProductVersionRow>, row: ProductVersionRow) -> bool {
    exists|i: int| 0 <= i < rows.len() && same_product_version(#[trigger] rows[i], row)
}

/// A row with the store of its guild.
pub open spec fn product_version_of(stores: Map<i64, String>, row: ProductVersionRowV1) -> ProductVersionRow {
    ProductVersionRow { jinxxy_user_id: stores[row.guild_id], product_id: row.product_id, version_id: row.version_id, product_version_name: row.product_version_name }
}

/// The product versions of the stores of all guilds. Of the rows that several guilds have of the same product version the first one counts.
pub open spec fn merged_product_versions(stores: Map<i64, String>, rows: Seq<ProductVersionRowV1>) -> Seq<ProductVersionRow>
    decreases rows.len(),
{
    if rows.len() == 0 {
        Seq::empty()
    } else {
        let others = merged_product_versions(stores, rows.drop_last());
        let row = product_version_of(stores, rows.last());
        if has_product_version(others, row) {
            others
        } else {
            others.push(row)
        }
    }
}

fn contains_product_version(rows: &Vec<ProductVersionRow>, row: &ProductVersionRow) -> (r: bool)
    ensures
        r == has_product_version(rows@, *row),
{
    for i in 0..rows.len()
        invariant
            forall|j: int| 0 <= j < i ==> !same_product_version(#[trigger] rows@[j], *row),
    {
        if rows[i].jinxxy_user_id == row.jinxxy_user_id && rows[i].product_id == row.product_id && rows[i].version_id == row.version_id {
            proof {
                assert(same_product_version(rows@[i as int], *row));
            }
            return true;
        }
    }
    false
}

/// The product versions of the stores of all guilds
pub fn migrate_product_versions(stores: &GuildStores, rows: Vec<ProductVersionRowV1>) -> (r: Vec<ProductVersionRow>)
    requires
        forall|i: int| 0 <= i < rows@.len() ==> stores.view().contains_key((#[trigger] rows@[i]).guild_id),
    ensures
        r@ == merged_product_versions(stores.view(), rows@),
{
    let ghost all = rows@;
    let mut merged: Vec<ProductVersionRow> = Vec::new();
    for row in it: rows
        invariant
            forall|i: int| 0 <= i < all.len() ==> stores.view().contains_key((#[trigger] all[i]).guild_id),
            it.seq() == all,
            merged@ == merged_product_versions(stores.view(), all.take(it.index() as int)),
    {
        proof {
            assert(all.take(it.index() + 1).drop_last() =~= all.take(it.index() as int));
            assert(all.take(it.index() + 1).last() == all[it.index() as int]);
        }
        let new_row = ProductVersionRow { jinxxy_user_id: stores.store(row.guild_id), product_id: row.product_id, version_id: row.version_id, product_version_name: row.product_version_name };
        if !contains_product_version(&merged, &new_row) {
            merged.push(new_row);
        }
    }
    proof {
        assert(all.take(all.len() as int) =~= all);
    }
    merged
}

/// Whether two rows are of the same role of a product.
pub open spec fn same_product_role(a: ProductRoleRow, b: ProductRoleRow) -> bool {
    a.jinxxy_user_id@ == b.jinxxy_user_id@ && a.guild_id == b.guild_id && a.product_id@ == b.product_id@ && a.role_id == b.role_id
}

/// Whether there is a row of a role of a product.
pub open spec fn has_product_role(rows: Seq<ProductRoleRow>, row: ProductRoleRow) -> bool {
    exists|i: int| 0 <= i < rows.len() && same_product_role(#[trigger] rows[i], row)
}

/// A row with the store of its guild.
pub open spec fn product_role_of(stores: Map<i64, String>, row: ProductRoleRowV1) -> ProductRoleRow {
    ProductRoleRow { jinxxy_user_id: stores[row.guild_id], guild_id: row.guild_id, product_id: row.product_id, role_id: row.role_id }
}

/// The roles of products of the stores of all guilds. Of the rows that several guilds have of the same role of a product the first one counts.
pub open spec fn merged_product_roles(stores: Map<i64, String>, rows: Seq<ProductRoleRowV1>) -> Seq<ProductRoleRow>
    decreases rows.len(),
{
    if rows.len() == 0 {
        Seq::empty()
    } else {
        let others = merged_product_roles(stores, rows.drop_last());
        let row = product_role_of(stores, rows.last());
        if has_product_role(others, row) {
            others
        } else {
            others.push(row)
        }
    }
}

fn contains_product_role(rows: &Vec<ProductRoleRow>, row: &ProductRoleRow) -> (r: bool)
    ensures
        r == has_product_role(rows@, *row),
{
    for i in 0..rows.len()
        invariant
            forall|j: int| 0 <= j < i ==> !same_product_role(#[trigger] rows@[j], *row),
    {
        if rows[i].jinxxy_user_id == row.jinxxy_user_id && rows[i].guild_id == row.guild_id && rows[i].product_id == row.product_id && rows[i].role_id == row.role_id {
            proof {
                assert(same_product_role(rows@[i as int], *row));
            }
            return true;
        }
    }
    false
}

/// The roles of products of the stores of all guilds
pub fn migrate_product_roles(stores: &GuildStores, rows: Vec<ProductRoleRowV1>) -> (r: Vec<ProductRoleRow>)
    requires
        forall|i: int| 0 <= i < rows@.len() ==> stores.view().contains_key((#[trigger] rows@[i]).guild_id),
    ensures
        r@ == merged_product_roles(stores.view(), rows@),
{
    let ghost all = rows@;
    let mut merged: Vec<ProductRoleRow> = Vec::new();
    for row in it: rows
        invariant
            forall|i: int| 0 <= i < all.len() ==> stores.view().contains_key((#[trigger] all[i]).guild_id),
            it.seq() == all,
            merged@ == merged_product_roles(stores.view(), all.take(it.index() as int)),
    {
        proof {
            assert(all.take(it.index() + 1).drop_last() =~= all.take(it.index() as int));
            assert(all.take(it.index() + 1).last() == all[it.index() as int]);
        }
        let new_row = ProductRoleRow { jinxxy_user_id: stores.store(row.guild_id), guild_id: row.guild_id, product_id: row.product_id, role_id: row.role_id };
        if !contains_product_role(&merged, &new_row) {
            merged.push(new_row);
        }
    }
    proof {
        assert(all.take(all.len() as int) =~= all);
    }
    merged
}

/// Whether two rows are of the same role of a product version.
pub open spec fn same_product_version_role(a: ProductVersionRoleRow, b: ProductVersionRoleRow) -> bool {
    a.jinxxy_user_id@ == b.jinxxy_user_id@ && a.guild_id == b.guild_id && a.product_id@ == b.product_id@ && a.version_id@ == b.version_id@ && a.role_id == b.role_id
}

/// Whether there is a row of a role of a product version.
pub open spec fn has_product_version_role(rows: Seq<ProductVersionRoleRow>, row: ProductVersionRoleRow) -> bool {
    exists|i: int| 0 <= i < rows.len() && same_product_version_role(#[trigger] rows[i], row)
}

/// A row with the store of its guild.
pub open spec fn product_version_role_of(stores: Map<i64, String>, row: ProductVersionRoleRowV1) -> ProductVersionRoleRow {
    ProductVersionRoleRow { jinxxy_user_id: stores[row.guild_id], guild_id: row.guild_id, product_id: row.product_id, version_id: row.version_id, role_id: row.role_id }
}

/// The roles of product versions of the stores of all guilds. Of the rows that several guilds have of the same role of a product version the first one counts.
pub open spec fn merged_product_version_roles(stores: Map<i64, String>, rows: Seq<ProductVersionRoleRowV1>) -> Seq<ProductVersionRoleRow>
    decreases rows.len(),
{
    if rows.len() == 0 {
        Seq::empty()
    } else {
        let others = merged_product_version_roles(stores, rows.drop_last());
        let row = product_version_role_of(stores, rows.last());
        if has_product_version_role(others, row) {
            others
        } else {
            others.push(row)
        }
    }
}

fn contains_product_version_role(rows: &Vec<ProductVersionRoleRow>, row: &ProductVersionRoleRow) -> (r: bool)
    ensures
        r == has_product_version_role(rows@, *row),
{
    for i in 0..rows.len()
        invariant
            forall|j: int| 0 <= j < i ==> !same_product_version_role(#[trigger] rows@[j], *row),
    {
        if rows[i].jinxxy_user_id == row.jinxxy_user_id && rows[i].guild_id == row.guild_id && rows[i].product_id == row.product_id && rows[i].version_id == row.version_id && rows[i].role_id == row.role_id {
            proof {
                assert(same_product_version_role(rows@[i as int], *row));
            }
            return true;
        }
    }
    false
}

/// The roles of product versions of the stores of all guilds
pub fn migrate_product_version_roles(stores: &GuildStores, rows: Vec<ProductVersionRoleRowV1>) -> (r: Vec<ProductVersionRoleRow>)
    requires
        forall|i: int| 0 <= i < rows@.len() ==> stores.view().contains_key((#[trigger] rows@[i]).guild_id),
    ensures
        r@ == merged_product_version_roles(stores.view(), rows@),
{
    let ghost all = rows@;
    let mut merged: Vec<ProductVersionRoleRow> = Vec::new();
    for row in it: rows
        invariant
            forall|i: int| 0 <= i < all.len() ==> stores.view().contains_key((#[trigger] all[i]).guild_id),
            it.seq() == all,
            merged@ == merged_product_version_roles(stores.view(), all.take(it.index() as int)),
    {
        proof {
            assert(all.take(it.index() + 1).drop_last() =~= all.take(it.index() as int));
            assert(all.take(it.index() + 1).last() == all[it.index() as int]);
        }
        let new_row = ProductVersionRoleRow { jinxxy_user_id: stores.store(row.guild_id), guild_id: row.guild_id, product_id: row.product_id, version_id: row.version_id, role_id: row.role_id };
        if !contains_product_version_role(&merged, &new_row) {
            merged.push(new_row);
        }
    }
    proof {
        assert(all.take(all.len() as int) =~= all);
    }
    merged
}

/// A row with the store of its guild. An empty version ID means the same as none.
pub open spec fn activation_of(stores: Map<i64, String>, row: LicenseActivationRowV1) -> LicenseActivationRow {
    LicenseActivationRow {
        jinxxy_user_id: stores[row.guild_id],
        license_id: row.license_id,
        activator_user_id: row.user_id,
        license_activation_id: row.license_activation_id,
        product_id: row.product_id->0,
        version_id: if row.version_id is Some && row.version_id->0@.len() == 0 {
            None
        } else {
            row.version_id
        },
    }
}

/// Whether two rows are of the same activation.
pub open spec fn same_activation(a: LicenseActivationRow, b: LicenseActivationRow) -> bool {
    a.jinxxy_user_id@ == b.jinxxy_user_id@ && a.license_id@ == b.license_id@ && a.activator_user_id
        == b.activator_user_id && a.license_activation_id@ == b.license_activation_id@
}

/// The position of an activation, or the number of activations if it is not among them.
pub open spec fn activation_position(rows: Seq<LicenseActivationRow>, row: LicenseActivationRow) -> int
    decreases rows.len(),
{
    if rows.len() == 0 || same_activation(rows.first(), row) {
        0
    } else {
        1 + activation_position(rows.drop_first(), row)
    }
}

/// What two guilds know of the same activation together: the newer product counts, and the newer version if there
/// is one.
pub open spec fn merged_activation(known: LicenseActivationRow, new: LicenseActivationRow) -> LicenseActivationRow {
    LicenseActivationRow {
        product_id: new.product_id,
        version_id: if new.version_id is Some {
            new.version_id
        } else {
            known.version_id
        },
        ..known
    }
}

/// The activations with what a guild knows of one.
pub open spec fn with_activation(rows: Seq<LicenseActivationRow>, row: LicenseActivationRow) -> Seq<
    LicenseActivationRow,
> {
    let position = activation_position(rows, row);
    if position < rows.len() {
        rows.update(position, merged_activation(rows[position], row))
    } else {
        rows.push(row)
    }
}

/// The activations of the licenses of all stores, each of them once.
pub open spec fn merged_activations(stores: Map<i64, String>, rows: Seq<LicenseActivationRowV1>) -> Seq<
    LicenseActivationRow,
>
    decreases rows.len(),
{
    if rows.len() == 0 {
        Seq::empty()
    } else {
        with_activation(merged_activations(stores, rows.drop_last()), activation_of(stores, rows.last()))
    }
}

proof fn activation_position_is_first(rows: Seq<LicenseActivationRow>, row: LicenseActivationRow)
    ensures
        0 <= activation_position(rows, row) <= rows.len(),
        activation_position(rows, row) < rows.len() ==> same_activation(rows[activation_position(rows, row)], row),
        forall|i: int| 0 <= i < activation_position(rows, row) ==> !same_activation(#[trigger] rows[i], row),
    decreases rows.len(),
{
    if rows.len() == 0 || same_activation(rows.first(), row) {
    } else {
        let rest = rows.drop_first();
        activation_position_is_first(rest, row);
        let p = activation_position(rest, row);
        assert(p < rest.len() ==> rest[p] == rows[p + 1]);
        assert forall|i: int| 0 <= i < p + 1 implies !same_activation(#[trigger] rows[i], row) by {
            if i > 0 {
                assert(rest[i - 1] == rows[i]);
            }
        }
    }
}

fn add_activation(rows: &mut Vec<LicenseActivationRow>, row: LicenseActivationRow)
    ensures
        final(rows)@ == with_activation(old(rows)@, row),
{
    let ghost all = rows@;
    let mut position: usize = 0;
    proof {
        assert(all.skip(0) =~= all);
        activation_position_is_first(all, row);
    }
    while position < rows.len() && !(rows[position].jinxxy_user_id == row.jinxxy_user_id && rows[position].license_id
        == row.license_id && rows[position].activator_user_id == row.activator_user_id
        && rows[position].license_activation_id == row.license_activation_id)
        invariant
            rows@ == all,
            position <= all.len(),
            activation_position(all, row) == position + activation_position(all.skip(position as int), row),
        decreases all.len() - position,
    {
        proof {
            assert(all.skip(position as int).first() == all[position as int]);
            assert(all.skip(position as int).drop_first() =~= all.skip(position + 1));
        }
        position = position + 1;
    }
    proof {
        if position < all.len() {
            assert(all.skip(position as int).first() == all[position as int]);
        }
        assert(activation_position(all, row) == position);
    }
    if position < rows.len() {
        let known = rows.remove(position);
        let version_id = match row.version_id {
            Some(version_id) => Some(version_id),
            None => known.version_id,
        };
        rows.insert(
            position,
            LicenseActivationRow {
                jinxxy_user_id: known.jinxxy_user_id,
                license_id: known.license_id,
                activator_user_id: known.activator_user_id,
                license_activation_id: known.license_activation_id,
                product_id: row.product_id,
                version_id,
            },
        );
        proof {
            assert(rows@ =~= with_activation(all, row));
        }
    } else {
        rows.push(row);
    }
}

/// The activations of the licenses of all stores
pub fn migrate_license_activations(stores: &GuildStores, rows: Vec<LicenseActivationRowV1>) -> (r: Vec<
    LicenseActivationRow,
>)
    requires
        forall|i: int|
            0 <= i < rows@.len() ==> stores.view().contains_key((#[trigger] rows@[i]).guild_id)
                && rows@[i].product_id is Some,
    ensures
        r@ == merged_activations(stores.view(), rows@),
{
    let ghost all = rows@;
    let mut merged: Vec<LicenseActivationRow> = Vec::new();
    for row in it: rows
        invariant
            forall|i: int|
                0 <= i < all.len() ==> stores.view().contains_key((#[trigger] all[i]).guild_id)
                    && all[i].product_id is Some,
            it.seq() == all,
            merged@ == merged_activations(stores.view(), all.take(it.index() as int)),
    {
        proof {
            assert(all.take(it.index() + 1).drop_last() =~= all.take(it.index() as int));
            assert(all.take(it.index() + 1).last() == all[it.index() as int]);
        }
        let jinxxy_user_id = stores.store(row.guild_id);
        let version_id = match row.version_id {
            Some(version_id) => if version_id.as_str().is_empty() {
                None
            } else {
                Some(version_id)
            },
            None => None,
        };
        if let Some(product_id) = row.product_id {
            add_activation(
                &mut merged,
                LicenseActivationRow {
                    jinxxy_user_id,
                    license_id: row.license_id,
                    activator_user_id: row.user_id,
                    license_activation_id: row.license_activation_id,
                    product_id,
                    version_id,
                },
            );
        }
    }
    proof {
        assert(all.take(all.len() as int) =~= all);
    }
    merged
}

/// Whether a store is among others.
pub open spec fn has_user(users: Seq<JinxxyUserRow>, jinxxy_user_id: Seq<char>) -> bool {
    exists|i: int| 0 <= i < users.len() && (#[trigger] users[i]).jinxxy_user_id@ == jinxxy_user_id
}

/// The store of every guild is migrated, so that a guild's link and its default store refer to a store that is
/// there; and no store is migrated twice.
pub proof fn every_store_is_migrated_once(guilds: Seq<GuildRowV1>)
    ensures
        forall|i: int|
            0 <= i < guilds.len() ==> has_user(merged_users(guilds), user_of(#[trigger] guilds[i]).jinxxy_user_id@),
        forall|i: int, j: int|
            0 <= i < j < merged_users(guilds).len() ==> (#[trigger] merged_users(guilds)[i]).jinxxy_user_id@ != (
            #[trigger] merged_users(guilds)[j]).jinxxy_user_id@,
    decreases guilds.len(),
{
    if guilds.len() > 0 {
        let init = guilds.drop_last();
        every_store_is_migrated_once(init);
        let old_users = merged_users(init);
        let users = merged_users(guilds);
        let user = user_of(guilds.last());
        let p = store_position(old_users, user.jinxxy_user_id@);
        store_position_is_first(old_users, user.jinxxy_user_id@);
        assert forall|i: int| 0 <= i < old_users.len() implies (#[trigger] users[i]).jinxxy_user_id@
            == old_users[i].jinxxy_user_id@ by {}
        assert(users[p].jinxxy_user_id@ == user.jinxxy_user_id@);
        assert forall|i: int| 0 <= i < guilds.len() implies has_user(
            users,
            user_of(#[trigger] guilds[i]).jinxxy_user_id@,
        ) by {
            if i < init.len() {
                assert(init[i] == guilds[i]);
                let k = choose|k: int|
                    0 <= k < old_users.len() && (#[trigger] old_users[k]).jinxxy_user_id@ == user_of(
                        guilds[i],
                    ).jinxxy_user_id@;
                assert(users[k].jinxxy_user_id@ == user_of(guilds[i]).jinxxy_user_id@);
            }
        }
        assert forall|i: int, j: int| 0 <= i < j < users.len() implies (#[trigger] users[i]).jinxxy_user_id@ != (
        #[trigger] users[j]).jinxxy_user_id@ by {
            assert(users[i].jinxxy_user_id@ == old_users[i].jinxxy_user_id@);
            if j < old_users.len() {
                assert(users[j].jinxxy_user_id@ == old_users[j].jinxxy_user_id@);
            }
        }
    }
}

/// The cache time of a migrated store is the latest that any of its guilds had, and is one that a guild had.
pub proof fn latest_cache_time_counts(guilds: Seq<GuildRowV1>, i: int)
    requires
        0 <= i < merged_users(guilds).len(),
    ensures
        forall|g: int|
            0 <= g < guilds.len() && user_of(#[trigger] guilds[g]).jinxxy_user_id@ == merged_users(
                guilds,
            )[i].jinxxy_user_id@ ==> guilds[g].cache_time_unix_ms <= merged_users(guilds)[i].cache_time_unix_ms,
        exists|g: int|
            0 <= g < guilds.len() && user_of(#[trigger] guilds[g]).jinxxy_user_id@ == merged_users(
                guilds,
            )[i].jinxxy_user_id@ && guilds[g].cache_time_unix_ms == merged_users(guilds)[i].cache_time_unix_ms,
    decreases guilds.len(),
{
    let init = guilds.drop_last();
    let old_users = merged_users(init);
    let users = merged_users(guilds);
    let user = user_of(guilds.last());
    let p = store_position(old_users, user.jinxxy_user_id@);
    store_position_is_first(old_users, user.jinxxy_user_id@);
    every_store_is_migrated_once(init);
    let last = guilds.len() - 1;
    assert(guilds[last] == guilds.last());
    if i < old_users.len() {
        latest_cache_time_counts(init, i);
        let g = choose|g: int|
            0 <= g < init.len() && user_of(#[trigger] init[g]).jinxxy_user_id@ == old_users[i].jinxxy_user_id@
                && init[g].cache_time_unix_ms == old_users[i].cache_time_unix_ms;
        assert(guilds[g] == init[g]);
        assert forall|h: int|
            0 <= h < guilds.len() && user_of(#[trigger] guilds[h]).jinxxy_user_id@
                == users[i].jinxxy_user_id@ implies guilds[h].cache_time_unix_ms <= users[i].cache_time_unix_ms by {
            if h < last {
                assert(init[h] == guilds[h]);
            } else {
                assert(i == p);
            }
        }
        if users[i].cache_time_unix_ms == old_users[i].cache_time_unix_ms {
            assert(user_of(guilds[g]).jinxxy_user_id@ == users[i].jinxxy_user_id@);
        } else {
            assert(user_of(guilds[last]).jinxxy_user_id@ == users[i].jinxxy_user_id@);
        }
    } else {
        assert(user_of(guilds[last]).jinxxy_user_id@ == users[i].jinxxy_user_id@);
        assert forall|h: int|
            0 <= h < guilds.len() && user_of(#[trigger] guilds[h]).jinxxy_user_id@
                == users[i].jinxxy_user_id@ implies guilds[h].cache_time_unix_ms <= users[i].cache_time_unix_ms by {
            if h < last {
                assert(init[h] == guilds[h]);
                assert(has_user(old_users, user_of(init[h]).jinxxy_user_id@));
            }
        }
    }
}

/// No activation is lost: each has a row of the same license, activator and activation at the store of its guild.
/// None is there twice, and none has an empty version ID.
pub proof fn every_activation_is_migrated_once(stores: Map<i64, String>, rows: Seq<LicenseActivationRowV1>)
    ensures
        forall|i: int|
            0 <= i < rows.len() ==> exists|j: int|
                0 <= j < merged_activations(stores, rows).len() && same_activation(
                    #[trigger] merged_activations(stores, rows)[j],
                    activation_of(stores, #[trigger] rows[i]),
                ),
        forall|i: int, j: int|
            0 <= i < j < merged_activations(stores, rows).len() ==> !same_activation(
                #[trigger] merged_activations(stores, rows)[i],
                #[trigger] merged_activations(stores, rows)[j],
            ),
        forall|i: int|
            0 <= i < merged_activations(stores, rows).len() ==> ((#[trigger] merged_activations(
                stores,
                rows,
            )[i]).version_id matches Some(version_id) ==> version_id@.len() > 0),
    decreases rows.len(),
{
    if rows.len() > 0 {
        let init = rows.drop_last();
        every_activation_is_migrated_once(stores, init);
        let before = merged_activations(stores, init);
        let after = merged_activations(stores, rows);
        let row = activation_of(stores, rows.last());
        let p = activation_position(before, row);
        activation_position_is_first(before, row);
        assert forall|i: int| 0 <= i < before.len() implies same_activation(#[trigger] after[i], before[i]) by {}
        assert(same_activation(after[p], row));
        assert forall|i: int| 0 <= i < rows.len() implies exists|j: int|
            0 <= j < after.len() && same_activation(
                #[trigger] after[j],
                activation_of(stores, #[trigger] rows[i]),
            ) by {
            if i < init.len() {
                assert(init[i] == rows[i]);
                let k = choose|k: int|
                    0 <= k < before.len() && same_activation(
                        #[trigger] before[k],
                        activation_of(stores, init[i]),
                    );
                assert(same_activation(after[k], before[k]));
                assert(same_activation(after[k], activation_of(stores, rows[i])));
            } else {
                assert(same_activation(after[p], activation_of(stores, rows[i])));
            }
        }
        assert forall|i: int, j: int| 0 <= i < j < after.len() implies !same_activation(
            #[trigger] after[i],
            #[trigger] after[j],
        ) by {
            assert(same_activation(after[i], before[i]));
            if j < before.len() {
                assert(same_activation(after[j], before[j]));
                assert(!same_activation(before[i], before[j]));
            } else {
                assert(!same_activation(before[i], row));
            }
        }
    }
}

/// No product is lost, and none is there twice.
pub proof fn every_product_is_migrated_once(stores: Map<i64, String>, rows: Seq<ProductRowV1>)
    ensures
        forall|i: int|
            0 <= i < rows.len() ==> has_product(merged_products(stores, rows), product_of(stores, #[trigger] rows[i])),
        forall|i: int, j: int|
            0 <= i < j < merged_products(stores, rows).len() ==> !same_product(
                #[trigger] merged_products(stores, rows)[i],
                #[trigger] merged_products(stores, rows)[j],
            ),
    decreases rows.len(),
{
    if rows.len() > 0 {
        let init = rows.drop_last();
        every_product_is_migrated_once(stores, init);
        let before = merged_products(stores, init);
        let after = merged_products(stores, rows);
        let row = product_of(stores, rows.last());
        assert forall|i: int| 0 <= i < before.len() implies #[trigger] after[i] == before[i] by {}
        if !has_product(before, row) {
            assert(same_product(after[before.len() as int], row));
        }
        assert forall|i: int| 0 <= i < rows.len() implies has_product(
            after,
            product_of(stores, #[trigger] rows[i]),
        ) by {
            if i < init.len() {
                assert(init[i] == rows[i]);
                let k = choose|k: int|
                    0 <= k < before.len() && same_product(#[trigger] before[k], product_of(stores, init[i]));
                assert(same_product(after[k], product_of(stores, rows[i])));
            }
        }
    }
}

/// No product version is lost, and none is there twice.
pub proof fn every_product_version_is_migrated_once(stores: Map<i64, String>, rows: Seq<ProductVersionRowV1>)
    ensures
        forall|i: int|
            0 <= i < rows.len() ==> has_product_version(merged_product_versions(stores, rows), product_version_of(stores, #[trigger] rows[i])),
        forall|i: int, j: int|
            0 <= i < j < merged_product_versions(stores, rows).len() ==> !same_product_version(
                #[trigger] merged_product_versions(stores, rows)[i],
                #[trigger] merged_product_versions(stores, rows)[j],
            ),
    decreases rows.len(),
{
    if rows.len() > 0 {
        let init = rows.drop_last();
        every_product_version_is_migrated_once(stores, init);
        let before = merged_product_versions(stores, init);
        let after = merged_product_versions(stores, rows);
        let row = product_version_of(stores, rows.last());
        assert forall|i: int| 0 <= i < before.len() implies #[trigger] after[i] == before[i] by {}
        if !has_product_version(before, row) {
            assert(same_product_version(after[before.len() as int], row));
        }
        assert forall|i: int| 0 <= i < rows.len() implies has_product_version(
            after,
            product_version_of(stores, #[trigger] rows[i]),
        ) by {
            if i < init.len() {
                assert(init[i] == rows[i]);
                let k = choose|k: int|
                    0 <= k < before.len() && same_product_version(#[trigger] before[k], product_version_of(stores, init[i]));
                assert(same_product_version(after[k], product_version_of(stores, rows[i])));
            }
        }
    }
}

/// No role of a product is lost, and none is there twice.
pub proof fn every_product_role_is_migrated_once(stores: Map<i64, String>, rows: Seq<ProductRoleRowV1>)
    ensures
        forall|i: int|
            0 <= i < rows.len() ==> has_product_role(merged_product_roles(stores, rows), product_role_of(stores, #[trigger] rows[i])),
        forall|i: int, j: int|
            0 <= i < j < merged_product_roles(stores, rows).len() ==> !same_product_role(
                #[trigger] merged_product_roles(stores, rows)[i],
                #[trigger] merged_product_roles(stores, rows)[j],
            ),
    decreases rows.len(),
{
    if rows.len() > 0 {
        let init = rows.drop_last();
        every_product_role_is_migrated_once(stores, init);
        let before = merged_product_roles(stores, init);
        let after = merged_product_roles(stores, rows);
        let row = product_role_of(stores, rows.last());
        assert forall|i: int| 0 <= i < before.len() implies #[trigger] after[i] == before[i] by {}
        if !has_product_role(before, row) {
            assert(same_product_role(after[before.len() as int], row));
        }
        assert forall|i: int| 0 <= i < rows.len() implies has_product_role(
            after,
            product_role_of(stores, #[trigger] rows[i]),
        ) by {
            if i < init.len() {
                assert(init[i] == rows[i]);
                let k = choose|k: int|
                    0 <= k < before.len() && same_product_role(#[trigger] before[k], product_role_of(stores, init[i]));
                assert(same_product_role(after[k], product_role_of(stores, rows[i])));
            }
        }
    }
}

/// No role of a product version is lost, and none is there twice.
pub proof fn every_product_version_role_is_migrated_once(stores: Map<i64, String>, rows: Seq<ProductVersionRoleRowV1>)
    ensures
        forall|i: int|
            0 <= i < rows.len() ==> has_product_version_role(merged_product_version_roles(stores, rows), product_version_role_of(stores, #[trigger] rows[i])),
        forall|i: int, j: int|
            0 <= i < j < merged_product_version_roles(stores, rows).len() ==> !same_product_version_role(
                #[trigger] merged_product_version_roles(stores, rows)[i],
                #[trigger] merged_product_version_roles(stores, rows)[j],
            ),
    decreases rows.len(),
{
    if rows.len() > 0 {
        let init = rows.drop_last();
        every_product_version_role_is_migrated_once(stores, init);
        let before = merged_product_version_roles(stores, init);
        let after = merged_product_version_roles(stores, rows);
        let row = product_version_role_of(stores, rows.last());
        assert forall|i: int| 0 <= i < before.len() implies #[trigger] after[i] == before[i] by {}
        if !has_product_version_role(before, row) {
            assert(same_product_version_role(after[before.len() as int], row));
        }
        assert forall|i: int| 0 <= i < rows.len() implies has_product_version_role(
            after,
            product_version_role_of(stores, #[trigger] rows[i]),
        ) by {
            if i < init.len() {
                assert(init[i] == rows[i]);
                let k = choose|k: int|
                    0 <= k < before.len() && same_product_version_role(#[trigger] before[k], product_version_role_of(stores, init[i]));
                assert(same_product_version_role(after[k], product_version_role_of(stores, rows[i])));
            }
        }
    }
}

/// A row of a guild that is migrated belongs to a link that is migrated: that of the guild and its store.
pub proof fn every_row_has_a_link(guilds: Seq<GuildRowV1>, guild_id: i64)
    requires
        stores_of(guilds).contains_key(guild_id),
    ensures
        exists|i: int|
            0 <= i < guilds.len() && link_of(#[trigger] guilds[i]).guild_id == guild_id && link_of(
                guilds[i],
            ).jinxxy_user_id == stores_of(guilds)[guild_id],
    decreases guilds.len(),
{
    let last = guilds.len() - 1;
    assert(guilds[last] == guilds.last());
    if guilds.last().guild_id == guild_id {
        assert(link_of(guilds[last]).guild_id == guild_id);
    } else {
        let init = guilds.drop_last();
        every_row_has_a_link(init, guild_id);
        let i = choose|i: int|
            0 <= i < init.len() && link_of(#[trigger] init[i]).guild_id == guild_id && link_of(
                init[i],
            ).jinxxy_user_id == stores_of(init)[guild_id];
        assert(init[i] == guilds[i]);
        assert(link_of(guilds[i]).guild_id == guild_id);
    }
}

} // verus!
