//! What is kept in the database.

pub mod migration;
pub mod roles;
pub mod schema;

use crate::http::jinxxy::{
    ProductNameInfo, ProductVersionId, ProductVersionIdView, ProductVersionNameInfo,
};
use crate::pattern::{
    is_like_special, like_escaped, regex_replace_all, LIKE_ESCAPE_REPLACEMENT, LIKE_SPECIAL_PATTERN,
};
use crate::text::str_equals;
use crate::time::SimpleTime;
use std::collections::HashMap;
use vstd::prelude::*;

verus! {

/// The number that stands for an ID in the database, which has signed integers only: the one with the same 64 bits.
pub open spec fn db_number(id: u64) -> i64 {
    if id <= i64::MAX {
        id as i64
    } else {
        (id - 0x1_0000_0000_0000_0000) as i64
    }
}

/// The ID that a number in the database stands for.
pub open spec fn db_id(number: i64) -> u64 {
    if number >= 0 {
        number as u64
    } else {
        (number + 0x1_0000_0000_0000_0000) as u64
    }
}

/// Convert an ID to a number in the database
pub fn id_to_db(id: u64) -> (r: i64)
    ensures
        r == db_number(id),
{
    if id <= 0x7fff_ffff_ffff_ffff {
        id as i64
    } else {
        -1 - ((u64::MAX - id) as i64)
    }
}

/// Convert a number in the database to an ID
pub fn id_from_db(number: i64) -> (r: u64)
    ensures
        r == db_id(number),
{
    if number >= 0 {
        number as u64
    } else {
        u64::MAX - ((-1 - number) as u64)
    }
}

/// Every ID comes out of the database as it went in, and every number in the database is that of an ID.
pub proof fn ids_survive_the_database(id: u64, number: i64)
    ensures
        db_id(db_number(id)) == id,
        db_number(db_id(number)) == number,
{
}

/// Pure sqlite autocompletion of Jinxxy usernames needs the prefix as a `LIKE` pattern: the escaped prefix, and then anything.
pub fn username_prefix_pattern(prefix: &str) -> (r: String)
    ensures
        r@ == like_escaped(prefix@) + "%"@,
{
    escape_like(prefix).concat("%")
}

/// Escapes LIKE strings using the escape character '?', which was specifically chosen due to its lack of URL safety
pub fn escape_like(s: &str) -> (r: String)
    ensures
        r@ == like_escaped(s@),
{
    regex_replace_all(LIKE_SPECIAL_PATTERN, s, LIKE_ESCAPE_REPLACEMENT)
}

/// The one text that a `LIKE` pattern with the escape character `?` matches, if it has no wildcards.
pub open spec fn like_literal(pattern: Seq<char>) -> Option<Seq<char>>
    decreases pattern.len(),
{
    if pattern.len() == 0 {
        Some(Seq::empty())
    } else if pattern[0] == '?' {
        if pattern.len() == 1 {
            None
        } else {
            match like_literal(pattern.skip(2)) {
                Some(rest) => Some(seq![pattern[1]] + rest),
                None => None,
            }
        }
    } else if is_like_special(pattern[0]) {
        None
    } else {
        match like_literal(pattern.skip(1)) {
            Some(rest) => Some(seq![pattern[0]] + rest),
            None => None,
        }
    }
}

proof fn like_literal_of_concatenation(a: Seq<char>, b: Seq<char>)
    requires
        like_literal(a) is Some,
        like_literal(b) is Some,
    ensures
        like_literal(a + b) == Some(like_literal(a)->0 + like_literal(b)->0),
    decreases a.len(),
{
    if a.len() == 0 {
        assert(a + b =~= b);
        assert(like_literal(a)->0 + like_literal(b)->0 =~= like_literal(b)->0);
    } else if a[0] == '?' {
        like_literal_of_concatenation(a.skip(2), b);
        assert((a + b).skip(2) =~= a.skip(2) + b);
        assert(seq![a[1]] + (like_literal(a.skip(2))->0 + like_literal(b)->0) =~= like_literal(a)->0 + like_literal(
            b,
        )->0);
    } else {
        like_literal_of_concatenation(a.skip(1), b);
        assert((a + b).skip(1) =~= a.skip(1) + b);
        assert(seq![a[0]] + (like_literal(a.skip(1))->0 + like_literal(b)->0) =~= like_literal(a)->0 + like_literal(
            b,
        )->0);
    }
}

/// An escaped text is a `LIKE` pattern without wildcards, which matches that text and nothing else.
pub proof fn escaped_text_matches_itself_alone(s: Seq<char>)
    ensures
        like_literal(like_escaped(s)) == Some(s),
    decreases s.len(),
{
    if s.len() > 0 {
        let init = s.drop_last();
        let last = s.last();
        escaped_text_matches_itself_alone(init);
        let piece = if is_like_special(last) {
            seq!['?', last]
        } else {
            seq![last]
        };
        assert(like_escaped(s) =~= like_escaped(init) + piece);
        assert(like_literal(piece) == Some(seq![last])) by {
            reveal_with_fuel(like_literal, 3);
            if is_like_special(last) {
                assert(piece.skip(2) =~= Seq::<char>::empty());
            } else {
                assert(piece.skip(1) =~= Seq::<char>::empty());
            }
            assert(seq![last] + Seq::<char>::empty() =~= seq![last]);
        }
        like_literal_of_concatenation(like_escaped(init), piece);
        assert(init + seq![last] =~= s);
    } else {
        assert(like_escaped(s) =~= Seq::<char>::empty());
        assert(s =~= Seq::<char>::empty());
    }
}

/// The parts of a store needed for display only.
#[derive(Debug)]
pub struct LinkedDisplayStore {
    pub jinxxy_user_id: String,
    pub jinxxy_username: Option<String>,
}

/// Any source for a product->role link.
#[derive(Debug)]
pub enum LinkSource {
    GlobalBlanket,
    ProductBlanket { jinxxy_user_id: String, product_id: String },
    ProductVersion { jinxxy_user_id: String, product_version_id: ProductVersionId },
}

/// A row of a role that a product gives
#[derive(Debug)]
pub struct ProductRoleLink {
    pub role_id: u64,
    pub jinxxy_user_id: String,
    pub product_id: String,
}

/// A row of a role that a product version gives. No version is written as an empty version ID.
#[derive(Debug)]
pub struct ProductVersionRoleLink {
    pub role_id: u64,
    pub jinxxy_user_id: String,
    pub product_version_id: ProductVersionId,
}

/// All role links of a guild
#[derive(Debug)]
pub struct Links {
    pub stores: Vec<LinkedDisplayStore>,
    pub links: HashMap<u64, Vec<LinkSource>>,
}

/// The products that give a role, in order.
pub open spec fn product_sources(rows: Seq<ProductRoleLink>, role_id: u64) -> Seq<LinkSource>
    decreases rows.len(),
{
    if rows.len() == 0 {
        Seq::empty()
    } else {
        let others = product_sources(rows.drop_last(), role_id);
        let row = rows.last();
        if row.role_id == role_id {
            others.push(
                LinkSource::ProductBlanket { jinxxy_user_id: row.jinxxy_user_id, product_id: row.product_id },
            )
        } else {
            others
        }
    }
}

/// The product versions that give a role, in order.
pub open spec fn version_sources(rows: Seq<ProductVersionRoleLink>, role_id: u64) -> Seq<LinkSource>
    decreases rows.len(),
{
    if rows.len() == 0 {
        Seq::empty()
    } else {
        let others = version_sources(rows.drop_last(), role_id);
        let row = rows.last();
        if row.role_id == role_id {
            others.push(
                LinkSource::ProductVersion {
                    jinxxy_user_id: row.jinxxy_user_id,
                    product_version_id: row.product_version_id,
                },
            )
        } else {
            others
        }
    }
}

/// Everything that gives a role: the wildcard comes first, then products, then product versions.
pub open spec fn role_sources(
    blanket_role_id: Option<u64>,
    products: Seq<ProductRoleLink>,
    versions: Seq<ProductVersionRoleLink>,
    role_id: u64,
) -> Seq<LinkSource> {
    (if blanket_role_id == Some(role_id) {
        seq![LinkSource::GlobalBlanket]
    } else {
        Seq::empty()
    }) + product_sources(products, role_id) + version_sources(versions, role_id)
}

/// Whether links hold, for each role that something gives, all that gives it, and no other role.
pub open spec fn links_are(links: Map<u64, Vec<LinkSource>>, sources: spec_fn(u64) -> Seq<LinkSource>) -> bool {
    forall|role_id: u64|
        {
            &&& #[trigger] links.contains_key(role_id) <==> sources(role_id).len() > 0
            &&& links.contains_key(role_id) ==> links[role_id]@ == sources(role_id)
        }
}

fn add_source(links: &mut HashMap<u64, Vec<LinkSource>>, role_id: u64, source: LinkSource)
    ensures
        forall|other: u64| other != role_id ==> {
            &&& #[trigger] final(links)@.contains_key(other) <==> old(links)@.contains_key(other)
            &&& final(links)@[other] == old(links)@[other]
        },
        final(links)@.contains_key(role_id),
        final(links)@[role_id]@ == (if old(links)@.contains_key(role_id) {
            old(links)@[role_id]@.push(source)
        } else {
            seq![source]
        }),
{
    broadcast use vstd::std_specs::hash::group_hash_axioms;

    let known = links.remove(&role_id);
    let mut sources = match known {
        Some(sources) => sources,
        None => Vec::new(),
    };
    sources.push(source);
    links.insert(role_id, sources);
}

impl Links {
    /// get an aggregate of all role links for a guild
    pub fn new(
        stores: Vec<LinkedDisplayStore>,
        blanket_role_id: Option<u64>,
        products: Vec<ProductRoleLink>,
        versions: Vec<ProductVersionRoleLink>,
    ) -> (r: Links)
        ensures
            r.stores == stores,
            links_are(
                r.links@,
                |role_id: u64| role_sources(blanket_role_id, products@, versions@, role_id),
            ),
    {
        broadcast use vstd::std_specs::hash::group_hash_axioms;

        let ghost all_products = products@;
        let ghost all_versions = versions@;
        let ghost no_versions = Seq::<ProductVersionRoleLink>::empty();
        let mut links: HashMap<u64, Vec<LinkSource>> = HashMap::new();
        // deal with global blanket
        if let Some(blanket_role_id) = blanket_role_id {
            add_source(&mut links, blanket_role_id, LinkSource::GlobalBlanket);
        }
        proof {
            assert forall|role_id: u64|
                {
                    let sources = role_sources(blanket_role_id, all_products.take(0), no_versions, role_id);
                    &&& #[trigger] links@.contains_key(role_id) <==> sources.len() > 0
                    &&& links@.contains_key(role_id) ==> links@[role_id]@ == sources
                } by {
                if links@.contains_key(role_id) {
                    assert(links@[role_id]@ =~= role_sources(
                        blanket_role_id,
                        all_products.take(0),
                        no_versions,
                        role_id,
                    ));
                }
            }
        }
        // deal with product blankets
        for row in it: products
            invariant
                it.seq() == all_products,
                no_versions == Seq::<ProductVersionRoleLink>::empty(),
                links_are(
                    links@,
                    |role_id: u64|
                        role_sources(blanket_role_id, all_products.take(it.index() as int), no_versions, role_id),
                ),
        {
            let ghost before = links@;
            let ghost i = it.index() as int;
            proof {
                assert(all_products.take(i + 1).drop_last() =~= all_products.take(i));
                assert(all_products.take(i + 1).last() == all_products[i]);
            }
            let ghost source = LinkSource::ProductBlanket {
                jinxxy_user_id: row.jinxxy_user_id,
                product_id: row.product_id,
            };
            let role_id: u64 = row.role_id;
            add_source(
                &mut links,
                role_id,
                LinkSource::ProductBlanket { jinxxy_user_id: row.jinxxy_user_id, product_id: row.product_id },
            );
            proof {
                assert forall|other: u64|
                    {
                        let sources = role_sources(blanket_role_id, all_products.take(i + 1), no_versions, other);
                        &&& #[trigger] links@.contains_key(other) <==> sources.len() > 0
                        &&& links@.contains_key(other) ==> links@[other]@ == sources
                    } by {
                    let old_sources = role_sources(blanket_role_id, all_products.take(i), no_versions, other);
                    let sources = role_sources(blanket_role_id, all_products.take(i + 1), no_versions, other);
                    assert(before.contains_key(other) <==> old_sources.len() > 0);
                    if other == role_id {
                        assert(sources =~= old_sources.push(source));
                        if !before.contains_key(other) {
                            assert(old_sources =~= Seq::<LinkSource>::empty());
                            assert(sources =~= seq![source]);
                        }
                    } else {
                        assert(sources =~= old_sources);
                    }
                }
            }
        }
        proof {
            assert(all_products.take(all_products.len() as int) =~= all_products);
            assert(all_versions.take(0) =~= no_versions);
        }
        // deal with specific links
        for row in it: versions
            invariant
                it.seq() == all_versions,
                links_are(
                    links@,
                    |role_id: u64|
                        role_sources(blanket_role_id, all_products, all_versions.take(it.index() as int), role_id),
                ),
        {
            let ghost before = links@;
            let ghost i = it.index() as int;
            proof {
                assert(all_versions.take(i + 1).drop_last() =~= all_versions.take(i));
                assert(all_versions.take(i + 1).last() == all_versions[i]);
            }
            let ghost source = LinkSource::ProductVersion {
                jinxxy_user_id: row.jinxxy_user_id,
                product_version_id: row.product_version_id,
            };
            let role_id: u64 = row.role_id;
            add_source(
                &mut links,
                role_id,
                LinkSource::ProductVersion {
                    jinxxy_user_id: row.jinxxy_user_id,
                    product_version_id: row.product_version_id,
                },
            );
            proof {
                assert forall|other: u64|
                    {
                        let sources = role_sources(blanket_role_id, all_products, all_versions.take(i + 1), other);
                        &&& #[trigger] links@.contains_key(other) <==> sources.len() > 0
                        &&& links@.contains_key(other) ==> links@[other]@ == sources
                    } by {
                    let old_sources = role_sources(blanket_role_id, all_products, all_versions.take(i), other);
                    let sources = role_sources(blanket_role_id, all_products, all_versions.take(i + 1), other);
                    assert(before.contains_key(other) <==> old_sources.len() > 0);
                    if other == role_id {
                        assert(sources =~= old_sources.push(source));
                        if !before.contains_key(other) {
                            assert(old_sources =~= Seq::<LinkSource>::empty());
                            assert(sources =~= seq![source]);
                        }
                    } else {
                        assert(sources =~= old_sources);
                    }
                }
            }
        }
        proof {
            assert(all_versions.take(all_versions.len() as int) =~= all_versions);
        }
        Links { stores, links }
    }
}

/// The names of a store's products and product versions, as they are persisted
#[derive(Debug)]
pub struct GuildCache {
    pub product_name_info: Vec<ProductNameInfo>,
    pub product_version_name_info: Vec<ProductVersionNameInfo>,
    pub cache_time: SimpleTime,
}

/// A license that a user has activated
#[derive(Debug)]
pub struct UserLicense {
    pub jinxxy_user_id: String,
    pub jinxxy_api_key: String,
    pub license_id: String,
    pub jinxxy_username: Option<String>,
}

/// A store that is linked to a guild
#[derive(Debug)]
pub struct LinkedStore {
    pub jinxxy_user_id: String,
    pub jinxxy_username: Option<String>,
    pub jinxxy_api_key: String,
}

/// An API key, and the guild that it was set in
#[derive(Debug)]
pub struct GuildApiKey {
    pub guild_id: u64,
    pub jinxxy_api_key: String,
}

/// The version ID in the database, in which no version is written as an empty one.
pub open spec fn db_version(id: ProductVersionIdView) -> Seq<char> {
    match id.product_version_id {
        Some(version_id) => version_id,
        None => Seq::empty(),
    }
}

/// The product version that a product ID and a version ID in the database stand for.
pub open spec fn product_version_from_db(product_id: Seq<char>, version_id: Seq<char>) -> ProductVersionIdView {
    ProductVersionIdView {
        product_id,
        product_version_id: if version_id.len() == 0 {
            None
        } else {
            Some(version_id)
        },
    }
}

/// Extra functions specifically for using this with the DB
impl ProductVersionId {
    pub fn as_db_values(&self) -> (r: (&str, &str))
        ensures
            r.0@ == self@.product_id,
            r.1@ == db_version(self@),
    {
        let version_id = match &self.product_version_id {
            Some(version_id) => version_id.as_str(),
            None => {
                proof {
                    reveal_strlit("");
                    assert(""@ =~= Seq::<char>::empty());
                }
                ""
            }
        };
        (self.product_id.as_str(), version_id)
    }

    pub fn into_db_values(self) -> (r: (String, String))
        ensures
            r.0 == self.product_id,
            r.1@ == db_version(self@),
    {
        let version_id = match self.product_version_id {
            Some(version_id) => version_id,
            None => String::new(),
        };
        (self.product_id, version_id)
    }

    pub fn from_db_values(product_id: String, version_id: String) -> (r: ProductVersionId)
        ensures
            r@ == product_version_from_db(product_id@, version_id@),
    {
        let product_version_id = if version_id.as_str().is_empty() {
            None
        } else {
            Some(version_id)
        };
        ProductVersionId { product_id, product_version_id }
    }
}

/// A product version comes out of the database as it went in, unless its version ID is empty.
pub proof fn product_versions_survive_the_database(id: ProductVersionIdView)
    requires
        id.product_version_id matches Some(version_id) ==> version_id.len() > 0,
    ensures
        product_version_from_db(id.product_id, db_version(id)) == id,
{
}

/// Whether a product is among those that are persisted.
pub open spec fn has_product_id(infos: Seq<ProductNameInfo>, product_id: Seq<char>) -> bool {
    exists|i: int| 0 <= i < infos.len() && (#[trigger] infos[i]).id@ == product_id
}

/// The products in the database that are not among those that were just persisted. These have to be deleted.
pub fn stale_products(product_name_info: &[ProductNameInfo], existing: Vec<String>) -> (r: Vec<String>)
    ensures
        r@ == existing@.filter(|product_id: String| !has_product_id(product_name_info@, product_id@)),
{
    let ghost all = existing@;
    let ghost is_stale = |product_id: String| !has_product_id(product_name_info@, product_id@);
    let mut stale: Vec<String> = Vec::new();
    proof {
        reveal(Seq::filter);
        assert(all.take(0) =~= Seq::<String>::empty());
    }
    for product_id in it: existing
        invariant
            it.seq() == all,
            is_stale == (|product_id: String| !has_product_id(product_name_info@, product_id@)),
            stale@ == all.take(it.index() as int).filter(is_stale),
    {
        proof {
            reveal(Seq::filter);
            assert(all.take(it.index() + 1).drop_last() =~= all.take(it.index() as int));
            assert(all.take(it.index() + 1).last() == all[it.index() as int]);
        }
        let mut found = false;
        for i in 0..product_name_info.len()
            invariant
                found <==> exists|j: int| 0 <= j < i && (#[trigger] product_name_info@[j]).id@ == product_id@,
        {
            if product_name_info[i].id == product_id {
                found = true;
            }
        }
        if !found {
            stale.push(product_id);
        }
    }
    proof {
        assert(all.take(all.len() as int) =~= all);
    }
    stale
}

/// Whether a product version is among those that are persisted.
pub open spec fn has_db_version(
    infos: Seq<ProductVersionNameInfo>,
    product_id: Seq<char>,
    version_id: Seq<char>,
) -> bool {
    exists|i: int|
        0 <= i < infos.len() && (#[trigger] infos[i]).id@.product_id == product_id && db_version(infos[i].id@)
            == version_id
}

/// The product versions in the database that are not among those that were just persisted. These have to be deleted.
pub fn stale_product_versions(
    product_version_name_info: &[ProductVersionNameInfo],
    existing: Vec<(String, String)>,
) -> (r: Vec<(String, String)>)
    ensures
        r@ == existing@.filter(
            |key: (String, String)| !has_db_version(product_version_name_info@, key.0@, key.1@),
        ),
{
    let ghost all = existing@;
    let ghost is_stale = |key: (String, String)| !has_db_version(product_version_name_info@, key.0@, key.1@);
    let mut stale: Vec<(String, String)> = Vec::new();
    proof {
        reveal(Seq::filter);
        assert(all.take(0) =~= Seq::<(String, String)>::empty());
    }
    for key in it: existing
        invariant
            it.seq() == all,
            is_stale == (|key: (String, String)| !has_db_version(product_version_name_info@, key.0@, key.1@)),
            stale@ == all.take(it.index() as int).filter(is_stale),
    {
        proof {
            reveal(Seq::filter);
            assert(all.take(it.index() + 1).drop_last() =~= all.take(it.index() as int));
            assert(all.take(it.index() + 1).last() == all[it.index() as int]);
        }
        let mut found = false;
        for i in 0..product_version_name_info.len()
            invariant
                found <==> exists|j: int|
                    0 <= j < i && (#[trigger] product_version_name_info@[j]).id@.product_id == key.0@ && db_version(
                        product_version_name_info@[j].id@,
                    ) == key.1@,
        {
            let (product_id, version_id) = product_version_name_info[i].id.as_db_values();
            if str_equals(product_id, key.0.as_str()) && str_equals(version_id, key.1.as_str()) {
                found = true;
            }
        }
        if !found {
            stale.push(key);
        }
    }
    proof {
        assert(all.take(all.len() as int) =~= all);
    }
    stale
}

/// Whether the owner of a guild is due to be told about rejected Gumroad keys: that has not happened yet, and
/// there are at least 10 of them, and more than a fifth of the number of successful activations.
pub fn needs_gumroad_nag(nag_count: u64, failure_count: u64, activation_count: u64) -> (r: bool)
    ensures
        r <==> nag_count < 1 && failure_count >= 10 && failure_count * 5 > activation_count,
{
    nag_count < 1 && failure_count >= 10 && failure_count as u128 * 5 > activation_count as u128
}

} // verus!
