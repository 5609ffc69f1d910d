//! A store-level cache of Jinxxy product and version names.
//!
//! Autocompletion needs names at high frequency with low latency, which the Jinxxy API cannot deliver. So names are
//! always read from the cache, even from an expired entry of it, and entries are refreshed in the background.

use super::name_index::{
    are_completions, are_values_of, completions_miss_no_name, completions_start_with_the_prefix, index_of, lowercase,
    trie_entries, NameIndex,
};
use super::refresh::HIGH_PRIORITY_CACHE_EXPIRY_MILLIS;
use super::util::{
    cut, display_name, display_name_fits, product_display_name, truncate_string_for_discord_autocomplete,
    AUTOCOMPLETE_CHARACTER_LIMIT, AUTOCOMPLETE_RESULT_LIMIT,
};
use crate::db::GuildCache;
use crate::error::JinxError;
use crate::http::jinxxy::{
    FullProduct, JinxxyError, LoadedProduct, ProductNameInfo, ProductNameInfoValue, ProductVersion, ProductVersionId,
    ProductVersionIdView, ProductVersionNameInfo,
};
use crate::text::str_equals;
use crate::time::{millis_between, SimpleTime};
use vstd::prelude::*;
use vstd::utf8::encode_utf8;

verus! {

/// What is known of a product's name.
pub struct ProductName {
    pub id: Seq<char>,
    pub name: Seq<char>,
    pub etag: Option<Seq<u8>>,
}

/// What is known of a product version's name.
pub struct ProductVersionName {
    pub id: ProductVersionIdView,
    pub name: Seq<char>,
}

/// The content of a tag.
pub open spec fn etag_bytes(etag: Option<Vec<u8>>) -> Option<Seq<u8>> {
    match etag {
        Some(etag) => Some(etag@),
        None => None,
    }
}

impl View for ProductNameInfo {
    type V = ProductName;

    open spec fn view(&self) -> ProductName {
        ProductName { id: self.id@, name: self.value.product_name@, etag: etag_bytes(self.value.etag) }
    }
}

impl View for ProductVersionNameInfo {
    type V = ProductVersionName;

    open spec fn view(&self) -> ProductVersionName {
        ProductVersionName { id: self.id@, name: self.product_version_name@ }
    }
}

/// What is known of the names of products.
pub open spec fn product_names(infos: Seq<ProductNameInfo>) -> Seq<ProductName> {
    infos.map_values(|info: ProductNameInfo| info@)
}

/// What is known of the names of product versions.
pub open spec fn version_names(infos: Seq<ProductVersionNameInfo>) -> Seq<ProductVersionName> {
    infos.map_values(|info: ProductVersionNameInfo| info@)
}

/// The names under which the products are cached. Products with empty names are left out, and long names are cut.
pub open spec fn cached_products(products: Seq<LoadedProduct>) -> Seq<ProductName>
    decreases products.len(),
{
    if products.len() == 0 {
        Seq::empty()
    } else {
        let others = cached_products(products.drop_last());
        match products.last() {
            LoadedProduct::Api(product) => if product.name@.len() == 0 {
                others
            } else {
                others.push(
                    ProductName {
                        id: product.id@,
                        name: cut(product.name@, AUTOCOMPLETE_CHARACTER_LIMIT as int),
                        etag: etag_bytes(product.etag),
                    },
                )
            },
            LoadedProduct::Cached { product_info, .. } => others.push(product_info@),
        }
    }
}

/// The names under which a product is cached: that of the product without a version comes first, then each version's.
pub open spec fn product_version_names(product: FullProduct) -> Seq<ProductVersionName> {
    seq![
        ProductVersionName {
            id: ProductVersionIdView { product_id: product.id@, product_version_id: None },
            name: display_name(product.name@, None),
        },
    ] + product.versions@.map_values(
        |version: ProductVersion|
            ProductVersionName {
                id: ProductVersionIdView { product_id: product.id@, product_version_id: Some(version.id@) },
                name: display_name(product.name@, Some(version.name@)),
            },
    )
}

/// The names under which the product versions are cached.
pub open spec fn cached_versions(products: Seq<LoadedProduct>) -> Seq<ProductVersionName>
    decreases products.len(),
{
    if products.len() == 0 {
        Seq::empty()
    } else {
        let others = cached_versions(products.drop_last());
        match products.last() {
            LoadedProduct::Api(product) => if product.name@.len() == 0 {
                others
            } else {
                others + product_version_names(product)
            },
            LoadedProduct::Cached { versions, .. } => others + version_names(versions@),
        }
    }
}

fn version_name_infos(product: &FullProduct) -> (r: Vec<ProductVersionNameInfo>)
    ensures
        version_names(r@) == product_version_names(*product),
{
    let mut infos: Vec<ProductVersionNameInfo> = Vec::new();
    infos.push(
        ProductVersionNameInfo {
            id: ProductVersionId::from_product_id(product.id.as_str()),
            product_version_name: product_display_name(product.name.as_str(), None),
        },
    );
    for i in 0..product.versions.len()
        invariant
            infos@.len() == i + 1,
            forall|j: int| 0 <= j <= i ==> #[trigger] infos@[j]@ == product_version_names(*product)[j],
    {
        let version = &product.versions[i];
        let id = ProductVersionId {
            product_id: product.id.clone(),
            product_version_id: Some(version.id.clone()),
        };
        let product_version_name = product_display_name(product.name.as_str(), Some(version.name.as_str()));
        infos.push(ProductVersionNameInfo { id, product_version_name });
    }
    proof {
        assert(version_names(infos@) =~= product_version_names(*product));
    }
    infos
}

/// Convert products into the names under which they, and their versions, are cached
pub fn names_of_products(products: Vec<LoadedProduct>) -> (r: (
    Vec<ProductNameInfo>,
    Vec<ProductVersionNameInfo>,
))
    ensures
        product_names(r.0@) == cached_products(products@),
        version_names(r.1@) == cached_versions(products@),
{
    let ghost all = products@;
    let mut product_name_info: Vec<ProductNameInfo> = Vec::new();
    let mut product_version_name_info: Vec<ProductVersionNameInfo> = Vec::new();
    proof {
        assert(product_names(product_name_info@) =~= cached_products(all.take(0)));
        assert(version_names(product_version_name_info@) =~= cached_versions(all.take(0)));
    }
    for product in it: products
        invariant
            it.seq() == all,
            product_names(product_name_info@) == cached_products(all.take(it.index() as int)),
            version_names(product_version_name_info@) == cached_versions(all.take(it.index() as int)),
    {
        proof {
            assert(all.take(it.index() + 1).drop_last() =~= all.take(it.index() as int));
            assert(all.take(it.index() + 1).last() == all[it.index() as int]);
        }
        let ghost names_before = product_name_info@;
        let ghost versions_before = product_version_name_info@;
        match product {
            LoadedProduct::Api(product) => {
                // products with empty names are kinda weird, so they are filtered to avoid any potential pitfalls
                if !product.name.as_str().is_empty() {
                    let mut infos = version_name_infos(&product);
                    let ghost added = infos@;
                    product_version_name_info.append(&mut infos);
                    let product_name = truncate_string_for_discord_autocomplete(product.name.as_str());
                    product_name_info.push(
                        ProductNameInfo {
                            id: product.id,
                            value: ProductNameInfoValue { product_name, etag: product.etag },
                        },
                    );
                    proof {
                        assert(version_names(product_version_name_info@) =~= version_names(versions_before)
                            + version_names(added));
                        assert(product_names(product_name_info@) =~= product_names(names_before).push(
                            product_name_info@.last()@,
                        ));
                    }
                }
            }
            LoadedProduct::Cached { product_info, versions } => {
                let mut versions = versions;
                let ghost added = versions@;
                product_name_info.push(product_info);
                product_version_name_info.append(&mut versions);
                proof {
                    assert(version_names(product_version_name_info@) =~= version_names(versions_before)
                        + version_names(added));
                    assert(product_names(product_name_info@) =~= product_names(names_before).push(
                        product_info@,
                    ));
                }
            }
        }
    }
    proof {
        assert(all.take(all.len() as int) =~= all);
    }
    (product_name_info, product_version_name_info)
}

/// Whether cached names are fit to be completed to: none is empty, and none is longer than Discord allows.
pub open spec fn names_fit(products: Seq<ProductName>, versions: Seq<ProductVersionName>) -> bool {
    &&& forall|i: int|
        0 <= i < products.len() ==> 0 < (#[trigger] products[i]).name.len() <= AUTOCOMPLETE_CHARACTER_LIMIT
    &&& forall|i: int|
        0 <= i < versions.len() ==> 0 < (#[trigger] versions[i]).name.len() <= AUTOCOMPLETE_CHARACTER_LIMIT
}

/// The names of products from the API are fit to be completed to, whatever they are called there, if those that
/// were cached before are.
pub proof fn loaded_names_fit(products: Seq<LoadedProduct>)
    requires
        forall|i: int|
            0 <= i < products.len() ==> ((#[trigger] products[i]) matches LoadedProduct::Cached { product_info, versions }
                ==> names_fit(seq![product_info@], version_names(versions@))),
    ensures
        names_fit(cached_products(products), cached_versions(products)),
    decreases products.len(),
{
    if products.len() > 0 {
        let init = products.drop_last();
        assert forall|i: int| 0 <= i < init.len() implies ((#[trigger] init[i]) matches LoadedProduct::Cached {
            product_info,
            versions,
        } ==> names_fit(seq![product_info@], version_names(versions@))) by {
            assert(init[i] == products[i]);
        }
        loaded_names_fit(init);
        assert(products[products.len() - 1] == products.last());
        match products.last() {
            LoadedProduct::Api(product) => {
                let names = product_version_names(product);
                display_name_fits(product.name@, None);
                assert forall|i: int| 0 <= i < names.len() implies 0 < (#[trigger] names[i]).name.len()
                    <= AUTOCOMPLETE_CHARACTER_LIMIT by {
                    if i > 0 {
                        display_name_fits(product.name@, Some(product.versions@[i - 1].name@));
                    }
                }
            },
            LoadedProduct::Cached { product_info, versions } => {
                assert(seq![product_info@][0] == product_info@);
            },
        }
    }
}

/// The last of the products with an ID.
pub open spec fn name_of_product(products: Seq<ProductName>, product_id: Seq<char>) -> Option<Seq<char>>
    decreases products.len(),
{
    if products.len() == 0 {
        None
    } else if products.last().id == product_id {
        Some(products.last().name)
    } else {
        name_of_product(products.drop_last(), product_id)
    }
}

/// The last of the product versions with an ID.
pub open spec fn name_of_version(versions: Seq<ProductVersionName>, id: ProductVersionIdView) -> Option<Seq<char>>
    decreases versions.len(),
{
    if versions.len() == 0 {
        None
    } else if versions.last().id == id {
        Some(versions.last().name)
    } else {
        name_of_version(versions.drop_last(), id)
    }
}

/// The IDs of the products with a name, in order.
pub open spec fn products_named(products: Seq<ProductName>, name: Seq<char>) -> Seq<Seq<char>>
    decreases products.len(),
{
    if products.len() == 0 {
        Seq::empty()
    } else if products.last().name == name {
        products_named(products.drop_last(), name).push(products.last().id)
    } else {
        products_named(products.drop_last(), name)
    }
}

/// The IDs of the product versions with a name, in order.
pub open spec fn versions_named(versions: Seq<ProductVersionName>, name: Seq<char>) -> Seq<ProductVersionIdView>
    decreases versions.len(),
{
    if versions.len() == 0 {
        Seq::empty()
    } else if versions.last().name == name {
        versions_named(versions.drop_last(), name).push(versions.last().id)
    } else {
        versions_named(versions.drop_last(), name)
    }
}

/// The distinct names of products, in the order in which they first occur.
pub open spec fn distinct_names(products: Seq<ProductName>) -> Seq<Seq<char>>
    decreases products.len(),
{
    if products.len() == 0 {
        Seq::empty()
    } else {
        let others = distinct_names(products.drop_last());
        if others.contains(products.last().name) {
            others
        } else {
            others.push(products.last().name)
        }
    }
}

/// Names of the products, and of the product versions, of a store
#[derive(Debug)]
pub struct StoreCache {
    pub product_name_info: Vec<ProductNameInfo>,
    /// completes to product names
    pub product_name_index: NameIndex,
    pub product_version_name_info: Vec<ProductVersionNameInfo>,
    /// completes to product version names
    pub product_version_name_index: NameIndex,
    /// Time this cache was constructed
    pub create_time: SimpleTime,
}

impl StoreCache {
    /// What always holds: the indexes are those of the names.
    pub open spec fn wf(self) -> bool {
        &&& trie_entries(self.product_name_index.trie) == index_of(
            product_names(self.product_name_info@).map_values(|p: ProductName| p.name),
        )
        &&& trie_entries(self.product_version_name_index.trie) == index_of(
            version_names(self.product_version_name_info@).map_values(|v: ProductVersionName| v.name),
        )
    }

    /// Create a cache entry from values. No name may be empty.
    pub fn from_products(
        product_name_info: Vec<ProductNameInfo>,
        product_version_name_info: Vec<ProductVersionNameInfo>,
        create_time: SimpleTime,
    ) -> (r: StoreCache)
        requires
            forall|i: int|
                0 <= i < product_name_info@.len() ==> (#[trigger] product_name_info@[i])@.name.len() > 0,
            forall|i: int|
                0 <= i < product_version_name_info@.len() ==> (#[trigger] product_version_name_info@[i])@.name.len()
                    > 0,
        ensures
            r.wf(),
            r.product_name_info == product_name_info,
            r.product_version_name_info == product_version_name_info,
            r.create_time == create_time,
    {
        let mut names: Vec<&String> = Vec::new();
        for i in 0..product_name_info.len()
            invariant
                forall|i: int|
                    0 <= i < product_name_info@.len() ==> (#[trigger] product_name_info@[i])@.name.len() > 0,
                names@.len() == i,
                forall|j: int| 0 <= j < i ==> #[trigger] names@[j] == product_name_info@[j].value.product_name,
        {
            names.push(&product_name_info[i].value.product_name);
        }
        proof {
            assert forall|i: int| 0 <= i < names@.len() implies (#[trigger] names@[i])@.len() > 0 by {
                assert(product_name_info@[i]@.name.len() > 0);
            }
        }
        let product_name_index = NameIndex::new(names.as_slice());
        proof {
            assert(names@.map_values(|name: &String| name@) =~= product_names(product_name_info@).map_values(
                |p: ProductName| p.name,
            ));
        }
        let mut version_name_list: Vec<&String> = Vec::new();
        for i in 0..product_version_name_info.len()
            invariant
                forall|i: int|
                    0 <= i < product_version_name_info@.len() ==> (#[trigger] product_version_name_info@[i])@.name.len()
                        > 0,
                version_name_list@.len() == i,
                forall|j: int|
                    0 <= j < i ==> #[trigger] version_name_list@[j]
                        == product_version_name_info@[j].product_version_name,
        {
            version_name_list.push(&product_version_name_info[i].product_version_name);
        }
        proof {
            assert forall|i: int| 0 <= i < version_name_list@.len() implies (#[trigger] version_name_list@[i])@.len()
                > 0 by {
                assert(product_version_name_info@[i]@.name.len() > 0);
            }
        }
        let product_version_name_index = NameIndex::new(version_name_list.as_slice());
        proof {
            assert(version_name_list@.map_values(|name: &String| name@) =~= version_names(
                product_version_name_info@,
            ).map_values(|v: ProductVersionName| v.name));
        }
        StoreCache {
            product_name_info,
            product_name_index,
            product_version_name_info,
            product_version_name_index,
            create_time,
        }
    }

    /// Create a cache entry from what was persisted, unless nothing was. No name may be empty.
    pub fn from_db(db_cache_entry: GuildCache) -> (r: Option<StoreCache>)
        requires
            forall|i: int|
                0 <= i < db_cache_entry.product_name_info@.len() ==> (
                #[trigger] db_cache_entry.product_name_info@[i])@.name.len() > 0,
            forall|i: int|
                0 <= i < db_cache_entry.product_version_name_info@.len() ==> (
                #[trigger] db_cache_entry.product_version_name_info@[i])@.name.len() > 0,
        ensures
            r is None <==> db_cache_entry.product_name_info@.len() == 0
                && db_cache_entry.product_version_name_info@.len() == 0 && db_cache_entry.cache_time.unix_millis == 0,
            r matches Some(cache) ==> {
                &&& cache.wf()
                &&& cache.product_name_info == db_cache_entry.product_name_info
                &&& cache.product_version_name_info == db_cache_entry.product_version_name_info
                &&& cache.create_time == db_cache_entry.cache_time
            },
    {
        if db_cache_entry.product_name_info.len() == 0 && db_cache_entry.product_version_name_info.len() == 0
            && db_cache_entry.cache_time.as_epoch_millis() == 0 {
            // don't even try building this mildly expensive struct if we have no data
            None
        } else {
            Some(
                StoreCache::from_products(
                    db_cache_entry.product_name_info,
                    db_cache_entry.product_version_name_info,
                    db_cache_entry.cache_time,
                ),
            )
        }
    }

    /// Product names with prefix, in whatever case
    pub fn product_names_with_prefix(&self, prefix: &str) -> (r: Vec<String>)
        requires
            self.wf(),
        ensures
            is_autocompletion(
                r@,
                product_names(self.product_name_info@).map_values(|p: ProductName| p.name),
                prefix@,
            ),
            lowercase(prefix@).len() == 0 <==> prefix@.len() == 0,
    {
        self.product_name_index.complete(prefix)
    }

    /// Product version names with prefix, in whatever case
    pub fn product_version_names_with_prefix(&self, prefix: &str) -> (r: Vec<String>)
        requires
            self.wf(),
        ensures
            is_autocompletion(
                r@,
                version_names(self.product_version_name_info@).map_values(|v: ProductVersionName| v.name),
                prefix@,
            ),
            lowercase(prefix@).len() == 0 <==> prefix@.len() == 0,
    {
        self.product_version_name_index.complete(prefix)
    }

    pub fn product_id_to_name(&self, product_id: &str) -> (r: Option<&str>)
        ensures
            shown(r) == name_of_product(product_names(self.product_name_info@), product_id@),
    {
        let ghost names = product_names(self.product_name_info@);
        let mut i: usize = self.product_name_info.len();
        proof {
            assert(names.take(i as int) =~= names);
        }
        while i > 0
            invariant
                names == product_names(self.product_name_info@),
                i <= self.product_name_info@.len(),
                name_of_product(names, product_id@) == name_of_product(names.take(i as int), product_id@),
            decreases i,
        {
            proof {
                assert(names.take(i as int).drop_last() =~= names.take(i - 1));
                assert(names.take(i as int).last() == self.product_name_info@[i - 1]@);
            }
            if str_equals(self.product_name_info[i - 1].id.as_str(), product_id) {
                return Some(self.product_name_info[i - 1].value.product_name.as_str());
            }
            i = i - 1;
        }
        None
    }

    pub fn product_version_id_to_name(&self, product_version_id: &ProductVersionId) -> (r: Option<&str>)
        ensures
            shown(r) == name_of_version(version_names(self.product_version_name_info@), product_version_id@),
    {
        let ghost names = version_names(self.product_version_name_info@);
        let mut i: usize = self.product_version_name_info.len();
        proof {
            assert(names.take(i as int) =~= names);
        }
        while i > 0
            invariant
                names == version_names(self.product_version_name_info@),
                i <= self.product_version_name_info@.len(),
                name_of_version(names, product_version_id@) == name_of_version(
                    names.take(i as int),
                    product_version_id@,
                ),
            decreases i,
        {
            proof {
                assert(names.take(i as int).drop_last() =~= names.take(i - 1));
                assert(names.take(i as int).last() == self.product_version_name_info@[i - 1]@);
            }
            if self.product_version_name_info[i - 1].id.same(product_version_id) {
                return Some(self.product_version_name_info[i - 1].product_version_name.as_str());
            }
            i = i - 1;
        }
        None
    }

    pub fn product_name_to_ids(&self, product_name: &str) -> (r: Vec<String>)
        ensures
            r@.map_values(|id: String| id@) == products_named(product_names(self.product_name_info@), product_name@),
    {
        let ghost names = product_names(self.product_name_info@);
        let mut ids: Vec<String> = Vec::new();
        proof {
            assert(ids@.map_values(|id: String| id@) =~= products_named(names.take(0), product_name@));
        }
        for i in 0..self.product_name_info.len()
            invariant
                names == product_names(self.product_name_info@),
                ids@.map_values(|id: String| id@) == products_named(names.take(i as int), product_name@),
        {
            proof {
                assert(names.take(i + 1).drop_last() =~= names.take(i as int));
                assert(names.take(i + 1).last() == self.product_name_info@[i as int]@);
            }
            if str_equals(self.product_name_info[i].value.product_name.as_str(), product_name) {
                let ghost before = ids@;
                ids.push(self.product_name_info[i].id.clone());
                proof {
                    assert(ids@.map_values(|id: String| id@) =~= before.map_values(|id: String| id@).push(
                        self.product_name_info@[i as int].id@,
                    ));
                }
            }
        }
        proof {
            assert(names.take(names.len() as int) =~= names);
        }
        ids
    }

    pub fn product_version_name_to_version_ids(&self, product_name: &str) -> (r: Vec<ProductVersionId>)
        ensures
            r@.map_values(|id: ProductVersionId| id@) == versions_named(
                version_names(self.product_version_name_info@),
                product_name@,
            ),
    {
        let ghost names = version_names(self.product_version_name_info@);
        let mut ids: Vec<ProductVersionId> = Vec::new();
        proof {
            assert(ids@.map_values(|id: ProductVersionId| id@) =~= versions_named(names.take(0), product_name@));
        }
        for i in 0..self.product_version_name_info.len()
            invariant
                names == version_names(self.product_version_name_info@),
                ids@.map_values(|id: ProductVersionId| id@) == versions_named(names.take(i as int), product_name@),
        {
            proof {
                assert(names.take(i + 1).drop_last() =~= names.take(i as int));
                assert(names.take(i + 1).last() == self.product_version_name_info@[i as int]@);
            }
            if str_equals(self.product_version_name_info[i].product_version_name.as_str(), product_name) {
                let ghost before = ids@;
                ids.push(self.product_version_name_info[i].id.copied());
                proof {
                    assert(ids@.map_values(|id: ProductVersionId| id@) =~= before.map_values(
                        |id: ProductVersionId| id@,
                    ).push(self.product_version_name_info@[i as int].id@));
                }
            }
        }
        proof {
            assert(names.take(names.len() as int) =~= names);
        }
        ids
    }

    /// Each distinct product name once
    pub fn distinct_product_names(&self) -> (r: Vec<String>)
        ensures
            r@.map_values(|name: String| name@) == distinct_names(product_names(self.product_name_info@)),
    {
        let ghost names = product_names(self.product_name_info@);
        let mut distinct: Vec<String> = Vec::new();
        proof {
            assert(distinct@.map_values(|name: String| name@) =~= distinct_names(names.take(0)));
        }
        for i in 0..self.product_name_info.len()
            invariant
                names == product_names(self.product_name_info@),
                distinct@.map_values(|name: String| name@) == distinct_names(names.take(i as int)),
        {
            proof {
                assert(names.take(i + 1).drop_last() =~= names.take(i as int));
                assert(names.take(i + 1).last() == self.product_name_info@[i as int]@);
            }
            let name = &self.product_name_info[i].value.product_name;
            if !contains_text(distinct.as_slice(), name.as_str()) {
                let ghost before = distinct@;
                distinct.push(name.clone());
                proof {
                    assert(distinct@.map_values(|name: String| name@) =~= before.map_values(
                        |name: String| name@,
                    ).push(name@));
                }
            }
        }
        proof {
            assert(names.take(names.len() as int) =~= names);
        }
        distinct
    }

    /// Number of products
    pub fn product_count(&self) -> (r: usize)
        ensures
            r == self.product_name_info@.len(),
    {
        self.product_name_info.len()
    }

    /// Number of product versions, including null versions
    pub fn product_version_count(&self) -> (r: usize)
        ensures
            r == self.product_version_name_info@.len(),
    {
        self.product_version_name_info.len()
    }
}

/// The content of an optional text.
pub open spec fn shown(s: Option<&str>) -> Option<Seq<char>> {
    match s {
        Some(s) => Some(s@),
        None => None,
    }
}

/// Whether a list holds what a prefix is completed to: the names that start with it, in whatever case, in the
/// order of their lower case forms.
pub open spec fn is_autocompletion(choices: Seq<String>, names: Seq<Seq<char>>, prefix: Seq<char>) -> bool {
    exists|found: Seq<(Vec<u8>, String)>| #[trigger]
        are_completions(found, index_of(names), encode_utf8(lowercase(prefix))) && are_values_of(choices, found)
}

/// The choices that are offered: the first ones, up to Discord's limit.
pub open spec fn offered(choices: Seq<String>) -> Seq<String> {
    if choices.len() <= AUTOCOMPLETE_RESULT_LIMIT {
        choices
    } else {
        choices.take(AUTOCOMPLETE_RESULT_LIMIT as int)
    }
}

/// Cut choices, which may come from several stores, to Discord's limit
pub fn limit_choices(choices: Vec<String>) -> (r: Vec<String>)
    ensures
        r@ == offered(choices@),
{
    let mut limited = choices;
    limited.truncate(AUTOCOMPLETE_RESULT_LIMIT);
    limited
}

/// There are never more choices on offer than Discord allows. Those on offer are the first ones, and none is left out
/// as long as they are few enough.
pub proof fn offers_are_limited(choices: Seq<String>)
    ensures
        offered(choices).len() <= AUTOCOMPLETE_RESULT_LIMIT,
        offered(choices).is_prefix_of(choices),
        choices.len() <= AUTOCOMPLETE_RESULT_LIMIT ==> offered(choices) == choices,
{
    if choices.len() <= AUTOCOMPLETE_RESULT_LIMIT {
        assert(choices =~= choices.subrange(0, choices.len() as int));
    }
}

/// Every completion is a cached name that starts with the prefix, in whatever case.
pub proof fn choices_start_with_the_prefix(choices: Seq<String>, names: Seq<Seq<char>>, prefix: Seq<char>, i: int)
    requires
        is_autocompletion(choices, names, prefix),
        0 <= i < choices.len(),
    ensures
        names.contains(choices[i]@),
        lowercase(prefix).is_prefix_of(lowercase(choices[i]@)),
{
    let found = choose|found: Seq<(Vec<u8>, String)>| #[trigger]
        are_completions(found, index_of(names), encode_utf8(lowercase(prefix))) && are_values_of(choices, found);
    completions_start_with_the_prefix(found, names, prefix, i);
    assert(choices[i]@ == found[i].1@);
}

/// Every cached name that starts with the prefix, in whatever case, is among the completions, or another name with
/// the same lower case form is.
pub proof fn choices_miss_no_name(choices: Seq<String>, names: Seq<Seq<char>>, prefix: Seq<char>, name: Seq<char>)
    requires
        is_autocompletion(choices, names, prefix),
        names.contains(name),
        lowercase(prefix).is_prefix_of(lowercase(name)),
    ensures
        exists|i: int| 0 <= i < choices.len() && lowercase((#[trigger] choices[i])@) == lowercase(name),
{
    let found = choose|found: Seq<(Vec<u8>, String)>| #[trigger]
        are_completions(found, index_of(names), encode_utf8(lowercase(prefix))) && are_values_of(choices, found);
    completions_miss_no_name(found, names, prefix, name);
    let i = choose|i: int| 0 <= i < found.len() && lowercase((#[trigger] found[i]).1@) == lowercase(name);
    assert(choices[i]@ == found[i].1@);
}

/// Whether a text is among others
pub fn contains_text(texts: &[String], text: &str) -> (r: bool)
    ensures
        r == texts@.map_values(|t: String| t@).contains(text@),
{
    let ghost views = texts@.map_values(|t: String| t@);
    for i in 0..texts.len()
        invariant
            views == texts@.map_values(|t: String| t@),
            forall|j: int| 0 <= j < i ==> views[j] != text@,
    {
        if str_equals(texts[i].as_str(), text) {
            proof {
                assert(views[i as int] == text@);
            }
            return true;
        }
    }
    false
}

/// How a read of the cache is served
#[derive(Debug, Copy, Clone, PartialEq, Eq, Structural)]
pub enum ReadPlan {
    /// There is an entry: serve it
    Serve,
    /// There is an entry, but it is getting old: serve it, and have it refreshed
    ServeAndRefresh,
    /// There is no entry: load one, serve it and cache it
    Load,
}

/// Whether a cache entry is a wee bit expired.
pub open spec fn is_stale(create_time: SimpleTime, now: SimpleTime) -> bool {
    millis_between(create_time, now) > HIGH_PRIORITY_CACHE_EXPIRY_MILLIS
}

/// check if a cache entry is a wee bit expired
pub fn is_expired_high_priority(create_time: SimpleTime, now: SimpleTime) -> (r: bool)
    ensures
        r == is_stale(create_time, now),
{
    now.duration_since(create_time) > HIGH_PRIORITY_CACHE_EXPIRY_MILLIS
}

/// How a read is served, given when the cache entry was created if there is one: an entry is always served, even if
/// it is expired.
pub fn plan_read(create_time: Option<SimpleTime>, now: SimpleTime) -> (r: ReadPlan)
    ensures
        r is Load <==> create_time is None,
        r is ServeAndRefresh <==> (create_time matches Some(create_time) && is_stale(create_time, now)),
{
    match create_time {
        None => ReadPlan::Load,
        Some(create_time) => if is_expired_high_priority(create_time, now) {
            ReadPlan::ServeAndRefresh
        } else {
            ReadPlan::Serve
        },
    }
}

/// Whether a refresh that was asked for is still called for, given when the cache entry was created if there is one
pub fn needs_refresh(create_time: Option<SimpleTime>, now: SimpleTime) -> (r: bool)
    ensures
        r <==> (create_time matches Some(create_time) ==> is_stale(create_time, now)),
{
    match create_time {
        None => true,
        Some(create_time) => is_expired_high_priority(create_time, now),
    }
}

/// No completion is longer than Discord allows, if no cached name is.
pub proof fn choices_fit(choices: Seq<String>, names: Seq<Seq<char>>, prefix: Seq<char>, i: int)
    requires
        is_autocompletion(choices, names, prefix),
        forall|k: int| 0 <= k < names.len() ==> (#[trigger] names[k]).len() <= AUTOCOMPLETE_CHARACTER_LIMIT,
        0 <= i < choices.len(),
    ensures
        choices[i]@.len() <= AUTOCOMPLETE_CHARACTER_LIMIT,
{
    choices_start_with_the_prefix(choices, names, prefix, i);
    let k = choose|k: int| 0 <= k < names.len() && names[k] == choices[i]@;
    assert(names[k].len() <= AUTOCOMPLETE_CHARACTER_LIMIT);
}

/// What an API key is used for
#[derive(Debug, Clone, Copy, PartialEq, Eq, Structural)]
pub enum KeyUse {
    /// The background job that keeps the cache warm
    Background,
    /// A load that somebody waits for, or soon will
    HighPriority,
}

/// Whether a key may be used. A key that turned out to be invalid is not tried again in the background.
pub fn may_use_key(key_use: KeyUse, valid: bool) -> (r: bool)
    ensures
        r <==> valid || key_use == KeyUse::HighPriority,
{
    valid || key_use == KeyUse::HighPriority
}

/// Whether an error shows that an API key is invalid.
pub open spec fn shows_invalid_key(error: JinxError) -> bool {
    error matches JinxError::Jinxxy(JinxxyError::HttpResponse(response)) && (response.status_code == 401
        || response.status_code == 403)
}

/// Tells what is known of a key's validity after its use, if the use tells anything. `error` is what went wrong, if
/// anything did. Only the background job finds a key invalid, and only a high-priority load finds it valid again.
pub fn key_validity_after(key_use: KeyUse, error: Option<&JinxError>) -> (r: Option<bool>)
    ensures
        r == (match key_use {
            KeyUse::Background => if error matches Some(error) && shows_invalid_key(*error) {
                Some(false)
            } else {
                None
            },
            KeyUse::HighPriority => if error is None {
                Some(true)
            } else {
                None
            },
        }),
{
    match (key_use, error) {
        (KeyUse::Background, Some(error)) => if error.is_api_key_invalid() {
            Some(false)
        } else {
            None
        },
        (KeyUse::HighPriority, None) => Some(true),
        _ => None,
    }
}

} // verus!
