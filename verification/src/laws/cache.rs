//! The names of products and product versions in the cache

use crate::bot::cache::{
    cached_products, cached_versions, choices_miss_no_name, choices_start_with_the_prefix, distinct_names,
    etag_bytes, limit_choices,
    name_of_product, name_of_version, names_of_products, needs_refresh, plan_read, product_names,
    product_version_names, products_named, version_names, versions_named, ProductName, ProductVersionName, ReadPlan,
    StoreCache,
};
use crate::bot::name_index::{
    index_of, lowercase, prefix_of_bytes_is_prefix_of_text, trie_entries, NameIndex,
};
use crate::bot::util::{cut, product_display_name};
use crate::db::GuildCache;
use crate::http::jinxxy::{
    FullProduct, LoadedProduct, ProductNameInfo, ProductVersionId, ProductVersionIdView, ProductVersionNameInfo,
};
use crate::time::SimpleTime;
use vstd::prelude::*;
use vstd::utf8::encode_utf8;

verus! {

proof fn products_named_are_those(products: Seq<ProductName>, name: Seq<char>, id: Seq<char>)
    ensures
        products_named(products, name).contains(id) <==> exists|i: int|
            0 <= i < products.len() && (#[trigger] products[i]).name == name && products[i].id == id,
    decreases products.len(),
{
    if products.len() > 0 {
        let init = products.drop_last();
        let last = products.last();
        let before = products_named(init, name);
        let all = products_named(products, name);
        products_named_are_those(init, name, id);
        assert forall|i: int| 0 <= i < init.len() implies #[trigger] init[i] == products[i] by {}
        if all.contains(id) {
            let k = choose|k: int| 0 <= k < all.len() && all[k] == id;
            if last.name == name && k == before.len() {
                assert(products[products.len() - 1].name == name);
            } else {
                assert(before[k] == id);
                let i = choose|i: int| 0 <= i < init.len() && (#[trigger] init[i]).name == name && init[i].id == id;
                assert(products[i].name == name);
            }
        }
        if exists|i: int| 0 <= i < products.len() && (#[trigger] products[i]).name == name && products[i].id == id {
            let i = choose|i: int|
                0 <= i < products.len() && (#[trigger] products[i]).name == name && products[i].id == id;
            if i < init.len() {
                assert(init[i].name == name);
                let k = choose|k: int| 0 <= k < before.len() && before[k] == id;
                assert(all[k] == id);
            } else {
                assert(all[before.len() as int] == id);
            }
        }
    }
}

proof fn versions_named_are_those(versions: Seq<ProductVersionName>, name: Seq<char>, id: ProductVersionIdView)
    ensures
        versions_named(versions, name).contains(id) <==> exists|i: int|
            0 <= i < versions.len() && (#[trigger] versions[i]).name == name && versions[i].id == id,
    decreases versions.len(),
{
    if versions.len() > 0 {
        let init = versions.drop_last();
        let last = versions.last();
        let before = versions_named(init, name);
        let all = versions_named(versions, name);
        versions_named_are_those(init, name, id);
        assert forall|i: int| 0 <= i < init.len() implies #[trigger] init[i] == versions[i] by {}
        if all.contains(id) {
            let k = choose|k: int| 0 <= k < all.len() && all[k] == id;
            if last.name == name && k == before.len() {
                assert(versions[versions.len() - 1].name == name);
            } else {
                assert(before[k] == id);
                let i = choose|i: int| 0 <= i < init.len() && (#[trigger] init[i]).name == name && init[i].id == id;
                assert(versions[i].name == name);
            }
        }
        if exists|i: int| 0 <= i < versions.len() && (#[trigger] versions[i]).name == name && versions[i].id == id {
            let i = choose|i: int|
                0 <= i < versions.len() && (#[trigger] versions[i]).name == name && versions[i].id == id;
            if i < init.len() {
                assert(init[i].name == name);
                let k = choose|k: int| 0 <= k < before.len() && before[k] == id;
                assert(all[k] == id);
            } else {
                assert(all[before.len() as int] == id);
            }
        }
    }
}

/// A product is found by its name: an ID is found exactly when some cached product has this ID and this name, whatever
/// else is cached of it.
pub proof fn products_are_found_by_name(cache: StoreCache, name: &str, ids: Vec<String>, id: Seq<char>)
    requires
        call_ensures(StoreCache::product_name_to_ids, (&cache, name), ids),
    ensures
        (exists|k: int| 0 <= k < ids@.len() && (#[trigger] ids@[k])@ == id) <==> exists|i: int|
            0 <= i < cache.product_name_info@.len() && (#[trigger] cache.product_name_info@[i]).id@ == id
                && cache.product_name_info@[i].value.product_name@ == name@,
{
    let products = product_names(cache.product_name_info@);
    let found = ids@.map_values(|id: String| id@);
    products_named_are_those(products, name@, id);
    assert forall|k: int| 0 <= k < ids@.len() implies #[trigger] ids@[k]@ == found[k] by {}
    assert forall|i: int| 0 <= i < products.len() implies #[trigger] products[i] == cache.product_name_info@[i]@ by {}
    if exists|k: int| 0 <= k < ids@.len() && (#[trigger] ids@[k])@ == id {
        let k = choose|k: int| 0 <= k < ids@.len() && (#[trigger] ids@[k])@ == id;
        assert(found[k] == id);
        let i = choose|i: int|
            0 <= i < products.len() && (#[trigger] products[i]).name == name@ && products[i].id == id;
        assert(cache.product_name_info@[i].id@ == id);
    }
    if exists|i: int|
        0 <= i < cache.product_name_info@.len() && (#[trigger] cache.product_name_info@[i]).id@ == id
            && cache.product_name_info@[i].value.product_name@ == name@ {
        let i = choose|i: int|
            0 <= i < cache.product_name_info@.len() && (#[trigger] cache.product_name_info@[i]).id@ == id
                && cache.product_name_info@[i].value.product_name@ == name@;
        assert(products[i].name == name@);
        let k = choose|k: int| 0 <= k < found.len() && found[k] == id;
        assert(ids@[k]@ == id);
    }
}

/// A product version is found by its name: an ID is found exactly when some cached product version has this ID and
/// this name.
pub proof fn versions_are_found_by_name(
    cache: StoreCache,
    name: &str,
    ids: Vec<ProductVersionId>,
    id: ProductVersionIdView,
)
    requires
        call_ensures(StoreCache::product_version_name_to_version_ids, (&cache, name), ids),
    ensures
        (exists|k: int| 0 <= k < ids@.len() && (#[trigger] ids@[k])@ == id) <==> exists|i: int|
            0 <= i < cache.product_version_name_info@.len() && (#[trigger] cache.product_version_name_info@[i]).id@
                == id && cache.product_version_name_info@[i].product_version_name@ == name@,
{
    let infos = cache.product_version_name_info@;
    let versions = version_names(infos);
    let found = ids@.map_values(|id: ProductVersionId| id@);
    versions_named_are_those(versions, name@, id);
    assert forall|k: int| 0 <= k < ids@.len() implies #[trigger] ids@[k]@ == found[k] by {}
    assert forall|i: int| 0 <= i < versions.len() implies #[trigger] versions[i] == infos[i]@ by {}
    if exists|k: int| 0 <= k < ids@.len() && (#[trigger] ids@[k])@ == id {
        let k = choose|k: int| 0 <= k < ids@.len() && (#[trigger] ids@[k])@ == id;
        assert(found[k] == id);
        let i = choose|i: int|
            0 <= i < versions.len() && (#[trigger] versions[i]).name == name@ && versions[i].id == id;
        assert(infos[i].id@ == id);
    }
    if exists|i: int| 0 <= i < infos.len() && (#[trigger] infos[i]).id@ == id
        && infos[i].product_version_name@ == name@ {
        let i = choose|i: int|
            0 <= i < infos.len() && (#[trigger] infos[i]).id@ == id && infos[i].product_version_name@ == name@;
        assert(versions[i].name == name@);
        let k = choose|k: int| 0 <= k < found.len() && found[k] == id;
        assert(ids@[k]@ == id);
    }
}

/// A product that is chosen from the completions can be linked: each name that is completed to leads to an ID.
pub proof fn completions_lead_to_products(
    cache: StoreCache,
    prefix: &str,
    choices: Vec<String>,
    k: int,
    name: &str,
    ids: Vec<String>,
)
    requires
        cache.wf(),
        call_ensures(StoreCache::product_names_with_prefix, (&cache, prefix), choices),
        0 <= k < choices@.len(),
        name@ == choices@[k]@,
        call_ensures(StoreCache::product_name_to_ids, (&cache, name), ids),
    ensures
        ids@.len() > 0,
{
    let infos = cache.product_name_info@;
    let names = product_names(infos).map_values(|p: ProductName| p.name);
    choices_start_with_the_prefix(choices@, names, prefix@, k);
    let i = choose|i: int| 0 <= i < names.len() && names[i] == name@;
    assert(infos[i].value.product_name@ == name@);
    products_are_found_by_name(cache, name, ids, infos[i].id@);
    assert(infos[i].id@ == infos[i].id@);
}

/// A product version that is chosen from the completions can be linked: each name that is completed to leads to an ID.
pub proof fn completions_lead_to_versions(
    cache: StoreCache,
    prefix: &str,
    choices: Vec<String>,
    k: int,
    name: &str,
    ids: Vec<ProductVersionId>,
)
    requires
        cache.wf(),
        call_ensures(StoreCache::product_version_names_with_prefix, (&cache, prefix), choices),
        0 <= k < choices@.len(),
        name@ == choices@[k]@,
        call_ensures(StoreCache::product_version_name_to_version_ids, (&cache, name), ids),
    ensures
        ids@.len() > 0,
{
    let infos = cache.product_version_name_info@;
    let names = version_names(infos).map_values(|v: ProductVersionName| v.name);
    choices_start_with_the_prefix(choices@, names, prefix@, k);
    let i = choose|i: int| 0 <= i < names.len() && names[i] == name@;
    assert(infos[i].product_version_name@ == name@);
    versions_are_found_by_name(cache, name, ids, infos[i].id@);
    assert(infos[i].id@ == infos[i].id@);
}

proof fn name_of_product_is_last(products: Seq<ProductName>, id: Seq<char>)
    ensures
        name_of_product(products, id) is None <==> forall|i: int|
            0 <= i < products.len() ==> (#[trigger] products[i]).id != id,
        name_of_product(products, id) matches Some(name) ==> exists|i: int|
            0 <= i < products.len() && (#[trigger] products[i]).id == id && products[i].name == name && forall|j: int|
                i < j < products.len() ==> (#[trigger] products[j]).id != id,
    decreases products.len(),
{
    if products.len() > 0 {
        let init = products.drop_last();
        name_of_product_is_last(init, id);
        assert forall|i: int| 0 <= i < init.len() implies #[trigger] init[i] == products[i] by {}
        let n = products.len() - 1;
        if products.last().id == id {
            assert(products[n].id == id);
        } else if name_of_product(init, id) is Some {
            let name = name_of_product(init, id)->0;
            let i = choose|i: int|
                0 <= i < init.len() && (#[trigger] init[i]).id == id && init[i].name == name && forall|j: int|
                    i < j < init.len() ==> (#[trigger] init[j]).id != id;
            assert(products[i].id == id);
            assert forall|j: int| i < j < products.len() implies (#[trigger] products[j]).id != id by {
                if j < n {
                    assert(init[j].id != id);
                }
            }
        } else {
            assert forall|i: int| 0 <= i < products.len() implies (#[trigger] products[i]).id != id by {
                if i < n {
                    assert(init[i].id != id);
                }
            }
        }
    }
}

proof fn name_of_version_is_last(versions: Seq<ProductVersionName>, id: ProductVersionIdView)
    ensures
        name_of_version(versions, id) is None <==> forall|i: int|
            0 <= i < versions.len() ==> (#[trigger] versions[i]).id != id,
        name_of_version(versions, id) matches Some(name) ==> exists|i: int|
            0 <= i < versions.len() && (#[trigger] versions[i]).id == id && versions[i].name == name && forall|j: int|
                i < j < versions.len() ==> (#[trigger] versions[j]).id != id,
    decreases versions.len(),
{
    if versions.len() > 0 {
        let init = versions.drop_last();
        name_of_version_is_last(init, id);
        assert forall|i: int| 0 <= i < init.len() implies #[trigger] init[i] == versions[i] by {}
        let n = versions.len() - 1;
        if versions.last().id == id {
            assert(versions[n].id == id);
        } else if name_of_version(init, id) is Some {
            let name = name_of_version(init, id)->0;
            let i = choose|i: int|
                0 <= i < init.len() && (#[trigger] init[i]).id == id && init[i].name == name && forall|j: int|
                    i < j < init.len() ==> (#[trigger] init[j]).id != id;
            assert(versions[i].id == id);
            assert forall|j: int| i < j < versions.len() implies (#[trigger] versions[j]).id != id by {
                if j < n {
                    assert(init[j].id != id);
                }
            }
        } else {
            assert forall|i: int| 0 <= i < versions.len() implies (#[trigger] versions[i]).id != id by {
                if i < n {
                    assert(init[i].id != id);
                }
            }
        }
    }
}

/// A product is named by its ID exactly when it is cached, with the name that was cached last.
pub proof fn products_are_named_by_id(cache: StoreCache, id: &str, name: Option<&str>)
    requires
        call_ensures(StoreCache::product_id_to_name, (&cache, id), name),
    ensures
        name is Some <==> exists|i: int|
            0 <= i < cache.product_name_info@.len() && (#[trigger] cache.product_name_info@[i]).id@ == id@,
        name matches Some(name) ==> exists|i: int|
            0 <= i < cache.product_name_info@.len() && (#[trigger] cache.product_name_info@[i]).id@ == id@
                && cache.product_name_info@[i].value.product_name@ == name@ && forall|j: int|
                i < j < cache.product_name_info@.len() ==> (#[trigger] cache.product_name_info@[j]).id@ != id@,
{
    let infos = cache.product_name_info@;
    let products = product_names(infos);
    name_of_product_is_last(products, id@);
    assert forall|i: int| 0 <= i < infos.len() implies #[trigger] products[i] == infos[i]@ by {}
    if name is Some {
        let i = choose|i: int|
            0 <= i < products.len() && (#[trigger] products[i]).id == id@ && products[i].name == name->0@ && forall|
                j: int,
            |
                i < j < products.len() ==> (#[trigger] products[j]).id != id@;
        assert(infos[i].id@ == id@);
        assert forall|j: int| i < j < infos.len() implies (#[trigger] infos[j]).id@ != id@ by {
            assert(products[j].id != id@);
        }
    } else {
        assert forall|i: int| 0 <= i < infos.len() implies (#[trigger] infos[i]).id@ != id@ by {
            assert(products[i].id != id@);
        }
    }
}

/// A product version is named by its ID exactly when it is cached, with the name that was cached last.
pub proof fn versions_are_named_by_id(cache: StoreCache, id: ProductVersionId, name: Option<&str>)
    requires
        call_ensures(StoreCache::product_version_id_to_name, (&cache, &id), name),
    ensures
        name is Some <==> exists|i: int|
            0 <= i < cache.product_version_name_info@.len() && (#[trigger] cache.product_version_name_info@[i]).id@
                == id@,
        name matches Some(name) ==> exists|i: int|
            0 <= i < cache.product_version_name_info@.len() && (#[trigger] cache.product_version_name_info@[i]).id@
                == id@ && cache.product_version_name_info@[i].product_version_name@ == name@ && forall|j: int|
                i < j < cache.product_version_name_info@.len() ==> (
                #[trigger] cache.product_version_name_info@[j]).id@ != id@,
{
    let infos = cache.product_version_name_info@;
    let versions = version_names(infos);
    name_of_version_is_last(versions, id@);
    assert forall|i: int| 0 <= i < infos.len() implies #[trigger] versions[i] == infos[i]@ by {}
    if name is Some {
        let i = choose|i: int|
            0 <= i < versions.len() && (#[trigger] versions[i]).id == id@ && versions[i].name == name->0@ && forall|
                j: int,
            |
                i < j < versions.len() ==> (#[trigger] versions[j]).id != id@;
        assert(infos[i].id@ == id@);
        assert forall|j: int| i < j < infos.len() implies (#[trigger] infos[j]).id@ != id@ by {
            assert(versions[j].id != id@);
        }
    } else {
        assert forall|i: int| 0 <= i < infos.len() implies (#[trigger] infos[i]).id@ != id@ by {
            assert(versions[i].id != id@);
        }
    }
}

/// The start of a text that Discord allows: all of it, up to a hundred characters.
pub open spec fn allowed_start(text: Seq<char>) -> Seq<char> {
    text.take(
        if text.len() < 100 {
            text.len() as int
        } else {
            100
        },
    )
}

/// Whether a cached product is what is kept of a loaded one: its ID, its tag and its name, up to a hundred characters.
pub open spec fn keeps_product(info: ProductNameInfo, product: FullProduct) -> bool {
    &&& info.id@ == product.id@
    &&& info.value.product_name@ == allowed_start(product.name@)
    &&& info.value.etag is Some <==> product.etag is Some
    &&& product.etag matches Some(etag) ==> info.value.etag->0@ == etag@
}

proof fn cached_products_have(products: Seq<LoadedProduct>, i: int)
    requires
        0 <= i < products.len(),
    ensures
        products[i] matches LoadedProduct::Api(product) ==> (product.name@.len() > 0 ==> exists|j: int|
            0 <= j < cached_products(products).len() && (#[trigger] cached_products(products)[j]) == (ProductName {
                id: product.id@,
                name: allowed_start(product.name@),
                etag: etag_bytes(product.etag),
            })),
        products[i] matches LoadedProduct::Cached { product_info, .. } ==> exists|j: int|
            0 <= j < cached_products(products).len() && (#[trigger] cached_products(products)[j]) == product_info@,
    decreases products.len(),
{
    let init = products.drop_last();
    let before = cached_products(init);
    let after = cached_products(products);
    assert forall|j: int| 0 <= j < before.len() implies #[trigger] before[j] == after[j] by {}
    if i < init.len() {
        cached_products_have(init, i);
        match products[i] {
            LoadedProduct::Api(product) => {
                if product.name@.len() > 0 {
                    let name = ProductName {
                        id: product.id@,
                        name: allowed_start(product.name@),
                        etag: etag_bytes(product.etag),
                    };
                    let j = choose|j: int| 0 <= j < before.len() && (#[trigger] before[j]) == name;
                    assert(after[j] == name);
                }
            },
            LoadedProduct::Cached { product_info, .. } => {
                let j = choose|j: int| 0 <= j < before.len() && (#[trigger] before[j]) == product_info@;
                assert(after[j] == product_info@);
            },
        }
    } else {
        match products[i] {
            LoadedProduct::Api(product) => {
                if product.name@.len() > 0 {
                    assert(cut(product.name@, 100) =~= allowed_start(product.name@));
                    assert(after[before.len() as int].name == allowed_start(product.name@));
                }
            },
            LoadedProduct::Cached { product_info, .. } => {
                assert(after[before.len() as int] == product_info@);
            },
        }
    }
}

/// Every loaded product with a name is cached, with its ID and its tag, under the first hundred characters of its name.
/// What is known of a product that has not changed is kept as it was.
pub proof fn loaded_products_are_cached(
    products: Vec<LoadedProduct>,
    cached: (Vec<ProductNameInfo>, Vec<ProductVersionNameInfo>),
    i: int,
)
    requires
        call_ensures(names_of_products, (products,), cached),
        0 <= i < products@.len(),
    ensures
        products@[i] matches LoadedProduct::Api(product) ==> (product.name@.len() > 0 ==> exists|j: int|
            0 <= j < cached.0@.len() && keeps_product(#[trigger] cached.0@[j], product)),
        products@[i] matches LoadedProduct::Cached { product_info, .. } ==> exists|j: int|
            0 <= j < cached.0@.len() && (#[trigger] cached.0@[j])@ == product_info@,
{
    let infos = cached.0@;
    let names = product_names(infos);
    cached_products_have(products@, i);
    assert forall|j: int| 0 <= j < infos.len() implies #[trigger] names[j] == infos[j]@ by {}
    match products@[i] {
        LoadedProduct::Api(product) => {
            if product.name@.len() > 0 {
                let name = ProductName {
                    id: product.id@,
                    name: allowed_start(product.name@),
                    etag: etag_bytes(product.etag),
                };
                let j = choose|j: int| 0 <= j < names.len() && (#[trigger] names[j]) == name;
                assert(infos[j]@ == name);
                assert(keeps_product(infos[j], product));
            }
        },
        LoadedProduct::Cached { product_info, .. } => {
            let j = choose|j: int| 0 <= j < names.len() && (#[trigger] names[j]) == product_info@;
            assert(infos[j]@ == product_info@);
        },
    }
}

proof fn cached_versions_have(products: Seq<LoadedProduct>, i: int, name: ProductVersionName)
    requires
        0 <= i < products.len(),
        match products[i] {
            LoadedProduct::Api(product) => product.name@.len() > 0 && product_version_names(product).contains(name),
            LoadedProduct::Cached { versions, .. } => version_names(versions@).contains(name),
        },
    ensures
        cached_versions(products).contains(name),
    decreases products.len(),
{
    let init = products.drop_last();
    let before = cached_versions(init);
    let after = cached_versions(products);
    if i < init.len() {
        cached_versions_have(init, i, name);
        let j = choose|j: int| 0 <= j < before.len() && before[j] == name;
        assert(after[j] == name);
    } else {
        let added = match products[i] {
            LoadedProduct::Api(product) => product_version_names(product),
            LoadedProduct::Cached { versions, .. } => version_names(versions@),
        };
        let j = choose|j: int| 0 <= j < added.len() && added[j] == name;
        assert(after[before.len() + j] == name);
    }
}

/// Every version of a loaded product with a name is cached under its display name, and so is the product without a
/// version. What is known of
/// the versions of a product that has not changed is kept as it was.
pub proof fn loaded_versions_are_cached(
    products: Vec<LoadedProduct>,
    cached: (Vec<ProductNameInfo>, Vec<ProductVersionNameInfo>),
    i: int,
    v: int,
    product_name: &str,
    version_name: &str,
    shown: String,
)
    requires
        call_ensures(names_of_products, (products,), cached),
        call_ensures(product_display_name, (product_name, Some(version_name)), shown),
        0 <= i < products@.len(),
    ensures
        products@[i] matches LoadedProduct::Api(product) ==> (product.name@.len() > 0 ==> exists|j: int|
            0 <= j < cached.1@.len() && (#[trigger] cached.1@[j]).id.product_id@ == product.id@
                && cached.1@[j].id.product_version_id is None),
        products@[i] matches LoadedProduct::Api(product) ==> (product.name@.len() > 0
            && 0 <= v < product.versions@.len()
            ==> exists|j: int|
            0 <= j < cached.1@.len() && (#[trigger] cached.1@[j]).id.product_id@ == product.id@
                && cached.1@[j].id.product_version_id is Some && cached.1@[j].id.product_version_id->0@
                == product.versions@[v].id@ && (product.name@ == product_name@ && product.versions@[v].name@
                == version_name@ ==> cached.1@[j].product_version_name@ == shown@)),
        products@[i] matches LoadedProduct::Cached { versions, .. } ==> (0 <= v < versions@.len() ==> exists|j: int|
            0 <= j < cached.1@.len() && (#[trigger] cached.1@[j])@ == versions@[v]@),
{
    let infos = cached.1@;
    let names = version_names(infos);
    assert forall|j: int| 0 <= j < infos.len() implies #[trigger] names[j] == infos[j]@ by {}
    match products@[i] {
        LoadedProduct::Api(product) => {
            let own = product_version_names(product);
            if product.name@.len() > 0 {
                assert(own.contains(own[0]));
                cached_versions_have(products@, i, own[0]);
                let j = choose|j: int| 0 <= j < names.len() && names[j] == own[0];
                assert(infos[j]@ == own[0]);
                if 0 <= v < product.versions@.len() {
                    assert(own.contains(own[v + 1]));
                    cached_versions_have(products@, i, own[v + 1]);
                    let k = choose|k: int| 0 <= k < names.len() && names[k] == own[v + 1];
                    assert(infos[k]@ == own[v + 1]);
                }
            }
        },
        LoadedProduct::Cached { versions, .. } => {
            if 0 <= v < versions@.len() {
                let name = version_names(versions@)[v];
                assert(version_names(versions@).contains(name));
                cached_versions_have(products@, i, name);
                let k = choose|k: int| 0 <= k < names.len() && names[k] == name;
                assert(infos[k]@ == versions@[v]@);
            }
        },
    }
}

proof fn distinct_names_are_those(products: Seq<ProductName>, name: Seq<char>)
    ensures
        distinct_names(products).contains(name) <==> exists|i: int|
            0 <= i < products.len() && (#[trigger] products[i]).name == name,
        distinct_names(products).no_duplicates(),
    decreases products.len(),
{
    if products.len() > 0 {
        let init = products.drop_last();
        let before = distinct_names(init);
        let after = distinct_names(products);
        let last = products.last().name;
        distinct_names_are_those(init, name);
        assert forall|i: int| 0 <= i < init.len() implies #[trigger] init[i] == products[i] by {}
        assert(products[products.len() - 1].name == last);
        if after.contains(name) {
            let k = choose|k: int| 0 <= k < after.len() && after[k] == name;
            if k < before.len() {
                assert(before[k] == name);
                let i = choose|i: int| 0 <= i < init.len() && (#[trigger] init[i]).name == name;
                assert(products[i].name == name);
            }
        }
        if exists|i: int| 0 <= i < products.len() && (#[trigger] products[i]).name == name {
            let i = choose|i: int| 0 <= i < products.len() && (#[trigger] products[i]).name == name;
            if i < init.len() {
                assert(init[i].name == name);
                let k = choose|k: int| 0 <= k < before.len() && before[k] == name;
                assert(after[k] == name);
            } else if !before.contains(last) {
                assert(after[before.len() as int] == name);
            }
        }
    }
}

/// The distinct product names are all names of cached products, each of them once.
pub proof fn distinct_names_are_all_names(cache: StoreCache, names: Vec<String>, name: Seq<char>)
    requires
        call_ensures(StoreCache::distinct_product_names, (&cache,), names),
    ensures
        (exists|k: int| 0 <= k < names@.len() && (#[trigger] names@[k])@ == name) <==> exists|i: int|
            0 <= i < cache.product_name_info@.len() && (
            #[trigger] cache.product_name_info@[i]).value.product_name@ == name,
        forall|k: int, l: int| 0 <= k < l < names@.len() ==> (#[trigger] names@[k])@ != (#[trigger] names@[l])@,
{
    let infos = cache.product_name_info@;
    let products = product_names(infos);
    let views = names@.map_values(|name: String| name@);
    distinct_names_are_those(products, name);
    assert forall|i: int| 0 <= i < infos.len() implies #[trigger] products[i] == infos[i]@ by {}
    assert forall|k: int| 0 <= k < names@.len() implies #[trigger] names@[k]@ == views[k] by {}
    if exists|k: int| 0 <= k < names@.len() && (#[trigger] names@[k])@ == name {
        let k = choose|k: int| 0 <= k < names@.len() && (#[trigger] names@[k])@ == name;
        assert(views[k] == name);
        let i = choose|i: int| 0 <= i < products.len() && (#[trigger] products[i]).name == name;
        assert(infos[i].value.product_name@ == name);
    }
    if exists|i: int| 0 <= i < infos.len() && (#[trigger] infos[i]).value.product_name@ == name {
        let i = choose|i: int| 0 <= i < infos.len() && (#[trigger] infos[i]).value.product_name@ == name;
        assert(products[i].name == name);
        let k = choose|k: int| 0 <= k < views.len() && views[k] == name;
        assert(names@[k]@ == name);
    }
    assert forall|k: int, l: int| 0 <= k < l < names@.len() implies (#[trigger] names@[k])@ != (
    #[trigger] names@[l])@ by {
        assert(views[k] != views[l]);
    }
}

/// A cache entry is always served, and it is refreshed exactly when more than a minute has passed since it was created.
pub proof fn entries_are_served_and_refreshed(
    create_time: Option<SimpleTime>,
    now: SimpleTime,
    plan: ReadPlan,
    refresh: bool,
)
    requires
        call_ensures(plan_read, (create_time, now), plan),
        call_ensures(needs_refresh, (create_time, now), refresh),
    ensures
        create_time is None ==> plan is Load && refresh,
        create_time matches Some(time) ==> !(plan is Load),
        create_time matches Some(time) ==> (plan is ServeAndRefresh <==> now.unix_millis > time.unix_millis + 60_000),
        create_time matches Some(time) ==> (refresh <==> now.unix_millis > time.unix_millis + 60_000),
{
}

/// Up to twenty-five choices are offered: the first ones, in order, and all of them if there are no more.
pub proof fn the_first_choices_are_offered(choices: Vec<String>, offered: Vec<String>)
    requires
        call_ensures(limit_choices, (choices,), offered),
    ensures
        choices@.len() <= 25 ==> offered@.len() == choices@.len(),
        choices@.len() > 25 ==> offered@.len() == 25,
        forall|i: int| 0 <= i < offered@.len() ==> #[trigger] offered@[i] == choices@[i],
{
}

/// What was persisted is cached, with all products and versions, unless nothing was.
pub proof fn persisted_names_are_cached(entry: GuildCache, cache: Option<StoreCache>)
    requires
        call_ensures(StoreCache::from_db, (entry,), cache),
    ensures
        entry.product_name_info@.len() > 0 || entry.product_version_name_info@.len() > 0
            || entry.cache_time.unix_millis > 0 ==> cache is Some,
        cache matches Some(cache) ==> cache.product_name_info == entry.product_name_info
            && cache.product_version_name_info == entry.product_version_name_info && cache.create_time
            == entry.cache_time,
{
}

/// Whatever starts with the prefix, in whatever case, is completed to: every cached product with such a name is offered
/// under it, or under a name with the same lower case form.
pub proof fn every_product_can_be_completed_to(cache: StoreCache, prefix: &str, choices: Vec<String>, i: int)
    requires
        cache.wf(),
        call_ensures(StoreCache::product_names_with_prefix, (&cache, prefix), choices),
        0 <= i < cache.product_name_info@.len(),
        lowercase(prefix@).is_prefix_of(lowercase(cache.product_name_info@[i].value.product_name@)),
    ensures
        exists|k: int|
            0 <= k < choices@.len() && lowercase((#[trigger] choices@[k])@) == lowercase(
                cache.product_name_info@[i].value.product_name@,
            ),
{
    let names = product_names(cache.product_name_info@).map_values(|p: ProductName| p.name);
    let name = cache.product_name_info@[i].value.product_name@;
    assert(names[i] == name);
    choices_miss_no_name(choices@, names, prefix@, name);
}

/// Every cached product version whose name starts with the prefix, in whatever case, is offered under it, or under a name
/// with the same lower case form.
pub proof fn every_version_can_be_completed_to(cache: StoreCache, prefix: &str, choices: Vec<String>, i: int)
    requires
        cache.wf(),
        call_ensures(StoreCache::product_version_names_with_prefix, (&cache, prefix), choices),
        0 <= i < cache.product_version_name_info@.len(),
        lowercase(prefix@).is_prefix_of(lowercase(cache.product_version_name_info@[i].product_version_name@)),
    ensures
        exists|k: int|
            0 <= k < choices@.len() && lowercase((#[trigger] choices@[k])@) == lowercase(
                cache.product_version_name_info@[i].product_version_name@,
            ),
{
    let names = version_names(cache.product_version_name_info@).map_values(|v: ProductVersionName| v.name);
    let name = cache.product_version_name_info@[i].product_version_name@;
    assert(names[i] == name);
    choices_miss_no_name(choices@, names, prefix@, name);
}

/// Nothing is completed to but cached names that start with the prefix, in whatever case.
pub proof fn nothing_else_is_completed_to(
    cache: StoreCache,
    prefix: &str,
    products: Vec<String>,
    versions: Vec<String>,
    k: int,
)
    requires
        cache.wf(),
        call_ensures(StoreCache::product_names_with_prefix, (&cache, prefix), products),
        call_ensures(StoreCache::product_version_names_with_prefix, (&cache, prefix), versions),
    ensures
        0 <= k < products@.len() ==> lowercase(prefix@).is_prefix_of(lowercase(products@[k]@)) && exists|i: int|
            0 <= i < cache.product_name_info@.len() && (
            #[trigger] cache.product_name_info@[i]).value.product_name@ == products@[k]@,
        0 <= k < versions@.len() ==> lowercase(prefix@).is_prefix_of(lowercase(versions@[k]@)) && exists|i: int|
            0 <= i < cache.product_version_name_info@.len() && (
            #[trigger] cache.product_version_name_info@[i]).product_version_name@ == versions@[k]@,
{
    if 0 <= k < products@.len() {
        let names = product_names(cache.product_name_info@).map_values(|p: ProductName| p.name);
        choices_start_with_the_prefix(products@, names, prefix@, k);
        let i = choose|i: int| 0 <= i < names.len() && names[i] == products@[k]@;
        assert(cache.product_name_info@[i].value.product_name@ == products@[k]@);
    }
    if 0 <= k < versions@.len() {
        let names = version_names(cache.product_version_name_info@).map_values(|v: ProductVersionName| v.name);
        choices_start_with_the_prefix(versions@, names, prefix@, k);
        let i = choose|i: int| 0 <= i < names.len() && names[i] == versions@[k]@;
        assert(cache.product_version_name_info@[i].product_version_name@ == versions@[k]@);
    }
}

/// Of names with the same lower case form the last one is completed to.
pub proof fn the_last_name_counts(names: &[&String], index: NameIndex, i: int)
    requires
        forall|j: int| 0 <= j < names@.len() ==> (#[trigger] names@[j])@.len() > 0,
        call_ensures(NameIndex::new, (names,), index),
        0 <= i < names@.len(),
        forall|j: int| i < j < names@.len() ==> lowercase((#[trigger] names@[j])@) != lowercase(names@[i]@),
    ensures
        trie_entries(index.trie).contains_key(encode_utf8(lowercase(names@[i]@))),
        trie_entries(index.trie)[encode_utf8(lowercase(names@[i]@))] == names@[i]@,
{
    let views = names@.map_values(|name: &String| name@);
    assert forall|j: int| i < j < views.len() implies lowercase(#[trigger] views[j]) != lowercase(views[i]) by {
        assert(views[j] == names@[j]@);
        assert(lowercase(names@[j]@) != lowercase(names@[i]@));
    }
    last_entry_counts(views, i);
}

proof fn last_entry_counts(names: Seq<Seq<char>>, i: int)
    requires
        0 <= i < names.len(),
        forall|j: int| i < j < names.len() ==> lowercase(#[trigger] names[j]) != lowercase(names[i]),
    ensures
        index_of(names).contains_key(encode_utf8(lowercase(names[i]))),
        index_of(names)[encode_utf8(lowercase(names[i]))] == names[i],
    decreases names.len(),
{
    let init = names.drop_last();
    if i < init.len() {
        assert forall|j: int| i < j < init.len() implies lowercase(#[trigger] init[j]) != lowercase(init[i]) by {
            assert(init[j] == names[j]);
        }
        last_entry_counts(init, i);
        let last = names[names.len() - 1];
        assert(lowercase(last) != lowercase(names[i]));
        if encode_utf8(lowercase(last)) == encode_utf8(lowercase(names[i])) {
            prefix_of_bytes_is_prefix_of_text(lowercase(last), lowercase(names[i]));
            prefix_of_bytes_is_prefix_of_text(lowercase(names[i]), lowercase(last));
            let b = encode_utf8(lowercase(last));
            assert(b =~= b.subrange(0, b.len() as int));
            assert(lowercase(last).len() == lowercase(names[i]).len());
            assert(lowercase(last) =~= lowercase(names[i]).subrange(0, lowercase(last).len() as int));
            assert(lowercase(names[i]) =~= lowercase(names[i]).subrange(0, lowercase(last).len() as int));
        }
    }
}

/// One more loaded product adds what is cached of it behind the rest, and nothing else: one name, and one for each
/// version and for the product without a version. A product from the API with an empty name adds nothing.
pub proof fn products_are_cached_one_by_one(
    products: Vec<LoadedProduct>,
    more: Vec<LoadedProduct>,
    product: LoadedProduct,
    cached: (Vec<ProductNameInfo>, Vec<ProductVersionNameInfo>),
    more_cached: (Vec<ProductNameInfo>, Vec<ProductVersionNameInfo>),
    i: int,
)
    requires
        more@ == products@.push(product),
        call_ensures(names_of_products, (products,), cached),
        call_ensures(names_of_products, (more,), more_cached),
    ensures
        0 <= i < cached.0@.len() ==> more_cached.0@[i]@ == cached.0@[i]@,
        0 <= i < cached.1@.len() ==> more_cached.1@[i]@ == cached.1@[i]@,
        product matches LoadedProduct::Api(p) ==> (p.name@.len() == 0 ==> more_cached.0@.len() == cached.0@.len()
            && more_cached.1@.len() == cached.1@.len()),
        product matches LoadedProduct::Api(p) ==> (p.name@.len() > 0 ==> more_cached.0@.len() == cached.0@.len() + 1
            && more_cached.1@.len() == cached.1@.len() + 1 + p.versions@.len()),
        product matches LoadedProduct::Cached { versions, .. } ==> more_cached.0@.len() == cached.0@.len() + 1
            && more_cached.1@.len() == cached.1@.len() + versions@.len(),
{
    assert(more@.drop_last() =~= products@);
    let a = product_names(cached.0@);
    let b = product_names(more_cached.0@);
    let c = version_names(cached.1@);
    let d = version_names(more_cached.1@);
    assert(a.len() == cached.0@.len());
    assert(b.len() == more_cached.0@.len());
    assert(c.len() == cached.1@.len());
    assert(d.len() == more_cached.1@.len());
    if 0 <= i < a.len() {
        assert(b[i] == a[i]);
        assert(b[i] == more_cached.0@[i]@);
        assert(a[i] == cached.0@[i]@);
    }
    if 0 <= i < c.len() {
        assert(d[i] == c[i]);
        assert(d[i] == more_cached.1@[i]@);
        assert(c[i] == cached.1@[i]@);
    }
}

} // verus!
