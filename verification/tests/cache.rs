//! The product cache and its refresh

use jinx::bot::cache::{
    contains_text, is_expired_high_priority, limit_choices, names_of_products, needs_refresh, plan_read, ReadPlan,
    StoreCache,
};
use jinx::bot::name_index::NameIndex;
use jinx::bot::refresh::{
    is_expired_low_priority, RefreshAction, RefreshEvent, RefreshStage, RefreshWorker, StoreQueueRef, WakeUp,
};
use jinx::db::GuildCache;
use jinx::http::jinxxy::{
    FullProduct, LoadedProduct, ProductNameInfo, ProductNameInfoValue, ProductVersion, ProductVersionId,
    ProductVersionNameInfo,
};
use jinx::time::SimpleTime;
use trie_rs::map::TrieBuilder;

#[test]
fn test_trie_empty_prefix() {
    let tuples = [("foo", "foo_data"), ("bar", "bar_data"), ("baz", "baz_data")];

    let mut trie_builder = TrieBuilder::new();
    for (key, value) in tuples.iter() {
        trie_builder.push(key, value.to_string());
    }
    let trie = trie_builder.build();

    let results: Vec<String> = trie
        .predictive_search("")
        .map(|(_key, value): (Vec<u8>, &String)| value)
        .map(|value| value.to_string())
        .collect();

    assert_eq!(
        tuples.len(),
        results.len(),
        "actual and expected result lengths did not match"
    );

    for tuple in tuples {
        let (_, expected) = tuple;
        assert!(
            results.iter().any(|actual| actual == expected),
            "could not find expected value: {expected}"
        );
    }
}

fn strings(texts: &[&str]) -> Vec<String> {
    texts.iter().map(|text| text.to_string()).collect()
}

fn index(names: &[&str]) -> NameIndex {
    let names = strings(names);
    let references: Vec<&String> = names.iter().collect();
    NameIndex::new(&references)
}

#[test]
fn names_are_completed_in_whatever_case() {
    let index = index(&["Foo", "bar", "Baz", "fOObar", "Ärger"]);
    assert_eq!(index.complete("FOO"), strings(&["Foo", "fOObar"]));
    assert_eq!(index.complete("b"), strings(&["bar", "Baz"]));
    assert_eq!(index.complete("är"), strings(&["Ärger"]));
    assert_eq!(index.complete("ÄR"), strings(&["Ärger"]));
    assert!(index.complete("x").is_empty());
}

#[test]
fn the_empty_prefix_completes_to_all_names_in_order() {
    let index = index(&["foo", "Bar", "baz"]);
    assert_eq!(index.complete(""), strings(&["Bar", "baz", "foo"]));
    assert_eq!(limit_choices(index.complete("")), strings(&["Bar", "baz", "foo"]));
}

#[test]
fn of_names_that_differ_in_case_the_last_one_counts() {
    let index = index(&["name", "NAME", "Name"]);
    assert_eq!(index.complete("n"), strings(&["Name"]));
}

#[test]
fn no_names_complete_to_nothing() {
    assert!(index(&[]).complete("").is_empty());
    assert!(index(&[]).complete("a").is_empty());
}

fn product(id: &str, name: &str) -> ProductNameInfo {
    ProductNameInfo {
        id: id.to_string(),
        value: ProductNameInfoValue {
            product_name: name.to_string(),
            etag: None,
        },
    }
}

fn version(product_id: &str, version_id: Option<&str>, name: &str) -> ProductVersionNameInfo {
    ProductVersionNameInfo {
        id: ProductVersionId {
            product_id: product_id.to_string(),
            product_version_id: version_id.map(|id| id.to_string()),
        },
        product_version_name: name.to_string(),
    }
}

fn cache() -> StoreCache {
    StoreCache::from_products(
        vec![
            product("1", "Avatar"),
            product("2", "Hat"),
            product("3", "Avatar"),
            product("1", "Avatar Pro"),
        ],
        vec![
            version("1", None, "Avatar (null version)"),
            version("1", Some("a"), "Avatar 1.0"),
            version("2", None, "Hat (null version)"),
            version("3", Some("a"), "Avatar 1.0"),
        ],
        SimpleTime::from_unix_millis(7),
    )
}

#[test]
fn cached_names_are_found() {
    let cache = cache();
    assert_eq!(cache.product_id_to_name("2"), Some("Hat"));
    assert_eq!(cache.product_id_to_name("1"), Some("Avatar Pro"));
    assert_eq!(cache.product_id_to_name("9"), None);
    let id = |product_id: &str, version_id: Option<&str>| version(product_id, version_id, "").id;
    assert_eq!(
        cache.product_version_id_to_name(&id("1", None)),
        Some("Avatar (null version)")
    );
    assert_eq!(cache.product_version_id_to_name(&id("1", Some("a"))), Some("Avatar 1.0"));
    assert_eq!(cache.product_version_id_to_name(&id("1", Some("b"))), None);
    assert_eq!(cache.product_version_id_to_name(&id("3", None)), None);
}

#[test]
fn cached_ids_are_found() {
    let cache = cache();
    assert_eq!(cache.product_name_to_ids("Avatar"), strings(&["1", "3"]));
    assert!(cache.product_name_to_ids("avatar").is_empty());
    let ids = cache.product_version_name_to_version_ids("Avatar 1.0");
    assert_eq!(ids, vec![version("1", Some("a"), "").id, version("3", Some("a"), "").id]);
    assert!(cache.product_version_name_to_version_ids("x").is_empty());
    assert_eq!(cache.distinct_product_names(), strings(&["Avatar", "Hat", "Avatar Pro"]));
    assert_eq!(cache.product_count(), 4);
    assert_eq!(cache.product_version_count(), 4);
    assert_eq!(cache.create_time, SimpleTime::from_unix_millis(7));
}

#[test]
fn cached_names_are_completed() {
    let cache = cache();
    assert_eq!(
        cache.product_names_with_prefix("av"),
        strings(&["Avatar", "Avatar Pro"])
    );
    assert_eq!(
        cache.product_version_names_with_prefix("AVATAR "),
        strings(&["Avatar (null version)", "Avatar 1.0"])
    );
}

#[test]
fn completions_are_limited() {
    let products: Vec<ProductNameInfo> = (0..40).map(|i| product(&i.to_string(), &format!("p{i:02}"))).collect();
    let cache = StoreCache::from_products(products, Vec::new(), SimpleTime::unix_epoch());
    let names = cache.product_names_with_prefix("P");
    assert_eq!(names.len(), 40);
    assert_eq!(names[39], "p39");
    let offered = limit_choices(names.clone());
    assert_eq!(offered, names[..25]);
    assert_eq!(offered[0], "p00");
    assert_eq!(offered[24], "p24");
    assert_eq!(limit_choices(names[..25].to_vec()).len(), 25);
    assert!(limit_choices(Vec::new()).is_empty());
}

#[test]
fn nothing_persisted_is_no_cache() {
    let entry = |millis: u64, products: Vec<ProductNameInfo>| GuildCache {
        product_name_info: products,
        product_version_name_info: Vec::new(),
        cache_time: SimpleTime::from_unix_millis(millis),
    };
    assert!(StoreCache::from_db(entry(0, Vec::new())).is_none());
    assert!(StoreCache::from_db(entry(1, Vec::new())).is_some());
    let cache = StoreCache::from_db(entry(0, vec![product("1", "a")])).expect("there is a product");
    assert_eq!(cache.product_count(), 1);
    assert_eq!(cache.create_time, SimpleTime::unix_epoch());
}

#[test]
fn loaded_products_are_named() {
    let full = |id: &str, name: &str, versions: &[(&str, &str)]| {
        LoadedProduct::Api(FullProduct {
            id: id.to_string(),
            name: name.to_string(),
            versions: versions
                .iter()
                .map(|(id, name)| ProductVersion {
                    id: id.to_string(),
                    name: name.to_string(),
                })
                .collect(),
            etag: Some(vec![1, 2]),
        })
    };
    let long = "x".repeat(120);
    let (products, versions) = names_of_products(vec![
        full("1", "Avatar", &[("a", "1.0"), ("b", "2.0")]),
        full("2", "", &[("a", "1.0")]),
        LoadedProduct::Cached {
            product_info: product("3", "Hat"),
            versions: vec![version("3", None, "Hat (null version)")],
        },
        full("4", &long, &[]),
    ]);
    let names: Vec<(&str, &str)> = products
        .iter()
        .map(|info| (info.id.as_str(), info.value.product_name.as_str()))
        .collect();
    assert_eq!(names, vec![("1", "Avatar"), ("3", "Hat"), ("4", &long[..100])]);
    assert_eq!(products[0].value.etag, Some(vec![1, 2]));
    assert_eq!(products[1].value.etag, None);
    let names: Vec<&str> = versions.iter().map(|info| info.product_version_name.as_str()).collect();
    let cut = format!("{} (null version)", &long[..85]);
    assert_eq!(
        names,
        vec!["Avatar (null version)", "Avatar 1.0", "Avatar 2.0", "Hat (null version)", &cut]
    );
    assert_eq!(versions[0].id.product_version_id, None);
    assert_eq!(versions[2].id.product_version_id.as_deref(), Some("b"));
}

#[test]
fn reads_are_always_served_from_an_entry() {
    let created = SimpleTime::from_unix_millis(1_000);
    let at = |millis: u64| SimpleTime::from_unix_millis(millis);
    assert_eq!(plan_read(None, at(1_000)), ReadPlan::Load);
    assert_eq!(plan_read(Some(created), at(61_000)), ReadPlan::Serve);
    assert_eq!(plan_read(Some(created), at(61_001)), ReadPlan::ServeAndRefresh);
    assert_eq!(plan_read(Some(created), at(u64::MAX)), ReadPlan::ServeAndRefresh);
    assert!(needs_refresh(None, at(0)));
    assert!(!needs_refresh(Some(created), at(61_000)));
    assert!(needs_refresh(Some(created), at(61_001)));
    assert!(!is_expired_high_priority(created, at(0)));
}

#[test]
fn texts_are_found() {
    assert!(contains_text(&strings(&["a", "b"]), "b"));
    assert!(!contains_text(&strings(&["a", "b"]), "c"));
}

fn at(seconds: u64) -> SimpleTime {
    SimpleTime::from_unix_millis(seconds * 1000)
}

fn register(worker: RefreshWorker, store: &str, now: SimpleTime) -> RefreshWorker {
    worker
        .step(RefreshEvent::WokeUp(WakeUp::Registered(store.to_string())))
        .step(RefreshEvent::Expiry {
            seconds: Some(100),
            now,
        })
}

fn time_out(worker: RefreshWorker, now: SimpleTime) -> RefreshWorker {
    worker
        .step(RefreshEvent::WokeUp(WakeUp::TimedOut))
        .step(RefreshEvent::Expiry {
            seconds: Some(100),
            now,
        })
        .step(RefreshEvent::NoneUnregistered)
}

fn wait(worker: &RefreshWorker) -> Option<u128> {
    match worker.action() {
        RefreshAction::Wait { max_millis } => max_millis,
        other => panic!("expected the worker to sleep: {other:?}"),
    }
}

fn inspected(worker: &RefreshWorker) -> String {
    match worker.action() {
        RefreshAction::InspectCached { jinxxy_user_id } => jinxxy_user_id.clone(),
        other => panic!("expected an entry to be inspected: {other:?}"),
    }
}

#[test]
fn entries_expire() {
    assert!(!is_expired_low_priority(at(0), 100, at(100)));
    assert!(is_expired_low_priority(at(0), 100, SimpleTime::from_unix_millis(100_001)));
    assert!(!is_expired_low_priority(at(5), u64::MAX, at(1_000)));
    let entry = StoreQueueRef {
        jinxxy_user_id: "a".to_string(),
        create_time: at(10),
    };
    assert_eq!(entry.remaining_time_until_low_priority_expiry(100, at(20)), 150_000);
    assert_eq!(entry.remaining_time_until_low_priority_expiry(100, at(170)), 0);
    assert_eq!(entry.remaining_time_until_low_priority_expiry(100, at(0)), 160_000);
}

#[test]
fn older_entries_come_first() {
    let entry = |id: &str, seconds: u64| StoreQueueRef {
        jinxxy_user_id: id.to_string(),
        create_time: at(seconds),
    };
    assert!(entry("b", 1).is_before(&entry("a", 2)));
    assert!(!entry("a", 2).is_before(&entry("b", 1)));
    assert!(entry("a", 1).is_before(&entry("b", 1)));
    assert!(!entry("a", 1).is_before(&entry("a", 1)));
}

#[test]
fn a_new_worker_waits_for_a_store() {
    let worker = RefreshWorker::new();
    assert_eq!(wait(&worker), None);
    // the entry of a new store is as old as can be, but the worker never spins
    let worker = register(worker, "a", at(1_000));
    assert_eq!(wait(&worker), Some(2_000));
    assert_eq!(worker.queue.len(), 1);
    // registering twice changes nothing
    let worker = register(worker, "a", at(1_000));
    assert_eq!(worker.queue.len(), 1);
}

#[test]
fn a_worker_stops_when_it_has_to() {
    let worker = RefreshWorker::new()
        .step(RefreshEvent::WokeUp(WakeUp::Closed))
        .step(RefreshEvent::Expiry {
            seconds: None,
            now: at(0),
        });
    assert!(matches!(worker.action(), RefreshAction::Stop));
    let worker = RefreshWorker::new()
        .step(RefreshEvent::WokeUp(WakeUp::Bumped))
        .step(RefreshEvent::ExpiryUnavailable);
    assert!(matches!(worker.action(), RefreshAction::Stop));
    let worker = RefreshWorker::new()
        .step(RefreshEvent::WokeUp(WakeUp::TimedOut))
        .step(RefreshEvent::Expiry {
            seconds: None,
            now: at(0),
        })
        .step(RefreshEvent::UnregisterClosed);
    assert!(matches!(worker.action(), RefreshAction::Stop));
}

#[test]
fn an_unknown_store_is_loaded_from_the_database() {
    let worker = time_out(register(RefreshWorker::new(), "a", at(1_000)), at(1_000));
    assert_eq!(inspected(&worker), "a");
    let worker = worker.step(RefreshEvent::Cached {
        create_time: None,
        now: at(1_000),
    });
    assert!(matches!(worker.action(), RefreshAction::LoadApiKey { .. }));
    let worker = worker.step(RefreshEvent::ApiKey(Some("key".to_string())));
    assert!(matches!(worker.action(), RefreshAction::LoadFromDb { .. }));
    let worker = worker.step(RefreshEvent::Loaded(Some(at(990))));
    // the store is due a minute after it expires
    assert_eq!(wait(&worker), Some(150_000));
}

#[test]
fn a_store_that_is_not_in_the_database_is_loaded_from_jinxxy() {
    let worker = time_out(register(RefreshWorker::new(), "a", at(1_000)), at(1_000))
        .step(RefreshEvent::Cached {
            create_time: None,
            now: at(1_000),
        })
        .step(RefreshEvent::ApiKey(Some("key".to_string())))
        .step(RefreshEvent::Loaded(None));
    match worker.action() {
        RefreshAction::LoadFromApi {
            jinxxy_user_id,
            api_key,
        } => {
            assert_eq!(jinxxy_user_id, "a");
            assert_eq!(api_key, "key");
        }
        other => panic!("expected an API load: {other:?}"),
    }
    // a store that cannot be loaded is not registered any more
    let worker = worker.step(RefreshEvent::Loaded(None));
    assert_eq!(wait(&worker), None);
    assert!(worker.queue.is_empty());
}

#[test]
fn a_store_without_an_api_key_is_dropped() {
    let worker = time_out(register(RefreshWorker::new(), "a", at(1_000)), at(1_000))
        .step(RefreshEvent::Cached {
            create_time: Some(at(1)),
            now: at(1_000),
        })
        .step(RefreshEvent::ApiKey(None));
    assert_eq!(wait(&worker), None);
    assert!(worker.queue.is_empty());
}

#[test]
fn an_expired_entry_is_loaded_from_jinxxy() {
    let worker = time_out(register(RefreshWorker::new(), "a", at(1_000)), at(1_000))
        .step(RefreshEvent::Cached {
            create_time: Some(at(1)),
            now: at(1_000),
        })
        .step(RefreshEvent::ApiKey(Some("key".to_string())));
    assert!(matches!(worker.action(), RefreshAction::LoadFromApi { .. }));
}

#[test]
fn each_store_is_looked_at_once() {
    let mut worker = RefreshWorker::new();
    for store in ["c", "a", "b"] {
        worker = register(worker, store, at(1_000));
    }
    worker = time_out(worker, at(1_000));
    for (store, create_time) in [("a", 950), ("b", 940), ("c", 960)] {
        assert_eq!(inspected(&worker), store);
        worker = worker.step(RefreshEvent::Cached {
            create_time: Some(at(create_time)),
            now: at(1_000),
        });
    }
    // b is the oldest now, and due at 940 + 100 + 60
    assert_eq!(wait(&worker), Some(100_000));
    let order: Vec<&str> = worker
        .queue
        .iter()
        .map(|entry| entry.jinxxy_user_id.as_str())
        .collect();
    assert_eq!(order, vec!["b", "a", "c"]);
}

#[test]
fn an_unregistered_store_is_dropped() {
    let worker = register(register(RefreshWorker::new(), "a", at(0)), "b", at(0))
        .step(RefreshEvent::WokeUp(WakeUp::TimedOut))
        .step(RefreshEvent::Expiry {
            seconds: Some(100),
            now: at(0),
        });
    assert!(matches!(worker.action(), RefreshAction::PollUnregistered));
    let worker = worker.step(RefreshEvent::Unregistered("x".to_string()));
    assert!(matches!(worker.stage, RefreshStage::PollUnregistered { .. }));
    let worker = worker.step(RefreshEvent::Unregistered("a".to_string()));
    match worker.action() {
        RefreshAction::DropCached { jinxxy_user_id } => assert_eq!(jinxxy_user_id, "a"),
        other => panic!("expected the entry to be dropped: {other:?}"),
    }
    let worker = worker.step(RefreshEvent::Done).step(RefreshEvent::NoneUnregistered);
    assert_eq!(inspected(&worker), "b");
}

#[test]
fn a_bump_recalculates_the_sleep() {
    let worker = time_out(register(RefreshWorker::new(), "a", at(1_000)), at(1_000)).step(RefreshEvent::Cached {
        create_time: Some(at(1_000)),
        now: at(1_000),
    });
    assert_eq!(wait(&worker), Some(160_000));
    let worker = worker
        .step(RefreshEvent::WokeUp(WakeUp::Bumped))
        .step(RefreshEvent::Expiry {
            seconds: None,
            now: at(1_000),
        });
    assert_eq!(wait(&worker), Some(86_460_000));
}

#[test]
fn not_too_many_stores_are_looked_at() {
    let mut worker = RefreshWorker::new();
    for store in 0..300 {
        worker = register(worker, &format!("store{store:03}"), at(1_000));
    }
    worker = time_out(worker, at(1_000));
    let mut count = 0;
    while matches!(worker.action(), RefreshAction::InspectCached { .. }) {
        count += 1;
        worker = worker.step(RefreshEvent::Cached {
            create_time: Some(at(1_000)),
            now: at(1_000),
        });
    }
    assert_eq!(count, 250);
    assert_eq!(worker.queue.len(), 300);
    // the rest is overdue
    assert_eq!(wait(&worker), Some(2_000));
}
