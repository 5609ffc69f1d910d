//! The Jinxxy API, and the other HTTP services

use jinx::error::JinxError;
use jinx::bot::cache::{key_validity_after, may_use_key, KeyUse};
use jinx::http::gumroad::{
    verification_status, verify_url, GumroadError, HttpBody as GumroadBody, VerificationStatus,
};
use jinx::http::jinxxy::api::{
    accept_license_activations, activation_url, activations_page_url, activations_url, expected_etag,
    find_known_product, get_license_id, is_not_modified, license_activation_deleted, license_url, licenses_url,
    loaded_product, me_url, product_url, products_page_url, trusted_license_to_id, LicenseCheck, LicenseCheckEvent,
    LicenseLookup, ProductPages,
};
use jinx::http::jinxxy::{
    AuthUser, DisplayUser, FullProduct, GetProfileImageUrl, GetProfileUrl, GetUsername, HttpBody, HttpResponse,
    JinxxyError, JinxxyErrorMessage, JinxxyErrorMultiMessagePart, JinxxyErrorResponse, License, LicenseActivation,
    LicenseActivationList, LicenseActivations, LicenseInfo, LicenseInventoryItem, LicenseInventoryItemItem,
    LicenseKey, LicenseList, LicenseListResult, LicenseUser, LoadedProduct, OrderInfo, PartialProduct,
    ProductList, ProductNameInfo, ProductNameInfoValue, ProductVersion, ProductVersionId, ProfileImage,
};
use jinx::http::update_checker::{
    check_for_update, check_from_order, RemoteVersion, VersionCheck, VersionOrder,
};

fn error_response(status_code: u16, error: &str, message: JinxxyErrorMessage) -> JinxxyErrorResponse {
    JinxxyErrorResponse {
        status_code,
        error: error.to_string(),
        message,
        code: "GRAPHQL_ERROR".to_string(),
    }
}

fn single(message: &str) -> JinxxyErrorMessage {
    JinxxyErrorMessage::SingleMessage(message.to_string())
}

fn http_error(body: HttpBody) -> JinxxyError {
    JinxxyError::HttpResponse(HttpResponse {
        endpoint: "GET /me".to_string(),
        status_code: 500,
        headers: String::new(),
        body,
    })
}

#[test]
fn errors_look_like_403() {
    assert!(error_response(403, "Forbidden", single("no")).looks_like_403());
    assert!(error_response(500, "Bad Request", single("You are not authorized.")).looks_like_403());
    assert!(!error_response(500, "Bad Request", single("you are not authorized.")).looks_like_403());
    assert!(!error_response(500, "Other", single("You are not authorized.")).looks_like_403());
    assert!(!error_response(404, "Bad Request", single("no")).looks_like_403());
}

#[test]
fn errors_look_like_404() {
    assert!(error_response(404, "Not Found", single("no")).looks_like_404());
    assert!(error_response(500, "Bad Request", single("Resource not found.")).looks_like_404());
    assert!(!error_response(500, "Bad Request", single("You are not authorized.")).looks_like_404());
    assert!(!error_response(403, "Bad Request", single("no")).looks_like_404());
}

#[test]
fn any_part_of_a_message_counts() {
    let parts = |messages: &[&str]| {
        JinxxyErrorMessage::MultiMessage(
            messages
                .iter()
                .map(|message| JinxxyErrorMultiMessagePart {
                    message: message.to_string(),
                    code: "validation_error".to_string(),
                })
                .collect(),
        )
    };
    let response = error_response(400, "Bad Request", parts(&["a", "Resource not found."]));
    assert!(response.looks_like_404());
    assert!(!response.looks_like_403());
    assert!(!error_response(400, "Bad Request", parts(&[])).looks_like_404());
}

#[test]
fn only_explained_errors_look_like_something() {
    let explained = http_error(HttpBody::JsonErrorResponse(error_response(404, "Not Found", single("no"))));
    assert!(explained.looks_like_404());
    assert!(!explained.looks_like_403());
    let unexplained = http_error(HttpBody::UnknownErrorResponse(vec![1]));
    assert!(!unexplained.looks_like_404() && !unexplained.looks_like_403());
    assert!(!JinxxyError::Impossible304.looks_like_404());
}

#[test]
fn jinxxy_errors_have_texts() {
    assert_eq!(http_error(HttpBody::ReadError("x".to_string())).describe(), "Jinxxy API error");
    let request = JinxxyError::HttpRequest {
        endpoint: "GET /me".to_string(),
        error: "timeout".to_string(),
    };
    assert_eq!(request.describe(), "HTTP general failure");
    let read = JinxxyError::HttpRead {
        endpoint: "GET /me".to_string(),
        error: "timeout".to_string(),
    };
    assert_eq!(read.describe(), "HTTP body read failed");
    assert_eq!(
        JinxxyError::JsonDeserialize("eof".to_string()).describe(),
        "JSON deserialization failed"
    );
    assert_eq!(
        JinxxyError::Join("cancelled".to_string()).describe(),
        "parallel task join failed: cancelled"
    );
    assert_eq!(
        JinxxyError::Impossible304.describe(),
        "got 304 response from Jinxxy API without having set If-None-Match header"
    );
}

#[test]
fn private_parts_of_errors_stay_private() {
    let error = JinxError::sensitive("it broke", "the password is 1234");
    assert_eq!(error.describe(), "it broke: the password is 1234");
    assert_eq!(error.safe_display(), "it broke");
    let error = JinxError::Sqlite("table guild".to_string());
    assert_eq!(error.describe(), "DB error: table guild");
    assert_eq!(error.safe_display(), "DB error");
    let error = JinxError::Serenity("token".to_string());
    assert_eq!(error.describe(), "Discord API error: token");
    assert_eq!(error.safe_display(), "Discord API error");
    assert_eq!(JinxError::new("hello").describe(), "hello");
    assert_eq!(JinxError::new("hello").safe_display(), "hello");
    let error = JinxError::Jinxxy(JinxxyError::JsonDeserialize("secret".to_string()));
    assert_eq!(error.describe(), "JSON deserialization failed");
    assert_eq!(error.safe_display(), "JSON deserialization failed");
}

fn auth_user(name: Option<&str>, username: Option<&str>, image: Option<&str>, scopes: &[&str]) -> AuthUser {
    AuthUser {
        id: "1".to_string(),
        name: name.map(|name| name.to_string()),
        username: username.map(|name| name.to_string()),
        profile_image: image.map(|url| ProfileImage { url: url.to_string() }),
        scopes: scopes.iter().map(|scope| scope.to_string()).collect(),
    }
}

#[test]
fn users_have_display_names() {
    assert_eq!(auth_user(Some("Name"), Some("user"), None, &[]).as_display_name(), "Name");
    assert_eq!(auth_user(Some(""), Some("user"), None, &[]).as_display_name(), "user");
    assert_eq!(auth_user(Some(" \u{3000}"), Some("user"), None, &[]).as_display_name(), "user");
    assert_eq!(auth_user(None, Some("user"), None, &[]).as_display_name(), "user");
    assert_eq!(auth_user(None, None, None, &[]).as_display_name(), "`null`");
    // whitespace around a name is kept
    assert_eq!(auth_user(Some(" n "), None, None, &[]).as_display_name(), " n ");
}

#[test]
fn api_keys_need_scopes() {
    assert!(auth_user(None, None, None, &["products_read", "x", "licenses_read", "licenses_write"]).has_required_scopes());
    assert!(!auth_user(None, None, None, &["products_read", "licenses_read"]).has_required_scopes());
    assert!(!auth_user(None, None, None, &[]).has_required_scopes());
}

#[test]
fn profiles_have_urls() {
    assert_eq!(
        auth_user(None, Some("foo bar?"), None, &[]).profile_url(),
        Some("https://jinxxy.com/foo%20bar%3F".to_string())
    );
    assert_eq!(
        auth_user(None, Some("Ünï_1"), None, &[]).profile_url(),
        Some("https://jinxxy.com/%C3%9Cn%C3%AF%5F1".to_string())
    );
    assert_eq!(auth_user(None, None, None, &[]).profile_url(), None);
    assert_eq!(auth_user(None, Some("u"), None, &[]).username(), Some("u"));
}

#[test]
fn empty_profile_images_are_none() {
    assert_eq!(auth_user(None, None, Some("url"), &[]).profile_image_url(), Some("url"));
    assert_eq!(auth_user(None, None, Some(""), &[]).profile_image_url(), None);
    assert_eq!(auth_user(None, None, None, &[]).profile_image_url(), None);
    let display = auth_user(Some("Name"), None, Some("url"), &[]).to_display_user();
    assert_eq!(display.display_name, "Name");
    assert_eq!(display.profile_image_url(), Some("url"));
}

#[test]
fn names_become_possessive() {
    let user = |name: &str| DisplayUser {
        display_name: name.to_string(),
        profile_image_url: None,
    };
    assert_eq!(user("Alex").name_possessive(), "Alex's");
    assert_eq!(user("James").name_possessive(), "James'");
    assert_eq!(user("JAMES").name_possessive(), "JAMES's");
    assert_eq!(user("").name_possessive(), "'s");
}

fn license(version: Option<&str>) -> License {
    License {
        id: "id".to_string(),
        short_key: "short".to_string(),
        key: "long".to_string(),
        user: LicenseUser {
            id: "user".to_string(),
            username: Some("name".to_string()),
        },
        inventory_item: LicenseInventoryItem {
            target_id: "product".to_string(),
            target_version_id: version.map(|version| version.to_string()),
            item: LicenseInventoryItemItem {
                name: "Avatar".to_string(),
            },
            order: Some(OrderInfo {
                id: "order".to_string(),
                payment_status: "paid".to_string(),
            }),
        },
        activations: LicenseActivations { total_count: 3 },
    }
}

fn versions(versions: &[(&str, &str)]) -> Vec<ProductVersion> {
    versions
        .iter()
        .map(|(id, name)| ProductVersion {
            id: id.to_string(),
            name: name.to_string(),
        })
        .collect()
}

#[test]
fn licenses_are_described() {
    let info = LicenseInfo::from_license(license(Some("v")));
    assert_eq!(info.license_id, "id");
    assert_eq!(info.short_key, "short");
    assert_eq!(info.key, "long");
    assert_eq!(info.user_id, "user");
    assert_eq!(info.username(), Some("name"));
    assert_eq!(info.product_id, "product");
    assert_eq!(info.product_name, "Avatar");
    assert_eq!(info.order_id.as_deref(), Some("order"));
    assert_eq!(info.activations, 3);
    assert_eq!(info.version_id(), Some("v"));
    assert_eq!(info.profile_url(), Some("https://jinxxy.com/name".to_string()));
    let id = info.new_product_version_id();
    assert_eq!(id.product_id, "product");
    assert_eq!(id.product_version_id.as_deref(), Some("v"));
    assert_eq!(id.describe(), "product.v");
    let info = LicenseInfo::from_license(license(None));
    assert_eq!(info.version_id(), None);
    assert_eq!(info.new_product_version_id().describe(), "product.null");
}

#[test]
fn versions_are_named() {
    let name = |list: &[(&str, &str)]| {
        LicenseInfo::from_license(license(Some("v")))
            .add_product_version_name(&versions(list))
            .product_version_info
            .map(|info| info.product_version_name)
    };
    assert_eq!(name(&[("u", "1"), ("v", "2"), ("v", "3")]), Some("2".to_string()));
    assert_eq!(name(&[("u", "1")]), Some(String::new()));
    let info = LicenseInfo::from_license(license(None)).add_product_version_name(&versions(&[("v", "2")]));
    assert!(info.product_version_info.is_none());
}

#[test]
fn product_versions_compare() {
    let id = |version: Option<&str>| ProductVersionId {
        product_id: "p".to_string(),
        product_version_id: version.map(|version| version.to_string()),
    };
    assert!(id(Some("a")).same(&id(Some("a"))));
    assert!(!id(Some("a")).same(&id(Some("b"))));
    assert!(!id(Some("a")).same(&id(None)));
    assert!(id(None).same(&ProductVersionId::from_product_id("p")));
    assert!(id(Some("a")).copied().same(&id(Some("a"))));
}

#[test]
fn products_are_converted() {
    let full = FullProduct {
        id: "1".to_string(),
        name: "Avatar".to_string(),
        versions: versions(&[("a", "1.0")]),
        etag: None,
    };
    let partial = PartialProduct::from(full);
    assert_eq!(partial.id, "1");
    assert_eq!(partial.name, "Avatar");
    assert_eq!(partial.versions.len(), 1);
    let list = ProductList { results: vec![partial] };
    assert_eq!(list.products()[0].name, "Avatar");
}

#[test]
fn urls() {
    let base = "https://api.creators.jinxxy.com/v1/";
    assert_eq!(me_url(), format!("{base}me"));
    assert_eq!(licenses_url(), format!("{base}licenses"));
    assert_eq!(license_url("7"), format!("{base}licenses/7"));
    assert_eq!(activations_url("7"), format!("{base}licenses/7/activations"));
    assert_eq!(activations_page_url("7"), format!("{base}licenses/7/activations?limit=100"));
    assert_eq!(activation_url("7", "8"), format!("{base}licenses/7/activations/8"));
    assert_eq!(product_url("9"), format!("{base}products/9"));
    assert_eq!(products_page_url(3), format!("{base}products?limit=100&page=3"));
    assert_eq!(
        verify_url("p", "k"),
        "https://api.gumroad.com/v2/licenses/verify?product_id=p&license_key=k&increment_uses_count=false"
    );
}

#[test]
fn gumroad_answers() {
    assert_eq!(verification_status(200), VerificationStatus::ReadBody);
    assert_eq!(verification_status(299), VerificationStatus::ReadBody);
    assert_eq!(verification_status(404), VerificationStatus::NotValid);
    assert_eq!(verification_status(300), VerificationStatus::Error);
    assert_eq!(verification_status(199), VerificationStatus::Error);
    assert_eq!(verification_status(500), VerificationStatus::Error);
}

#[test]
fn licenses_are_looked_up() {
    assert!(matches!(get_license_id(LicenseKey::Id("7")), LicenseLookup::Known("7")));
    assert!(matches!(
        get_license_id(LicenseKey::Short("s")),
        LicenseLookup::Search {
            parameter: "short_key",
            key: "s"
        }
    ));
    assert!(matches!(
        get_license_id(LicenseKey::Long("l")),
        LicenseLookup::Search {
            parameter: "key",
            key: "l"
        }
    ));
    assert!(matches!(trusted_license_to_id("123123"), LicenseLookup::Known("123123")));
    assert!(matches!(
        trusted_license_to_id("XXXX-cd071c534191"),
        LicenseLookup::Search {
            parameter: "short_key",
            ..
        }
    ));
    assert!(matches!(
        trusted_license_to_id("3642d957-c5d8-4d18-a1ae-cd071c534191"),
        LicenseLookup::Search { parameter: "key", .. }
    ));
    assert!(matches!(
        trusted_license_to_id("WTKP4-66NL5-HMKQW-GFSCZ"),
        LicenseLookup::Impossible
    ));
}

fn list(ids: &[&str]) -> LicenseList {
    LicenseList {
        results: ids.iter().map(|id| LicenseListResult { id: id.to_string() }).collect(),
    }
}

#[test]
fn a_license_is_checked_by_key() {
    let check = LicenseCheck::new(LicenseKey::Short("s"), true);
    match &check {
        LicenseCheck::Search { parameter, key, .. } => {
            assert_eq!(parameter, "short_key");
            assert_eq!(key, "s");
        }
        other => panic!("expected a search: {other:?}"),
    }
    let check = check.step(LicenseCheckEvent::Found(list(&["1", "2"])));
    match &check {
        LicenseCheck::Retrieve { license_id, .. } => assert_eq!(license_id, "1"),
        other => panic!("expected a license to be retrieved: {other:?}"),
    }
    let check = check.step(LicenseCheckEvent::Retrieved(license(Some("v"))));
    assert!(matches!(check, LicenseCheck::NameVersion { .. }));
    let check = check.step(LicenseCheckEvent::Product(FullProduct {
        id: "product".to_string(),
        name: "Avatar".to_string(),
        versions: versions(&[("v", "1.0")]),
        etag: None,
    }));
    match check {
        LicenseCheck::Checked(Some(info)) => {
            let version = info.product_version_info.expect("there is a version");
            assert_eq!(version.product_version_name, "1.0");
        }
        other => panic!("expected a license: {other:?}"),
    }
}

#[test]
fn a_license_is_not_found_by_key() {
    let check = LicenseCheck::new(LicenseKey::Long("l"), false).step(LicenseCheckEvent::Found(list(&[])));
    assert!(matches!(check, LicenseCheck::Checked(None)));
}

#[test]
fn a_version_is_only_named_if_asked_for() {
    let check = LicenseCheck::new(LicenseKey::Id("1"), false).step(LicenseCheckEvent::Retrieved(license(Some("v"))));
    assert!(matches!(check, LicenseCheck::Checked(Some(_))));
    let check = LicenseCheck::new(LicenseKey::Id("1"), true).step(LicenseCheckEvent::Retrieved(license(None)));
    assert!(matches!(check, LicenseCheck::Checked(Some(_))));
}

#[test]
fn a_provided_id_may_be_that_of_no_license() {
    let missing = || http_error(HttpBody::JsonErrorResponse(error_response(404, "Not Found", single("no"))));
    let forbidden = || http_error(HttpBody::JsonErrorResponse(error_response(403, "Forbidden", single("no"))));
    let by_id = || LicenseCheck::new(LicenseKey::Id("1"), false);
    let check = by_id().step(LicenseCheckEvent::NotRetrieved(missing()));
    assert!(matches!(check, LicenseCheck::Checked(None)));
    let check = by_id().step(LicenseCheckEvent::NotRetrieved(forbidden()));
    assert!(matches!(check, LicenseCheck::Checked(None)));
    let check = by_id().step(LicenseCheckEvent::NotRetrieved(JinxxyError::Impossible304));
    assert!(matches!(check, LicenseCheck::Failed(JinxxyError::Impossible304)));
    // one that was found by a search may not
    let check = LicenseCheck::new(LicenseKey::Short("s"), false)
        .step(LicenseCheckEvent::Found(list(&["1"])))
        .step(LicenseCheckEvent::NotRetrieved(missing()));
    assert!(matches!(check, LicenseCheck::Failed(_)));
}

fn activation_list(count: usize) -> LicenseActivationList {
    LicenseActivationList {
        results: (0..count)
            .map(|i| LicenseActivation {
                id: i.to_string(),
                description: "x".to_string(),
                created_at: "2023-12-01T01:52:15.816Z".parse().expect("Expected valid Timestamp"),
            })
            .collect(),
    }
}

#[test]
fn full_pages_of_activations_are_not_trusted() {
    assert_eq!(accept_license_activations(activation_list(99), 5).expect("not full").len(), 99);
    assert!(matches!(
        accept_license_activations(activation_list(100), 5),
        Err(JinxxyError::UnsupportedPagination(5))
    ));
    assert_eq!(activation_list(3).len(), 3);
}

#[test]
fn deleted_activations() {
    assert!(license_activation_deleted(None).expect("deleted"));
    let missing = http_error(HttpBody::JsonErrorResponse(error_response(
        500,
        "Bad Request",
        single("Resource not found."),
    )));
    assert!(!license_activation_deleted(Some(missing)).expect("not found"));
    let forbidden = http_error(HttpBody::JsonErrorResponse(error_response(403, "Forbidden", single("no"))));
    assert!(license_activation_deleted(Some(forbidden)).is_err());
}

#[test]
fn unchanged_products() {
    assert!(is_not_modified(true, 304));
    assert!(!is_not_modified(false, 304));
    assert!(!is_not_modified(true, 200));
}

fn page(count: usize) -> Vec<PartialProduct> {
    (0..count)
        .map(|i| PartialProduct {
            id: i.to_string(),
            name: "x".to_string(),
            versions: Vec::new(),
        })
        .collect()
}

#[test]
fn pages_are_read_until_one_is_not_full() {
    let mut pages = ProductPages::new();
    assert_eq!(pages.page_number, 1);
    pages.add_page(page(100));
    assert!(!pages.finished);
    assert_eq!(pages.page_number, 2);
    pages.add_page(page(7));
    assert!(pages.finished);
    assert_eq!(pages.products.len(), 107);
    let mut pages = ProductPages::new();
    pages.add_page(page(0));
    assert!(pages.finished && pages.products.is_empty());
}

#[test]
fn pages_are_limited() {
    let mut pages = ProductPages::new();
    let mut count = 0;
    while !pages.finished {
        pages.add_page(page(100));
        count += 1;
    }
    assert_eq!(count, 100);
    assert_eq!(pages.products.len(), 10_000);
}

#[test]
fn unchanged_products_come_from_the_database() {
    let known = |id: &str, name: &str, etag: Option<Vec<u8>>| ProductNameInfo {
        id: id.to_string(),
        value: ProductNameInfoValue {
            product_name: name.to_string(),
            etag,
        },
    };
    let products = [
        known("1", "old", None),
        known("2", "Hat", None),
        known("1", "Avatar", Some(vec![7])),
    ];
    let one = "1".to_string();
    let two = "2".to_string();
    let three = "3".to_string();
    assert_eq!(expected_etag(&products, &one), Some(&vec![7]));
    assert_eq!(expected_etag(&products, &two), None);
    assert_eq!(expected_etag(&products, &three), None);
    assert_eq!(
        find_known_product(&products, &one).map(|product| product.value.product_name.as_str()),
        Some("Avatar")
    );
    match loaded_product(one.clone(), None, &products, Vec::new()).expect("the product is known") {
        LoadedProduct::Cached { product_info, versions } => {
            assert_eq!(product_info.id, "1");
            assert_eq!(product_info.value.product_name, "Avatar");
            assert_eq!(product_info.value.etag, Some(vec![7]));
            assert!(versions.is_empty());
        }
        other => panic!("expected a cached product: {other:?}"),
    }
    assert!(matches!(
        loaded_product(three, None, &products, Vec::new()),
        Err(JinxxyError::Impossible304)
    ));
    let full = FullProduct {
        id: "1".to_string(),
        name: "New".to_string(),
        versions: Vec::new(),
        etag: None,
    };
    match loaded_product(one, Some(full), &products, Vec::new()).expect("the product was sent") {
        LoadedProduct::Api(product) => assert_eq!(product.name, "New"),
        other => panic!("expected a new product: {other:?}"),
    }
}

fn remote(version: &str) -> RemoteVersion {
    RemoteVersion {
        url: "https://example.com".to_string(),
        version: version.to_string(),
    }
}

#[test]
fn versions_are_compared() {
    let check = |local: &str, version: &str| check_for_update(local, Some(remote(version)));
    assert!(matches!(check("1.0.0", "1.0.1"), VersionCheck::Outdated(_)));
    assert!(matches!(check("1.10.0", "1.9.0"), VersionCheck::Future(_)));
    assert!(matches!(check("2.0.0", "1.99.99"), VersionCheck::Future(_)));
    assert!(matches!(check("1.0.0", "1.0.0"), VersionCheck::Current));
    // a release is newer than its pre-releases
    assert!(matches!(check("1.0.0-beta", "1.0.0"), VersionCheck::Outdated(_)));
    assert!(matches!(check("1.0.0-beta.2", "1.0.0-beta.11"), VersionCheck::Outdated(_)));
    assert!(matches!(check("1.0.0", "v1.0.0"), VersionCheck::BadRemote(_)));
    assert!(matches!(check("1.0", "1.0.0"), VersionCheck::BadLocal(_)));
    assert!(matches!(check("1.0", "1.0"), VersionCheck::BadRemote(_)));
    assert!(matches!(check_for_update("1.0.0", None), VersionCheck::UnknownRemote));
}

#[test]
fn version_checks_are_explained() {
    let outdated = check_from_order(remote("2.0.0"), VersionOrder::Newer);
    assert!(outdated.is_warn() && !outdated.is_error());
    assert_eq!(
        outdated.describe(),
        "jinx is outdated! The bot owner should upgrade to [2.0.0](<https://example.com>)."
    );
    let current = check_from_order(remote("2.0.0"), VersionOrder::Same);
    assert!(!current.is_warn() && !current.is_error());
    assert_eq!(current.describe(), "jinx is up-to-date!");
    let future = check_from_order(remote("2.0.0"), VersionOrder::Older);
    assert!(!future.is_warn() && future.is_error());
    assert_eq!(
        future.describe(),
        "jinx is somehow ahead of the version on GitHub ([2.0.0](<https://example.com>)). If you're not beta testing a pre-release then something is wrong."
    );
    assert_eq!(
        VersionCheck::BadLocal(remote("2.0.0")).describe(),
        "jinx local version is not semver-compatible, so could not be compared to the version on GitHub ([2.0.0](<https://example.com>))."
    );
    assert_eq!(
        VersionCheck::BadRemote(remote("x")).describe(),
        "jinx version on GitHub ([x](<https://example.com>)) is not semver-compatible, so could not be compared to the currently running version."
    );
    assert_eq!(
        VersionCheck::UnknownRemote.describe(),
        "Unable to retrieve version from GitHub. This means we cannot determine if jinx is outdated."
    );
    assert!(VersionCheck::UnknownRemote.is_error());
}

#[test]
fn errors_keep_what_went_wrong() {
    let error = JinxxyError::from_response("GET /me", 500, "{}".to_string(), Ok(vec![1, 2]), None);
    let JinxxyError::HttpResponse(response) = error else {
        panic!("not a response");
    };
    assert_eq!(response.endpoint, "GET /me");
    assert_eq!(response.status_code, 500);
    assert_eq!(response.headers, "{}");
    assert!(matches!(response.body, HttpBody::UnknownErrorResponse(bytes) if bytes == [1, 2]));

    let explanation =
        error_response(500, "Internal Server Error", JinxxyErrorMessage::SingleMessage("no".to_string()));
    let error = JinxxyError::from_response("GET /me", 500, "{}".to_string(), Ok(vec![1, 2]), Some(explanation));
    assert!(matches!(
        error,
        JinxxyError::HttpResponse(HttpResponse { body: HttpBody::JsonErrorResponse(json), .. })
            if json.status_code == 500
    ));

    let error = JinxxyError::from_response("GET /me", 500, "{}".to_string(), Err("cut".to_string()), None);
    assert!(matches!(
        error,
        JinxxyError::HttpResponse(HttpResponse { body: HttpBody::ReadError(what), .. }) if what == "cut"
    ));
    assert!(matches!(
        JinxxyError::from_request("GET /me", "refused".to_string()),
        JinxxyError::HttpRequest { endpoint, error } if endpoint == "GET /me" && error == "refused"
    ));
    assert!(matches!(
        JinxxyError::from_read("GET /me", "cut".to_string()),
        JinxxyError::HttpRead { endpoint, error } if endpoint == "GET /me" && error == "cut"
    ));
    assert!(matches!(
        JinxxyError::from_json("EOF".to_string()),
        JinxxyError::JsonDeserialize(what) if what == "EOF"
    ));
    assert!(matches!(JinxxyError::from_join("cancelled".to_string()), JinxxyError::Join(what) if what == "cancelled"));
}

#[test]
fn gumroad_errors_keep_what_went_wrong() {
    let error = GumroadError::from_response(500, "{}".to_string(), Ok(vec![3]));
    assert!(matches!(
        error,
        GumroadError::HttpResponse(response) if response.status_code == 500 && response.headers == "{}"
            && matches!(&response.body, GumroadBody::UnknownErrorResponse(bytes) if *bytes == [3])
    ));
    let error = GumroadError::from_response(502, "{}".to_string(), Err("cut".to_string()));
    assert!(matches!(
        error,
        GumroadError::HttpResponse(response) if response.status_code == 502
            && matches!(&response.body, GumroadBody::ReadError(what) if what == "cut")
    ));
    assert!(matches!(GumroadError::from_request("a".to_string()), GumroadError::HttpRequest(what) if what == "a"));
    assert!(matches!(GumroadError::from_read("a".to_string()), GumroadError::HttpRead(what) if what == "a"));
    assert!(matches!(GumroadError::from_json("a".to_string()), GumroadError::JsonDeserialize(what) if what == "a"));
}

#[test]
fn invalid_api_keys_are_found_in_the_background() {
    let refused = |status_code: u16| {
        JinxError::Jinxxy(JinxxyError::from_response("GET /me", status_code, "{}".to_string(), Ok(vec![]), None))
    };
    for status_code in [401, 403] {
        let error = refused(status_code);
        assert!(error.is_api_key_invalid());
        assert_eq!(key_validity_after(KeyUse::Background, Some(&error)), Some(false));
        assert_eq!(key_validity_after(KeyUse::HighPriority, Some(&error)), None);
    }
    for error in [refused(500), refused(404), JinxError::new("no")] {
        assert!(!error.is_api_key_invalid());
        assert_eq!(key_validity_after(KeyUse::Background, Some(&error)), None);
    }
    assert_eq!(key_validity_after(KeyUse::Background, None), None);
    assert_eq!(key_validity_after(KeyUse::HighPriority, None), Some(true));
    assert!(may_use_key(KeyUse::Background, true));
    assert!(!may_use_key(KeyUse::Background, false));
    assert!(may_use_key(KeyUse::HighPriority, false));
}
