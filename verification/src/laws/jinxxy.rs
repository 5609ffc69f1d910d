//! What is asked of Jinxxy, and what is made of its answers

use crate::http::jinxxy::api::{
    accept_license_activations, expected_etag, find_known_product, get_license_id, is_not_modified, known_product,
    license_activation_deleted, loaded_product, trusted_license_to_id, LicenseCheck, LicenseCheckEvent, LicenseLookup,
    LicenseLookupView, ProductPages,
};
use crate::http::jinxxy::{
    activation_round_trip, named_version, AuthUser, CreateLicenseActivation, DisplayUser,
    FullProduct, HttpBody, JinxxyError, JinxxyErrorMessage, JinxxyResult, License,
    LicenseActivation, LicenseActivationList, LicenseInfo, LicenseKey, LicenseKeyView, LicenseList, LoadedProduct,
    PartialProduct,
    ProductNameInfo, ProductVersion, ProductVersionId, ProductVersionNameInfo,
};
use crate::license::license_type_of;
use crate::text::{decimal, digits_value, is_digits, trimmed};
use vstd::prelude::*;

verus! {

/// Pages are added one after the other: nothing is lost, and the list goes on to the next page exactly as long as pages
/// are full and there have not been a hundred of them.
pub proof fn pages_add_up(pages: &mut ProductPages, page: Vec<PartialProduct>)
    requires
        old(pages).wf(),
        !old(pages).finished,
        call_ensures(ProductPages::add_page, (pages, page), ()),
    ensures
        final(pages).products@ == old(pages).products@ + page@,
        final(pages).finished <==> page@.len() < 100 || old(pages).page_number == 100,
        !final(pages).finished ==> final(pages).page_number == old(pages).page_number + 1,
{
}

/// The list of products starts empty, at the first page.
pub proof fn pages_start_empty(pages: ProductPages)
    requires
        call_ensures(ProductPages::new, (), pages),
    ensures
        pages.products@ == Seq::<PartialProduct>::empty(),
        pages.page_number == 1,
        !pages.finished,
{
    assert(pages.products@ =~= Seq::<PartialProduct>::empty());
}

/// An activation that is created for a user is one of that user when it is read again, whoever it is.
pub proof fn created_activations_name_their_user(
    user_id: u64,
    created: CreateLicenseActivation,
    activation: LicenseActivation,
    read: Option<u64>,
    lock: bool,
)
    requires
        call_ensures(CreateLicenseActivation::from_user_id, (user_id,), created),
        activation.description@ == created.description@,
        call_ensures(LicenseActivation::try_into_user_id, (&activation,), read),
        call_ensures(LicenseActivation::is_lock, (&activation,), lock),
    ensures
        read == Some(user_id),
        lock <==> user_id == 0,
        created.description@ == "discord_"@ + decimal(user_id as nat),
{
    activation_round_trip(user_id);
}

/// An activation is one of a user only if its description is the prefix and the digits of that user's ID.
pub proof fn foreign_activations_name_nobody(activation: LicenseActivation, read: Option<u64>)
    requires
        call_ensures(LicenseActivation::try_into_user_id, (&activation,), read),
    ensures
        read matches Some(user_id) ==> exists|digits: Seq<char>|
            is_digits(digits) && digits_value(digits) == user_id && activation.description@ == "discord_"@ + digits,
{
    if let Some(user_id) = read {
        let prefix = "discord_"@;
        let digits = activation.description@.skip(prefix.len() as int);
        assert(activation.description@ =~= prefix + digits);
    }
}

/// The users of some activations are those that they name, in order: each activation adds its user, if it names one.
pub proof fn users_of_activations_are_in_order(
    activations: &[LicenseActivation],
    more: &[LicenseActivation],
    users: Vec<u64>,
    more_users: Vec<u64>,
    last: LicenseActivation,
    read: Option<u64>,
)
    requires
        more@ == activations@.push(last),
        call_ensures(LicenseActivation::user_ids, (activations,), users),
        call_ensures(LicenseActivation::user_ids, (more,), more_users),
        call_ensures(LicenseActivation::try_into_user_id, (&last,), read),
    ensures
        more_users@ == (match read {
            Some(user_id) => users@.push(user_id),
            None => users@,
        }),
        activations@.len() == 0 ==> users@.len() == 0,
{
    assert(more@.drop_last() =~= activations@);
}

/// A key is searched for by the parameter of its kind, and an ID is taken as it is.
pub proof fn keys_are_searched_for(text: &str, short: LicenseLookup<'_>, long: LicenseLookup<'_>, id: LicenseLookup<'_>)
    requires
        call_ensures(get_license_id, (LicenseKey::Short(text),), short),
        call_ensures(get_license_id, (LicenseKey::Long(text),), long),
        call_ensures(get_license_id, (LicenseKey::Id(text),), id),
    ensures
        short matches LicenseLookup::Search { parameter, key } && parameter@ == "short_key"@ && key@ == text@,
        long matches LicenseLookup::Search { parameter, key } && parameter@ == "key"@ && key@ == text@,
        id matches LicenseLookup::Known(id) && id@ == text@,
{
    assert(short@ == (LicenseLookupView::Search { parameter: "short_key"@, key: text@ }));
    assert(long@ == (LicenseLookupView::Search { parameter: "key"@, key: text@ }));
    assert(id@ == LicenseLookupView::Known(text@));
}

/// What an administrator provides is looked up, unless it is clearly a key of somebody else: a number as an ID, a long
/// key as one, and anything else as a short key.
pub proof fn administrators_may_look_anything_up(text: &str, lookup: LicenseLookup<'_>)
    requires
        call_ensures(trusted_license_to_id, (text,), lookup),
    ensures
        lookup is Impossible <==> license_type_of(text@) is Gumroad || license_type_of(text@) is Payhip,
        lookup is Known <==> license_type_of(text@) is Integer,
        lookup matches LicenseLookup::Known(id) ==> id@ == text@,
        lookup matches LicenseLookup::Search { parameter, key } ==> key@ == text@ && (parameter@ == "key"@
            <==> license_type_of(text@) is JinxxyLong) && (parameter@ == "short_key"@ <==> !(license_type_of(
            text@,
        ) is JinxxyLong)),
{
    reveal_strlit("key");
    reveal_strlit("short_key");
    assert("key"@.len() != "short_key"@.len());
    let view = lookup@;
    match lookup {
        LicenseLookup::Known(id) => {
            assert(view == LicenseLookupView::Known(id@));
        },
        LicenseLookup::Search { parameter, key } => {
            assert(view == (LicenseLookupView::Search { parameter: parameter@, key: key@ }));
        },
        LicenseLookup::Impossible => {
            assert(view is Impossible);
        },
    }
}

/// A license that was found is the first one that was found, and nothing is found in an empty list.
pub proof fn the_first_license_is_found(before: LicenseCheck, list: LicenseList, after: LicenseCheck)
    requires
        before is Search,
        call_ensures(LicenseCheck::step, (before, LicenseCheckEvent::Found(list)), after),
    ensures
        list.results@.len() == 0 ==> after == LicenseCheck::Checked(None),
        list.results@.len() > 0 ==> after == (LicenseCheck::Retrieve {
            license_id: list.results@[0].id,
            searched: true,
            name_version: before->Search_name_version,
        }),
{
}

/// Whether what is known of a license is what was retrieved of it.
pub open spec fn is_of(info: LicenseInfo, license: License) -> bool {
    &&& info.license_id == license.id
    &&& info.short_key == license.short_key
    &&& info.key == license.key
    &&& info.user_id == license.user.id
    &&& info.username == license.user.username
    &&& info.product_id == license.inventory_item.target_id
    &&& info.product_name == license.inventory_item.item.name
    &&& info.product_version_info is Some <==> license.inventory_item.target_version_id is Some
    &&& license.inventory_item.target_version_id matches Some(id) ==> info.product_version_info->0.product_version_id
        == id
    &&& info.order_id is Some <==> license.inventory_item.order is Some
    &&& license.inventory_item.order matches Some(order) ==> info.order_id == Some(order.id)
    &&& info.activations == license.activations.total_count
}

/// A license that was retrieved is known with all that was retrieved of it. Its version is named exactly when that is
/// asked for and there is a version.
pub proof fn a_retrieved_license_is_known(
    before: LicenseCheck,
    license: License,
    after: LicenseCheck,
    info: LicenseInfo,
)
    requires
        before is Retrieve,
        call_ensures(LicenseCheck::step, (before, LicenseCheckEvent::Retrieved(license)), after),
        call_ensures(LicenseInfo::from_license, (license,), info),
    ensures
        is_of(info, license),
        before->Retrieve_name_version && license.inventory_item.target_version_id is Some ==> (
        after matches LicenseCheck::NameVersion { license_info } && is_of(license_info, license)),
        !(before->Retrieve_name_version && license.inventory_item.target_version_id is Some) ==> (
        after matches LicenseCheck::Checked(Some(license_info)) && is_of(license_info, license)),
{
}

/// Whether Jinxxy's explanation of an error says something.
pub open spec fn explains(message: JinxxyErrorMessage, text: Seq<char>) -> bool {
    match message {
        JinxxyErrorMessage::SingleMessage(single) => single@ == text,
        JinxxyErrorMessage::MultiMessage(parts) => exists|i: int|
            0 <= i < parts@.len() && (#[trigger] parts@[i]).message@ == text,
    }
}

/// Whether an error is an explained one with a status code, or a bad request with a message.
pub open spec fn looks_like(error: JinxxyError, status_code: u16, text: Seq<char>) -> bool {
    error matches JinxxyError::HttpResponse(response) && (response.body matches HttpBody::JsonErrorResponse(json) && (
    json.status_code == status_code || (json.error@ == "Bad Request"@ && explains(json.message, text))))
}

/// An error looks like a 403 or a 404 exactly when Jinxxy explains it so, by a status code or by a message.
pub proof fn errors_are_told_apart(error: JinxxyError, forbidden: bool, missing: bool)
    requires
        call_ensures(JinxxyError::looks_like_403, (&error,), forbidden),
        call_ensures(JinxxyError::looks_like_404, (&error,), missing),
    ensures
        forbidden <==> looks_like(error, 403, "You are not authorized."@),
        missing <==> looks_like(error, 404, "Resource not found."@),
{
    if let JinxxyError::HttpResponse(response) = error {
        if let HttpBody::JsonErrorResponse(json) = response.body {
            says_means_explains(json.message, "You are not authorized."@);
            says_means_explains(json.message, "Resource not found."@);
        }
    }
}

proof fn says_means_explains(message: JinxxyErrorMessage, text: Seq<char>)
    ensures
        message.says(text) <==> explains(message, text),
{
    if let JinxxyErrorMessage::MultiMessage(parts) = message {
        if explains(message, text) {
            let i = choose|i: int| 0 <= i < parts@.len() && (#[trigger] parts@[i]).message@ == text;
            assert(parts@[i].message@ == text);
        }
        if message.says(text) {
            let i = choose|i: int| 0 <= i < parts@.len() && #[trigger] parts@[i].message@ == text;
            assert(parts@[i].message@ == text);
        }
    }
}

/// An ID that somebody provided may be that of no license: then there is none. Any other failure is one.
pub proof fn a_wrong_id_is_no_license(before: LicenseCheck, error: JinxxyError, after: LicenseCheck)
    requires
        before is Retrieve,
        call_ensures(LicenseCheck::step, (before, LicenseCheckEvent::NotRetrieved(error)), after),
    ensures
        !before->Retrieve_searched && (looks_like(error, 403, "You are not authorized."@) || looks_like(
            error,
            404,
            "Resource not found."@,
        )) ==> after == LicenseCheck::Checked(None),
        before->Retrieve_searched || !(looks_like(error, 403, "You are not authorized."@) || looks_like(
            error,
            404,
            "Resource not found."@,
        )) ==> after == LicenseCheck::Failed(error),
{
    if let JinxxyError::HttpResponse(response) = error {
        if let HttpBody::JsonErrorResponse(json) = response.body {
            says_means_explains(json.message, "You are not authorized."@);
            says_means_explains(json.message, "Resource not found."@);
        }
    }
}

/// An activation is reported as deleted if there was no error, as missing if Jinxxy explains it so, and otherwise the
/// error is reported.
pub proof fn deletions_are_reported(error: Option<JinxxyError>, r: JinxxyResult<bool>)
    requires
        call_ensures(license_activation_deleted, (error,), r),
    ensures
        error is None ==> r == JinxxyResult::<bool>::Ok(true),
        error matches Some(e) ==> (looks_like(e, 404, "Resource not found."@) ==> r == JinxxyResult::<bool>::Ok(false)),
        error matches Some(e) ==> (!looks_like(e, 404, "Resource not found."@) ==> r == JinxxyResult::<bool>::Err(e)),
{
    if let Some(JinxxyError::HttpResponse(response)) = error {
        if let HttpBody::JsonErrorResponse(json) = response.body {
            says_means_explains(json.message, "Resource not found."@);
        }
    }
}

proof fn named_version_is_the_first(versions: Seq<ProductVersion>, id: Seq<char>)
    ensures
        named_version(versions, id) is None <==> forall|i: int|
            0 <= i < versions.len() ==> (#[trigger] versions[i]).id@ != id,
        named_version(versions, id) matches Some(name) ==> exists|i: int|
            0 <= i < versions.len() && (#[trigger] versions[i]).id@ == id && versions[i].name == name && forall|j: int|
                0 <= j < i ==> (#[trigger] versions[j]).id@ != id,
    decreases versions.len(),
{
    if versions.len() > 0 {
        let init = versions.drop_last();
        let n = versions.len() - 1;
        named_version_is_the_first(init, id);
        assert forall|i: int| 0 <= i < init.len() implies #[trigger] init[i] == versions[i] by {}
        if named_version(init, id) is Some {
            let name = named_version(init, id)->0;
            let i = choose|i: int|
                0 <= i < init.len() && (#[trigger] init[i]).id@ == id && init[i].name == name && forall|j: int|
                    0 <= j < i ==> (#[trigger] init[j]).id@ != id;
            assert(versions[i].id@ == id);
            assert forall|j: int| 0 <= j < i implies (#[trigger] versions[j]).id@ != id by {
                assert(init[j].id@ != id);
            }
        } else {
            assert forall|j: int| 0 <= j < n implies (#[trigger] versions[j]).id@ != id by {
                assert(init[j].id@ != id);
            }
            if versions[n].id@ == id {
                assert(versions[n].name == named_version(versions, id)->0);
            }
        }
    }
}

/// The version of a license is named by the first version of its product with the right ID. Nothing else of the license
/// changes, and nothing at all without such a version.
pub proof fn the_version_is_named(info: LicenseInfo, versions: &[ProductVersion], named: LicenseInfo)
    requires
        call_ensures(LicenseInfo::add_product_version_name, (info, versions), named),
    ensures
        named.license_id == info.license_id,
        named.short_key == info.short_key,
        named.key == info.key,
        named.user_id == info.user_id,
        named.username == info.username,
        named.product_id == info.product_id,
        named.product_name == info.product_name,
        named.order_id == info.order_id,
        named.activations == info.activations,
        named.product_version_info is Some <==> info.product_version_info is Some,
        info.product_version_info matches Some(version) ==> {
            let id = version.product_version_id;
            &&& named.product_version_info->0.product_version_id == id
            &&& (forall|i: int| 0 <= i < versions@.len() ==> (#[trigger] versions@[i]).id@ != id@)
                ==> named.product_version_info->0.product_version_name == version.product_version_name
            &&& (exists|i: int| 0 <= i < versions@.len() && (#[trigger] versions@[i]).id@ == id@) ==> exists|i: int|
                0 <= i < versions@.len() && (#[trigger] versions@[i]).id@ == id@ && versions@[i].name
                    == named.product_version_info->0.product_version_name && forall|j: int|
                    0 <= j < i ==> (#[trigger] versions@[j]).id@ != id@
        },
{
    if let Some(version) = info.product_version_info {
        named_version_is_the_first(versions@, version.product_version_id@);
    }
}

/// The version of a license is named out of the product that was retrieved.
pub proof fn the_license_is_checked_with_its_version(
    info: LicenseInfo,
    product: FullProduct,
    after: LicenseCheck,
    versions: &[ProductVersion],
    named: LicenseInfo,
)
    requires
        versions@ == product.versions@,
        call_ensures(
            LicenseCheck::step,
            (LicenseCheck::NameVersion { license_info: info }, LicenseCheckEvent::Product(product)),
            after,
        ),
        call_ensures(LicenseInfo::add_product_version_name, (info, versions), named),
    ensures
        after == LicenseCheck::Checked(Some(named)),
{
}

/// A list of activations is accepted exactly when it is shorter than a page may be, or longer.
pub proof fn full_pages_are_not_accepted(
    list: LicenseActivationList,
    nonce: u64,
    r: JinxxyResult<Vec<LicenseActivation>>,
)
    requires
        call_ensures(accept_license_activations, (list, nonce), r),
    ensures
        r is Ok <==> list.results@.len() != 100,
        r matches Ok(activations) ==> activations == list.results,
        r matches Err(e) ==> e == JinxxyError::UnsupportedPagination(nonce),
{
}

proof fn known_product_is_last(products: Seq<ProductNameInfo>, id: Seq<char>)
    ensures
        known_product(products, id) is None <==> forall|i: int|
            0 <= i < products.len() ==> (#[trigger] products[i]).id@ != id,
        known_product(products, id) matches Some(product) ==> exists|i: int|
            0 <= i < products.len() && (#[trigger] products[i]) == product && product.id@ == id && forall|j: int|
                i < j < products.len() ==> (#[trigger] products[j]).id@ != id,
    decreases products.len(),
{
    if products.len() > 0 {
        let init = products.drop_last();
        let n = products.len() - 1;
        known_product_is_last(init, id);
        assert forall|i: int| 0 <= i < init.len() implies #[trigger] init[i] == products[i] by {}
        if products.last().id@ == id {
            assert(products[n].id@ == id);
        } else if known_product(init, id) is Some {
            let product = known_product(init, id)->0;
            let i = choose|i: int|
                0 <= i < init.len() && (#[trigger] init[i]) == product && product.id@ == id && forall|j: int|
                    i < j < init.len() ==> (#[trigger] init[j]).id@ != id;
            assert(products[i] == product);
            assert forall|j: int| i < j < products.len() implies (#[trigger] products[j]).id@ != id by {
                if j < n {
                    assert(init[j].id@ != id);
                }
            }
        } else {
            assert forall|j: int| 0 <= j < products.len() implies (#[trigger] products[j]).id@ != id by {
                if j < n {
                    assert(init[j].id@ != id);
                }
            }
        }
    }
}

/// A product that is in the database is found there, and it is the last one with its ID. It is asked for with its tag,
/// if it has one.
pub proof fn known_products_are_found(
    products: &[ProductNameInfo],
    product_id: String,
    found: Option<&ProductNameInfo>,
    etag: Option<&Vec<u8>>,
)
    requires
        call_ensures(find_known_product, (products, &product_id), found),
        call_ensures(expected_etag, (products, &product_id), etag),
    ensures
        found is Some <==> exists|i: int| 0 <= i < products@.len() && (#[trigger] products@[i]).id@ == product_id@,
        found matches Some(product) ==> exists|i: int|
            0 <= i < products@.len() && (#[trigger] products@[i]) == *product && product.id@ == product_id@ && forall|
                j: int,
            |
                i < j < products@.len() ==> (#[trigger] products@[j]).id@ != product_id@,
        etag is Some <==> (found matches Some(product) && product.value.etag is Some),
        etag matches Some(etag) ==> found->0.value.etag == Some(*etag),
{
    known_product_is_last(products@, product_id@);
}

/// A product that was sent is the one that counts. One that has not changed is what the database knows of it, with its
/// versions, and it is an error if the database knows nothing.
pub proof fn unchanged_products_are_kept(
    product_id: String,
    fetched: Option<FullProduct>,
    products: &[ProductNameInfo],
    versions: Vec<ProductVersionNameInfo>,
    found: Option<&ProductNameInfo>,
    r: JinxxyResult<LoadedProduct>,
)
    requires
        call_ensures(find_known_product, (products, &product_id), found),
        call_ensures(loaded_product, (product_id, fetched, products, versions), r),
    ensures
        fetched matches Some(product) ==> (r matches Ok(LoadedProduct::Api(loaded)) && loaded == product),
        fetched is None && found is None ==> r is Err,
        fetched is None && found is Some ==> (r matches Ok(LoadedProduct::Cached { product_info, versions: kept })
            && kept == versions && product_info.id == product_id && product_info.value.product_name
            == found->0.value.product_name && (product_info.value.etag is Some <==> found->0.value.etag is Some) && (
        found->0.value.etag matches Some(etag) ==> product_info.value.etag->0@ == etag@)),
{
}

/// Only a request with a tag can be answered by a 304.
pub proof fn only_a_tag_can_match(has_expected_etag: bool, status_code: u16, r: bool)
    requires
        call_ensures(is_not_modified, (has_expected_etag, status_code), r),
    ensures
        r <==> has_expected_etag && status_code == 304,
{
}

/// The product version of a license is its product, with its version if it has one.
pub proof fn licenses_are_for_their_version(info: LicenseInfo, id: ProductVersionId, version_id: Option<&str>)
    requires
        call_ensures(LicenseInfo::new_product_version_id, (&info,), id),
        call_ensures(LicenseInfo::version_id, (&info,), version_id),
    ensures
        id.product_id == info.product_id,
        id.product_version_id is Some <==> info.product_version_info is Some,
        info.product_version_info matches Some(version) ==> id.product_version_id == Some(version.product_version_id),
        version_id is Some <==> info.product_version_info is Some,
        info.product_version_info matches Some(version) ==> version_id->0@ == version.product_version_id@,
{
}

/// A user is shown by the display name, unless that is blank: then by the username, or else as unknown.
pub proof fn users_are_shown_by_name(user: AuthUser, name: &str, shown: DisplayUser)
    requires
        call_ensures(AuthUser::as_display_name, (&user,), name),
        call_ensures(AuthUser::to_display_user, (&user,), shown),
    ensures
        shown.display_name@ == name@,
        user.name matches Some(display_name) ==> (trimmed(display_name@).len() > 0 ==> name@ == display_name@),
        (user.name matches Some(display_name) ==> trimmed(display_name@).len() == 0) ==> (
        user.username matches Some(username) ==> name@ == username@),
        (user.name matches Some(display_name) ==> trimmed(display_name@).len() == 0) && user.username is None ==> name@
            == "`null`"@,
{
}

/// An API key is good enough exactly when it may read and write licenses and read products.
pub proof fn three_scopes_are_required(user: AuthUser, r: bool)
    requires
        call_ensures(AuthUser::has_required_scopes, (&user,), r),
    ensures
        r <==> (exists|i: int| 0 <= i < user.scopes@.len() && #[trigger] user.scopes@[i]@ == "licenses_read"@) && (
        exists|i: int| 0 <= i < user.scopes@.len() && #[trigger] user.scopes@[i]@ == "licenses_write"@) && (exists|
            i: int,
        |
            0 <= i < user.scopes@.len() && #[trigger] user.scopes@[i]@ == "products_read"@),
{
}

/// The possessive form of a name has an s at its end, or the name has one.
pub proof fn possessive_forms_end_in_s(user: DisplayUser, r: String)
    requires
        call_ensures(DisplayUser::name_possessive, (&user,), r),
    ensures
        user.display_name@.len() > 0 && user.display_name@.last() == 's' ==> r@ == user.display_name@ + "'"@,
        user.display_name@.len() == 0 || user.display_name@.last() != 's' ==> r@ == user.display_name@ + "'s"@,
{
}

/// The check of a license starts with a search for its key, by the parameter of its kind, or with the license of an ID.
pub proof fn checks_start_with_the_key(
    text: &str,
    name_version: bool,
    short: LicenseCheck,
    long: LicenseCheck,
    id: LicenseCheck,
)
    requires
        call_ensures(LicenseCheck::new, (LicenseKey::Short(text), name_version), short),
        call_ensures(LicenseCheck::new, (LicenseKey::Long(text), name_version), long),
        call_ensures(LicenseCheck::new, (LicenseKey::Id(text), name_version), id),
    ensures
        short matches LicenseCheck::Search { parameter, key, name_version: n } && parameter@ == "short_key"@ && key@
            == text@ && n == name_version,
        long matches LicenseCheck::Search { parameter, key, name_version: n } && parameter@ == "key"@ && key@ == text@ && n
            == name_version,
        id matches LicenseCheck::Retrieve { license_id, searched, name_version: n } && license_id@ == text@ && !searched
            && n == name_version,
{
    let a = LicenseKey::Short(text);
    let b = LicenseKey::Long(text);
    let c = LicenseKey::Id(text);
    assert(a@ == LicenseKeyView::Short(text@));
    assert(b@ == LicenseKeyView::Long(text@));
    assert(c@ == LicenseKeyView::Id(text@));
}

} // verus!
