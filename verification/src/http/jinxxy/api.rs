//! Requests to the Jinxxy API, and what follows from their responses

use super::{
    FullProduct, License, LicenseActivation, LicenseActivationList, LicenseInfo, LicenseKey,
    LicenseKeyView, LicenseList, LoadedProduct, JinxxyError, JinxxyResult, PartialProduct, ProductNameInfo,
    ProductNameInfoValue, ProductVersionNameInfo,
};
use crate::license::{identify_license, license_type_of, trusted_license_key};
use crate::text::{decimal, u64_to_string};
use vstd::prelude::*;

verus! {

pub const JINXXY_BASE_URL: &'static str = "https://api.creators.jinxxy.com/v1/";

/// Jinxxy API has a hard limit of 100 for page size beyond which it denies requests
pub const PAGINATION_LIMIT: usize = 100;

/// Number of pages after which something is probably wrong
pub const HARD_PAGE_LIMIT: u32 = 100;

/// The URL of the user that an API key belongs to
pub fn me_url() -> (r: String)
    ensures
        r@ == JINXXY_BASE_URL@ + "me"@,
{
    JINXXY_BASE_URL.to_owned().concat("me")
}

/// The URL to search for licenses
pub fn licenses_url() -> (r: String)
    ensures
        r@ == JINXXY_BASE_URL@ + "licenses"@,
{
    JINXXY_BASE_URL.to_owned().concat("licenses")
}

/// The URL of a license
pub fn license_url(license_id: &str) -> (r: String)
    ensures
        r@ == JINXXY_BASE_URL@ + "licenses/"@ + license_id@,
{
    JINXXY_BASE_URL.to_owned().concat("licenses/").concat(license_id)
}

/// The URL to list the activations of a license, or to create one
pub fn activations_url(license_id: &str) -> (r: String)
    ensures
        r@ == JINXXY_BASE_URL@ + "licenses/"@ + license_id@ + "/activations"@,
{
    license_url(license_id).concat("/activations")
}

/// The URL to list the activations of a license, as many as fit on a page
pub fn activations_page_url(license_id: &str) -> (r: String)
    ensures
        r@ == JINXXY_BASE_URL@ + "licenses/"@ + license_id@ + "/activations"@ + "?limit="@ + decimal(
            PAGINATION_LIMIT as nat,
        ),
{
    activations_url(license_id).concat("?limit=").concat(u64_to_string(PAGINATION_LIMIT as u64).as_str())
}

/// The URL of an activation
pub fn activation_url(license_id: &str, activation_id: &str) -> (r: String)
    ensures
        r@ == JINXXY_BASE_URL@ + "licenses/"@ + license_id@ + "/activations"@ + "/"@ + activation_id@,
{
    activations_url(license_id).concat("/").concat(activation_id)
}

/// The URL of a product
pub fn product_url(product_id: &str) -> (r: String)
    ensures
        r@ == JINXXY_BASE_URL@ + "products/"@ + product_id@,
{
    JINXXY_BASE_URL.to_owned().concat("products/").concat(product_id)
}

/// The URL of a page of the list of products
pub fn products_page_url(page_number: u32) -> (r: String)
    ensures
        r@ == JINXXY_BASE_URL@ + "products?limit="@ + decimal(PAGINATION_LIMIT as nat) + "&page="@ + decimal(
            page_number as nat,
        ),
{
    JINXXY_BASE_URL.to_owned().concat("products?limit=").concat(
        u64_to_string(PAGINATION_LIMIT as u64).as_str(),
    ).concat("&page=").concat(u64_to_string(page_number as u64).as_str())
}

/// How the ID of a license is come by
#[derive(Debug, Clone, Copy)]
pub enum LicenseLookup<'a> {
    /// It is this one
    Known(&'a str),
    /// Search for a license by this query parameter. It is the first one that is found.
    Search { parameter: &'static str, key: &'a str },
    /// There is none
    Impossible,
}

/// What a [`LicenseLookup`] stands for.
pub enum LicenseLookupView {
    Known(Seq<char>),
    Search { parameter: Seq<char>, key: Seq<char> },
    Impossible,
}

impl<'a> View for LicenseLookup<'a> {
    type V = LicenseLookupView;

    open spec fn view(&self) -> LicenseLookupView {
        match *self {
            LicenseLookup::Known(id) => LicenseLookupView::Known(id@),
            LicenseLookup::Search { parameter, key } => LicenseLookupView::Search { parameter: parameter@, key: key@ },
            LicenseLookup::Impossible => LicenseLookupView::Impossible,
        }
    }
}

/// How the ID of a license with a key is come by.
pub open spec fn lookup_of(license: LicenseKeyView) -> LicenseLookupView {
    match license {
        LicenseKeyView::Id(id) => LicenseLookupView::Known(id),
        LicenseKeyView::Short(key) => LicenseLookupView::Search { parameter: "short_key"@, key },
        LicenseKeyView::Long(key) => LicenseLookupView::Search { parameter: "key"@, key },
    }
}

/// How the ID of a license with a key is come by. An ID is not verified.
pub fn get_license_id<'a>(license: LicenseKey<'a>) -> (r: LicenseLookup<'a>)
    ensures
        r@ == lookup_of(license@),
{
    match license {
        LicenseKey::Id(license_id) => LicenseLookup::Known(license_id),
        LicenseKey::Short(key) => LicenseLookup::Search { parameter: "short_key", key },
        LicenseKey::Long(key) => LicenseLookup::Search { parameter: "key", key },
    }
}

/// How a license ID is come by from whatever an administrator provided. This can proxy IDs through, so it may
/// not be suitable for untrusted applications where you don't want to allow users to pass IDs directly.
pub fn trusted_license_to_id<'a>(license: &'a str) -> (r: LicenseLookup<'a>)
    ensures
        r@ == (match trusted_license_key(license_type_of(license@), license@) {
            Some(key) => lookup_of(key),
            None => LicenseLookupView::Impossible,
        }),
{
    match identify_license(license).create_trusted_jinxxy_license(license) {
        Some(license_key) => get_license_id(license_key),
        None => LicenseLookup::Impossible,
    }
}

/// What the check of a license is waiting for
#[derive(Debug)]
pub enum LicenseCheck {
    /// Search for a license by this query parameter
    Search { parameter: String, key: String, name_version: bool },
    /// Retrieve the license with an ID. It may be that of no license, unless the ID was found by a search.
    Retrieve { license_id: String, searched: bool, name_version: bool },
    /// Retrieve the product, to name the version that the license is for
    NameVersion { license_info: LicenseInfo },
    /// The license, or nothing if there is none
    Checked(Option<LicenseInfo>),
    /// The API could not tell
    Failed(JinxxyError),
}

/// A response in the check of a license
#[derive(Debug)]
pub enum LicenseCheckEvent {
    /// The licenses that were found
    Found(LicenseList),
    /// The license
    Retrieved(License),
    /// The license was not retrieved
    NotRetrieved(JinxxyError),
    /// The product
    Product(FullProduct),
}

impl LicenseCheck {
    /// Whether an event is an answer to what is due.
    pub open spec fn answered_by(self, event: LicenseCheckEvent) -> bool {
        match self {
            LicenseCheck::Search { .. } => event is Found,
            LicenseCheck::Retrieve { .. } => event is Retrieved || event is NotRetrieved,
            LicenseCheck::NameVersion { .. } => event is Product,
            _ => false,
        }
    }

    /// Start to check a license, and to name the version that it is for if that is asked for
    pub fn new(license: LicenseKey<'_>, name_version: bool) -> (r: LicenseCheck)
        ensures
            match lookup_of(license@) {
                LicenseLookupView::Known(id) => r matches LicenseCheck::Retrieve {
                    license_id,
                    searched,
                    name_version: n,
                } && license_id@ == id && !searched && n == name_version,
                LicenseLookupView::Search { parameter, key } => r matches LicenseCheck::Search {
                    parameter: p,
                    key: k,
                    name_version: n,
                } && p@ == parameter && k@ == key && n == name_version,
                LicenseLookupView::Impossible => true,
            },
    {
        match get_license_id(license) {
            LicenseLookup::Known(license_id) => LicenseCheck::Retrieve {
                license_id: license_id.to_owned(),
                searched: false,
                name_version,
            },
            LicenseLookup::Search { parameter, key } => LicenseCheck::Search {
                parameter: parameter.to_owned(),
                key: key.to_owned(),
                name_version,
            },
            LicenseLookup::Impossible => LicenseCheck::Checked(None),
        }
    }

    /// Whether the check goes on in this way after an event.
    pub open spec fn goes_on(self, event: LicenseCheckEvent, next: LicenseCheck) -> bool {
        match (self, event) {
            // the first license that was found counts
            (LicenseCheck::Search { name_version, .. }, LicenseCheckEvent::Found(list)) => next == (
            if list.results@.len() == 0 {
                LicenseCheck::Checked(None)
            } else {
                LicenseCheck::Retrieve { license_id: list.results@[0].id, searched: true, name_version }
            }),
            // a version is named if there is one and it is asked for
            (LicenseCheck::Retrieve { name_version, .. }, LicenseCheckEvent::Retrieved(license)) =>
                if name_version && license.inventory_item.target_version_id is Some {
                    next matches LicenseCheck::NameVersion { license_info } && license_info.describes(license)
                } else {
                    next matches LicenseCheck::Checked(Some(license_info)) && license_info.describes(license)
                },
            // there need not be a license with an ID that somebody provided
            (LicenseCheck::Retrieve { searched, .. }, LicenseCheckEvent::NotRetrieved(error)) => next == (
            if !searched && (error.error_response() matches Some(response) && (response.is_403()
                || response.is_404())) {
                LicenseCheck::Checked(None)
            } else {
                LicenseCheck::Failed(error)
            }),
            (LicenseCheck::NameVersion { license_info }, LicenseCheckEvent::Product(product)) => next
                == LicenseCheck::Checked(Some(license_info.with_version_name(product.versions@))),
            _ => next == self,
        }
    }

    /// Go on with a response
    pub fn step(self, event: LicenseCheckEvent) -> (r: LicenseCheck)
        requires
            self.answered_by(event),
        ensures
            self.goes_on(event, r),
    {
        match (self, event) {
            (LicenseCheck::Search { name_version, .. }, LicenseCheckEvent::Found(list)) => {
                match list.into_license_id() {
                    Some(license_id) => LicenseCheck::Retrieve { license_id, searched: true, name_version },
                    None => LicenseCheck::Checked(None),
                }
            }
            (LicenseCheck::Retrieve { name_version, .. }, LicenseCheckEvent::Retrieved(license)) => {
                let license_info = LicenseInfo::from_license(license);
                if name_version && license_info.product_version_info.is_some() {
                    LicenseCheck::NameVersion { license_info }
                } else {
                    LicenseCheck::Checked(Some(license_info))
                }
            }
            (LicenseCheck::Retrieve { searched, .. }, LicenseCheckEvent::NotRetrieved(error)) => {
                // the API really doesn't expect to be passed invalid license IDs, so it takes a closer look to
                // figure out what exactly went wrong
                if !searched && (error.looks_like_403() || error.looks_like_404()) {
                    LicenseCheck::Checked(None)
                } else {
                    LicenseCheck::Failed(error)
                }
            }
            (LicenseCheck::NameVersion { license_info }, LicenseCheckEvent::Product(product)) => LicenseCheck::Checked(
                Some(license_info.add_product_version_name(product.versions.as_slice())),
            ),
            (check, _) => check,
        }
    }
}

/// Accept a list of license activations, unless it is as long as a page may be: it is possible then that some
/// activations are missing from it. The nonce is to find the log entry by.
pub fn accept_license_activations(list: LicenseActivationList, nonce: u64) -> (r: JinxxyResult<
    Vec<LicenseActivation>,
>)
    ensures
        list.results@.len() == PAGINATION_LIMIT ==> r == JinxxyResult::<Vec<LicenseActivation>>::Err(
            JinxxyError::UnsupportedPagination(nonce),
        ),
        list.results@.len() != PAGINATION_LIMIT ==> r == JinxxyResult::<Vec<LicenseActivation>>::Ok(list.results),
{
    if list.len() == PAGINATION_LIMIT {
        Err(JinxxyError::UnsupportedPagination(nonce))
    } else {
        Ok(list.results)
    }
}

/// What follows from an attempt to delete a license activation, given the error if there was one. Returns `true` if
/// the activation was deleted, or `false` if it was not found.
pub fn license_activation_deleted(error: Option<JinxxyError>) -> (r: JinxxyResult<bool>)
    ensures
        r == (match error {
            None => JinxxyResult::<bool>::Ok(true),
            Some(error) => if error.error_response() matches Some(response) && response.is_404() {
                JinxxyResult::<bool>::Ok(false)
            } else {
                JinxxyResult::<bool>::Err(error)
            },
        }),
{
    match error {
        None => Ok(true),
        Some(error) => if error.looks_like_404() {
            Ok(false)
        } else {
            Err(error)
        },
    }
}

/// Whether a response says that a product has not changed: only a request with a tag can be answered so.
pub fn is_not_modified(has_expected_etag: bool, status_code: u16) -> (r: bool)
    ensures
        r <==> has_expected_etag && status_code == 304,
{
    has_expected_etag && status_code == 304
}

/// The list of all products, as far as its pages have been read
#[derive(Debug)]
pub struct ProductPages {
    pub products: Vec<PartialProduct>,
    /// The page to read next
    pub page_number: u32,
    /// Whether the last page has been read
    pub finished: bool,
}

impl ProductPages {
    /// There is always a next page as long as the list is not finished.
    pub open spec fn wf(self) -> bool {
        1 <= self.page_number <= HARD_PAGE_LIMIT
    }

    pub fn new() -> (r: ProductPages)
        ensures
            r.wf(),
            r.products@.len() == 0,
            r.page_number == 1,
            !r.finished,
    {
        ProductPages { products: Vec::new(), page_number: 1, finished: false }
    }

    /// Add a page to the list. A page that is not full is the last one, and so is one behind which something
    /// is probably wrong.
    pub fn add_page(&mut self, page: Vec<PartialProduct>)
        requires
            old(self).wf(),
            !old(self).finished,
        ensures
            final(self).wf(),
            final(self).products@ == old(self).products@ + page@,
            final(self).finished <==> page@.len() < PAGINATION_LIMIT || old(self).page_number == HARD_PAGE_LIMIT,
            !final(self).finished ==> final(self).page_number == old(self).page_number + 1,
    {
        let page_len: usize = page.len();
        let mut page = page;
        self.products.append(&mut page);
        if page_len < PAGINATION_LIMIT || self.page_number >= HARD_PAGE_LIMIT {
            self.finished = true;
        } else {
            self.page_number = self.page_number + 1;
        }
    }
}

/// The last of the products in the database with an ID.
pub open spec fn known_product(products: Seq<ProductNameInfo>, product_id: Seq<char>) -> Option<ProductNameInfo>
    decreases products.len(),
{
    if products.len() == 0 {
        None
    } else if products.last().id@ == product_id {
        Some(products.last())
    } else {
        known_product(products.drop_last(), product_id)
    }
}

/// Find a product in the database
pub fn find_known_product<'a>(products: &'a [ProductNameInfo], product_id: &String) -> (r: Option<&'a ProductNameInfo>)
    ensures
        r is Some <==> known_product(products@, product_id@) is Some,
        r matches Some(product) ==> known_product(products@, product_id@) == Some(*product),
{
    let mut i: usize = products.len();
    proof {
        assert(products@.take(i as int) =~= products@);
    }
    while i > 0
        invariant
            i <= products@.len(),
            known_product(products@, product_id@) == known_product(products@.take(i as int), product_id@),
        decreases i,
    {
        proof {
            assert(products@.take(i as int).drop_last() =~= products@.take(i - 1));
            assert(products@.take(i as int).last() == products@[i - 1]);
        }
        if products[i - 1].id == *product_id {
            return Some(&products[i - 1]);
        }
        i = i - 1;
    }
    None
}

/// The tag to ask for a product with, if it is in the database with one. Whatever was fetched without a tag cannot
/// be unchanged.
pub fn expected_etag<'a>(products: &'a [ProductNameInfo], product_id: &String) -> (r: Option<&'a Vec<u8>>)
    ensures
        r == (match known_product(products@, product_id@) {
            Some(product) => match product.value.etag {
                Some(etag) => Some(&etag),
                None => None,
            },
            None => None,
        }),
{
    match find_known_product(products, product_id) {
        Some(product) => match &product.value.etag {
            Some(etag) => Some(etag),
            None => None,
        },
        None => None,
    }
}

/// The result of asking for a product: the product if it was sent, or else what the database knows of it. It
/// cannot be unchanged if the database knows nothing of it.
pub fn loaded_product(
    product_id: String,
    fetched: Option<FullProduct>,
    products: &[ProductNameInfo],
    versions: Vec<ProductVersionNameInfo>,
) -> (r: JinxxyResult<LoadedProduct>)
    ensures
        fetched matches Some(product) ==> r == JinxxyResult::<LoadedProduct>::Ok(LoadedProduct::Api(product)),
        fetched is None && known_product(products@, product_id@) is None ==> r == JinxxyResult::<LoadedProduct>::Err(
            JinxxyError::Impossible304,
        ),
        fetched is None && known_product(products@, product_id@) is Some ==> (r matches Ok(loaded)
            && loaded matches LoadedProduct::Cached { product_info, versions: v } && v == versions && product_info.id
            == product_id && product_info.value.product_name == known_product(
            products@,
            product_id@,
        )->0.value.product_name && etag_of(product_info) == etag_of(known_product(products@, product_id@)->0)),
{
    match fetched {
        Some(product) => Ok(LoadedProduct::Api(product)),
        None => match find_known_product(products, &product_id) {
            None => Err(JinxxyError::Impossible304),
            Some(known) => {
                let etag = match &known.value.etag {
                    Some(etag) => {
                        let copy = copy_bytes(etag);
                        Some(copy)
                    }
                    None => None,
                };
                Ok(
                    LoadedProduct::Cached {
                        product_info: ProductNameInfo {
                            id: product_id,
                            value: ProductNameInfoValue { product_name: known.value.product_name.clone(), etag },
                        },
                        versions,
                    },
                )
            }
        },
    }
}

/// The content of a product's tag.
pub open spec fn etag_of(product: ProductNameInfo) -> Option<Seq<u8>> {
    match product.value.etag {
        Some(etag) => Some(etag@),
        None => None,
    }
}

fn copy_bytes(bytes: &Vec<u8>) -> (r: Vec<u8>)
    ensures
        r@ == bytes@,
{
    let mut copy: Vec<u8> = Vec::new();
    for i in 0..bytes.len()
        invariant
            copy@ == bytes@.take(i as int),
    {
        proof {
            assert(bytes@.take(i + 1) =~= bytes@.take(i as int).push(bytes@[i as int]));
        }
        copy.push(bytes[i]);
    }
    proof {
        assert(bytes@.take(bytes@.len() as int) =~= bytes@);
    }
    copy
}

} // verus!
