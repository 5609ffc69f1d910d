//! Jinxxy API requests and response objects

pub mod api;
mod dto;
mod error;

use crate::text::{ends_with_char, upper_hex_char};
pub use dto::{
    activation_description, activation_round_trip, has_scope, activation_user_id, activation_user_ids, lock_description_is_a_lock,
    AuthUser, CreateLicenseActivation, FullProduct, License, LicenseActivation, LicenseActivationList,
    LicenseActivations, LicenseInventoryItem, LicenseInventoryItemItem, LicenseList, LicenseListResult, LicenseUser,
    OrderInfo, PartialProduct, ProductList, ProductVersion, ProfileImage,
};
pub use error::{
    error_body, jinxxy_error_text, JinxxyError, JinxxyErrorMessage, JinxxyErrorMultiMessagePart, JinxxyErrorResponse, HttpBody, HttpResponse,
    JinxxyResult,
};
use vstd::prelude::*;
use vstd::utf8::encode_utf8;

verus! {

/// prefix used in activation descriptions
pub const DISCORD_PREFIX: &'static str = "discord_";

/// Represents all allowed license formats
#[derive(Debug, Clone, Copy)]
pub enum LicenseKey<'a> {
    Id(&'a str),
    Short(&'a str),
    Long(&'a str),
}

/// What a [`LicenseKey`] stands for.
pub enum LicenseKeyView {
    Id(Seq<char>),
    Short(Seq<char>),
    Long(Seq<char>),
}

impl<'a> View for LicenseKey<'a> {
    type V = LicenseKeyView;

    open spec fn view(&self) -> LicenseKeyView {
        match *self {
            LicenseKey::Id(id) => LicenseKeyView::Id(id@),
            LicenseKey::Short(key) => LicenseKeyView::Short(key@),
            LicenseKey::Long(key) => LicenseKeyView::Long(key@),
        }
    }
}

/// Either an API full product or cached data from DB we've determined is non-stale
#[derive(Debug)]
pub enum LoadedProduct {
    Api(FullProduct),
    Cached {
        product_info: ProductNameInfo,
        versions: Vec<ProductVersionNameInfo>,
    },
}

/// Not part of the Jinxxy API: this is only used for `/create_post`
#[derive(Debug, Clone)]
pub struct DisplayUser {
    /// Custom display name, or username if no display name is set.
    pub display_name: String,
    pub profile_image_url: Option<String>,
}

/// The possessive form of a name.
pub open spec fn possessive(name: Seq<char>) -> Seq<char> {
    if name.len() > 0 && name.last() == 's' {
        name + "'"@
    } else {
        name + "'s"@
    }
}

impl DisplayUser {
    /// Get possessive form of this user's display name
    pub fn name_possessive(&self) -> (r: String)
        ensures
            r@ == possessive(self.display_name@),
    {
        if ends_with_char(self.display_name.as_str(), 's') {
            self.display_name.clone().concat("'")
        } else {
            self.display_name.clone().concat("'s")
        }
    }
}

impl GetProfileImageUrl for DisplayUser {
    open spec fn shown_profile_image_url(&self) -> Option<Seq<char>> {
        match self.profile_image_url {
            Some(url) => Some(url@),
            None => None,
        }
    }

    fn profile_image_url(&self) -> (r: Option<&str>) {
        match &self.profile_image_url {
            Some(url) => Some(url.as_str()),
            None => None,
        }
    }
}

/// Not part of the Jinxxy API: what the bot wants to know of a license
#[derive(Debug)]
pub struct LicenseInfo {
    pub license_id: String,
    /// short key
    pub short_key: String,
    /// long key
    pub key: String,
    pub user_id: String,
    /// Account's username; used in profile URL
    pub username: Option<String>,
    pub product_id: String,
    pub product_name: String,
    pub product_version_info: Option<ProductVersionInfo>,
    pub order_id: Option<String>,
    pub activations: u32,
}

#[derive(Debug)]
pub struct ProductVersionInfo {
    pub product_version_id: String,
    pub product_version_name: String,
}

impl LicenseInfo {
    /// The version that this license is for, if it is for one.
    pub open spec fn spec_version_id(&self) -> Option<String> {
        match self.product_version_info {
            Some(info) => Some(info.product_version_id),
            None => None,
        }
    }

    /// The product, and the version of it, that this license is for.
    pub open spec fn spec_product_version_id(&self) -> ProductVersionId {
        ProductVersionId { product_id: self.product_id, product_version_id: self.spec_version_id() }
    }

    /// Whether this is what the bot wants to know of a license. The name of its version is not part of that.
    pub open spec fn describes(self, license: License) -> bool {
        &&& self.license_id == license.id
        &&& self.short_key == license.short_key
        &&& self.key == license.key
        &&& self.user_id == license.user.id
        &&& self.username == license.user.username
        &&& self.product_id == license.inventory_item.target_id
        &&& self.product_name == license.inventory_item.item.name
        &&& self.spec_version_id() == license.inventory_item.target_version_id
        &&& self.product_version_info matches Some(info) ==> info.product_version_name@.len() == 0
        &&& license.inventory_item.order matches Some(order) ==> self.order_id == Some(order.id)
        &&& license.inventory_item.order is None ==> self.order_id is None
        &&& self.activations == license.activations.total_count
    }

    /// This license, with the name of its version as far as it is among the given versions.
    pub open spec fn with_version_name(self, versions: Seq<ProductVersion>) -> LicenseInfo {
        match self.product_version_info {
            Some(info) => LicenseInfo {
                product_version_info: Some(
                    ProductVersionInfo {
                        product_version_id: info.product_version_id,
                        product_version_name: match named_version(versions, info.product_version_id@) {
                            Some(name) => name,
                            None => info.product_version_name,
                        },
                    },
                ),
                ..self
            },
            None => self,
        }
    }

    /// Collects what the bot wants to know of a license. The name of its version is not part of the
    /// API response, and is empty until [`LicenseInfo::add_product_version_name`] fills it in.
    pub fn from_license(license: License) -> (r: LicenseInfo)
        ensures
            r.describes(license),
    {
        let product_version_info = match license.inventory_item.target_version_id {
            Some(version_id) => Some(
                ProductVersionInfo { product_version_id: version_id, product_version_name: String::new() },
            ),
            None => None,
        };
        let order_id = match license.inventory_item.order {
            Some(order) => Some(order.id),
            None => None,
        };
        LicenseInfo {
            license_id: license.id,
            short_key: license.short_key,
            key: license.key,
            user_id: license.user.id,
            username: license.user.username,
            product_id: license.inventory_item.target_id,
            product_name: license.inventory_item.item.name,
            product_version_info,
            order_id,
            activations: license.activations.total_count,
        }
    }

    /// Fills in the name of the version out of the versions of the product: the name of the first
    /// version with the right ID. Without one nothing changes.
    pub fn add_product_version_name(self, versions: &[ProductVersion]) -> (r: LicenseInfo)
        ensures
            r == self.with_version_name(versions@),
    {
        let mut license_info = self;
        if let Some(info) = license_info.product_version_info {
            let mut product_version_name = info.product_version_name;
            let mut i: usize = 0;
            let mut found = false;
            while i < versions.len() && !found
                invariant
                    i <= versions@.len(),
                    self.product_version_info is Some,
                    info.product_version_id == self.product_version_info->0.product_version_id,
                    !found ==> product_version_name == self.product_version_info->0.product_version_name
                        && named_version(versions@.take(i as int), info.product_version_id@) is None,
                    found ==> i > 0 && named_version(versions@.take(i as int), info.product_version_id@) == Some(
                        product_version_name,
                    ),
                decreases versions@.len() - i,
            {
                proof {
                    assert(versions@.take(i + 1).drop_last() =~= versions@.take(i as int));
                }
                if versions[i].id == info.product_version_id {
                    product_version_name = versions[i].name.clone();
                    found = true;
                }
                i = i + 1;
            }
            proof {
                named_version_is_first(versions@, i as int, info.product_version_id@);
                assert(!found ==> versions@.take(i as int) =~= versions@);
            }
            license_info.product_version_info =
            Some(ProductVersionInfo { product_version_id: info.product_version_id, product_version_name });
        }
        license_info
    }

    /// create a new ProductVersionId by cloning fields
    pub fn new_product_version_id(&self) -> (r: ProductVersionId)
        ensures
            r == self.spec_product_version_id(),
    {
        let product_version_id = match &self.product_version_info {
            Some(info) => Some(info.product_version_id.clone()),
            None => None,
        };
        ProductVersionId { product_id: self.product_id.clone(), product_version_id }
    }

    /// get a reference to the product version ID, if it exists
    pub fn version_id(&self) -> (r: Option<&str>)
        ensures
            r is Some <==> self.spec_version_id() is Some,
            r matches Some(version_id) ==> version_id@ == self.spec_version_id()->0@,
    {
        match &self.product_version_info {
            Some(info) => Some(info.product_version_id.as_str()),
            None => None,
        }
    }
}

/// The name of the first version with the given ID.
pub open spec fn named_version(versions: Seq<ProductVersion>, version_id: Seq<char>) -> Option<String>
    decreases versions.len(),
{
    if versions.len() == 0 {
        None
    } else {
        match named_version(versions.drop_last(), version_id) {
            Some(name) => Some(name),
            None => if versions.last().id@ == version_id {
                Some(versions.last().name)
            } else {
                None
            },
        }
    }
}

/// A version that is found among the first `count` versions is the one that is found among all of them.
proof fn named_version_is_first(versions: Seq<ProductVersion>, count: int, version_id: Seq<char>)
    requires
        0 <= count <= versions.len(),
    ensures
        named_version(versions.take(count), version_id) is Some ==> named_version(versions, version_id)
            == named_version(versions.take(count), version_id),
    decreases versions.len(),
{
    if count < versions.len() {
        named_version_is_first(versions.drop_last(), count, version_id);
        assert(versions.drop_last().take(count) =~= versions.take(count));
    } else {
        assert(versions.take(count) =~= versions);
    }
}

/// Not part of the Jinxxy API: a product, and possibly one version of it
#[derive(Debug, Clone, Eq, PartialEq, Hash)]
pub struct ProductVersionId {
    pub product_id: String,
    pub product_version_id: Option<String>,
}

/// What a [`ProductVersionId`] stands for.
pub struct ProductVersionIdView {
    pub product_id: Seq<char>,
    pub product_version_id: Option<Seq<char>>,
}

impl View for ProductVersionId {
    type V = ProductVersionIdView;

    open spec fn view(&self) -> ProductVersionIdView {
        ProductVersionIdView {
            product_id: self.product_id@,
            product_version_id: match self.product_version_id {
                Some(id) => Some(id@),
                None => None,
            },
        }
    }
}

/// How a product version is shown when its name is not known.
pub open spec fn product_version_text(id: ProductVersionIdView) -> Seq<char> {
    match id.product_version_id {
        Some(version_id) => id.product_id + "."@ + version_id,
        None => id.product_id + ".null"@,
    }
}

impl ProductVersionId {
    pub fn from_product_id(product_id: &str) -> (r: ProductVersionId)
        ensures
            r@ == (ProductVersionIdView { product_id: product_id@, product_version_id: None }),
    {
        ProductVersionId { product_id: product_id.to_owned(), product_version_id: None }
    }

    /// How this product version is shown when its name is not known.
    pub fn describe(&self) -> (r: String)
        ensures
            r@ == product_version_text(self@),
    {
        match &self.product_version_id {
            Some(version_id) => self.product_id.clone().concat(".").concat(version_id.as_str()),
            None => self.product_id.clone().concat(".null"),
        }
    }

    /// A copy of this product version.
    pub fn copied(&self) -> (r: ProductVersionId)
        ensures
            r == *self,
    {
        let product_version_id = match &self.product_version_id {
            Some(id) => Some(id.clone()),
            None => None,
        };
        ProductVersionId { product_id: self.product_id.clone(), product_version_id }
    }

    /// Whether two product versions are the same.
    pub fn same(&self, other: &ProductVersionId) -> (r: bool)
        ensures
            r == (self@ == other@),
    {
        if self.product_id != other.product_id {
            return false;
        }
        match (&self.product_version_id, &other.product_version_id) {
            (Some(a), Some(b)) => *a == *b,
            (None, None) => true,
            _ => false,
        }
    }
}

/// Name info of a product
#[derive(Debug, Clone)]
pub struct ProductNameInfo {
    pub id: String,
    pub value: ProductNameInfoValue,
}

#[derive(Debug, Clone)]
pub struct ProductNameInfoValue {
    pub product_name: String,
    pub etag: Option<Vec<u8>>,
}

/// Name info of a product version
#[derive(Debug, Clone)]
pub struct ProductVersionNameInfo {
    pub id: ProductVersionId,
    pub product_version_name: String,
}

/// Something that may have a Jinxxy username
pub trait GetUsername {
    /// The username
    spec fn shown_username(&self) -> Option<Seq<char>>;

    fn username(&self) -> (r: Option<&str>)
        ensures
            r is Some <==> self.shown_username() is Some,
            r matches Some(username) ==> self.shown_username() == Some(username@),
    ;
}

impl GetUsername for LicenseInfo {
    open spec fn shown_username(&self) -> Option<Seq<char>> {
        match self.username {
            Some(username) => Some(username@),
            None => None,
        }
    }

    fn username(&self) -> (r: Option<&str>) {
        match &self.username {
            Some(username) => Some(username.as_str()),
            None => None,
        }
    }
}

/// Something that may have a profile on Jinxxy
pub trait GetProfileUrl {
    /// The URL of the profile
    spec fn shown_profile_url(&self) -> Option<Seq<char>>;

    fn profile_url(&self) -> (r: Option<String>)
        ensures
            r is Some <==> self.shown_profile_url() is Some,
            r matches Some(url) ==> self.shown_profile_url() == Some(url@),
    ;
}

impl<T: GetUsername> GetProfileUrl for T {
    open spec fn shown_profile_url(&self) -> Option<Seq<char>> {
        match self.shown_username() {
            Some(username) => Some(profile_url_of(username)),
            None => None,
        }
    }

    fn profile_url(&self) -> (r: Option<String>) {
        match self.username() {
            Some(username) => Some(
                "https://jinxxy.com/".to_owned().concat(percent_encode(username).as_str()),
            ),
            None => None,
        }
    }
}

/// The URL of the profile of a Jinxxy user.
pub open spec fn profile_url_of(username: Seq<char>) -> Seq<char> {
    "https://jinxxy.com/"@ + percent_encoded(encode_utf8(username))
}

/// Something that may have a profile picture
pub trait GetProfileImageUrl {
    /// The URL of the picture
    spec fn shown_profile_image_url(&self) -> Option<Seq<char>>;

    fn profile_image_url(&self) -> (r: Option<&str>)
        ensures
            r is Some <==> self.shown_profile_image_url() is Some,
            r matches Some(url) ==> self.shown_profile_image_url() == Some(url@),
    ;
}

pub open spec fn is_ascii_alphanumeric(b: u8) -> bool {
    (48 <= b <= 57) || (65 <= b <= 90) || (97 <= b <= 122)
}

/// Bytes as text, in which each byte that is not an ASCII letter or digit is a percent sign and its
/// two hexadecimal digits.
pub open spec fn percent_encoded(bytes: Seq<u8>) -> Seq<char>
    decreases bytes.len(),
{
    if bytes.len() == 0 {
        Seq::empty()
    } else {
        let b = bytes.last();
        if is_ascii_alphanumeric(b) {
            percent_encoded(bytes.drop_last()).push(b as char)
        } else {
            percent_encoded(bytes.drop_last()).push('%').push(upper_hex_char(b as nat / 16)).push(
                upper_hex_char(b as nat % 16),
            )
        }
    }
}

/// Encodes a text with `percent_encoding::utf8_percent_encode` and its set `NON_ALPHANUMERIC`: of the
/// bytes of the text's UTF-8 form, all but ASCII letters and digits are encoded.
#[verifier::external_body]
fn percent_encode(text: &str) -> (r: String)
    ensures
        r@ == percent_encoded(encode_utf8(text@)),
{
    percent_encoding::utf8_percent_encode(text, percent_encoding::NON_ALPHANUMERIC).to_string()
}

} // verus!
