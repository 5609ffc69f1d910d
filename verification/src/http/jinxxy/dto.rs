//! Objects of the Jinxxy API

use super::{DisplayUser, GetProfileImageUrl, GetUsername};
use crate::license::LOCKING_USER_ID;
use crate::pattern::{regex_first_capture, ACTIVATION_DESCRIPTION_PATTERN};
use crate::text::{
    decimal, decimal_round_trip, digits_value, is_digits, parse_u64, str_equals, trim, trimmed, u64_to_string,
};
use vstd::prelude::*;

verus! {

/// A point in time of the `jiff` crate. It is only ever carried from an API response to the database.
#[verifier::external_type_specification]
#[verifier::external_body]
pub struct ExTimestamp(jiff::Timestamp);

#[derive(Debug)]
pub struct LicenseList {
    pub results: Vec<LicenseListResult>,
}

impl LicenseList {
    /// The ID of the license that a search has found: the first one of the list.
    pub fn into_license_id(self) -> (r: Option<String>)
        ensures
            r == (if self.results@.len() > 0 {
                Some(self.results@[0].id)
            } else {
                None
            }),
    {
        if self.results.len() > 0 {
            Some(self.results[0].id.clone())
        } else {
            None
        }
    }
}

#[derive(Debug)]
pub struct LicenseListResult {
    /// License ID
    pub id: String,
}

#[derive(Debug)]
pub struct License {
    /// ID of this license
    pub id: String,
    /// Short key
    pub short_key: String,
    /// Long key
    pub key: String,
    pub user: LicenseUser,
    pub inventory_item: LicenseInventoryItem,
    pub activations: LicenseActivations,
}

#[derive(Debug)]
pub struct OrderInfo {
    pub id: String,
    pub payment_status: String,
}

#[derive(Debug)]
pub struct LicenseUser {
    /// User ID
    pub id: String,
    /// Account's username; used in profile URL
    pub username: Option<String>,
}

#[derive(Debug)]
pub struct LicenseInventoryItem {
    /// Product ID
    pub target_id: String,
    /// Product version ID. None if the item did not have an associated version.
    pub target_version_id: Option<String>,
    /// More product metadata
    pub item: LicenseInventoryItemItem,
    /// Order metadata
    pub order: Option<OrderInfo>,
}

#[derive(Debug)]
pub struct LicenseInventoryItemItem {
    /// Product Name
    pub name: String,
}

#[derive(Debug)]
pub struct LicenseActivations {
    pub total_count: u32,
}

#[derive(Debug)]
pub struct ProfileImage {
    pub url: String,
}

#[derive(Debug)]
pub struct AuthUser {
    /// Unique userid
    pub id: String,
    /// A custom display name. It can be null or empty (and often is).
    pub name: Option<String>,
    /// Account's username; used in profile URL. Ought to be set for all sellers.
    pub username: Option<String>,
    pub profile_image: Option<ProfileImage>,
    /// API scopes
    pub scopes: Vec<String>,
}

/// Whether a scope is among the scopes of an API key.
pub open spec fn has_scope(scopes: Seq<String>, scope: Seq<char>) -> bool {
    exists|i: int| 0 <= i < scopes.len() && #[trigger] scopes[i]@ == scope
}

impl AuthUser {
    /// The display name, or the username where the display name is blank.
    pub open spec fn shown_name(self) -> Seq<char> {
        if self.name is Some && trimmed(self.name->0@).len() > 0 {
            self.name->0@
        } else if self.username is Some {
            self.username->0@
        } else {
            "`null`"@
        }
    }

    pub fn as_display_name(&self) -> (r: &str)
        ensures
            r@ == self.shown_name(),
    {
        if let Some(name) = &self.name {
            if !trim(name.as_str()).is_empty() {
                return name.as_str();
            }
        }
        match &self.username {
            Some(username) => username.as_str(),
            None => "`null`",
        }
    }

    /// Check if this API key has all the required scopes
    pub fn has_required_scopes(&self) -> (r: bool)
        ensures
            r <==> (has_scope(self.scopes@, "licenses_read"@) && has_scope(self.scopes@, "licenses_write"@)
                && has_scope(self.scopes@, "products_read"@)),
    {
        self.contains_scope("licenses_read") && self.contains_scope("licenses_write") && self.contains_scope(
            "products_read",
        )
    }

    /// Check if this API key has a scope
    fn contains_scope(&self, scope: &str) -> (r: bool)
        ensures
            r == has_scope(self.scopes@, scope@),
    {
        for i in 0..self.scopes.len()
            invariant
                forall|j: int| 0 <= j < i ==> #[trigger] self.scopes@[j]@ != scope@,
        {
            if str_equals(self.scopes[i].as_str(), scope) {
                return true;
            }
        }
        false
    }

    /// What is shown of this user
    pub fn to_display_user(&self) -> (r: DisplayUser)
        ensures
            r.display_name@ == self.shown_name(),
            r.shown_profile_image_url() == self.shown_profile_image_url(),
    {
        let profile_image_url = match self.profile_image_url() {
            Some(url) => Some(url.to_owned()),
            None => None,
        };
        DisplayUser { display_name: self.as_display_name().to_owned(), profile_image_url }
    }
}

impl GetUsername for AuthUser {
    open spec fn shown_username(&self) -> Option<Seq<char>> {
        match self.username {
            Some(username) => Some(username@),
            None => None,
        }
    }

    fn username(&self) -> (r: Option<&str>) {
        match &self.username {
            Some(username) => Some(username.as_str()),
            None => None,
        }
    }
}

impl GetProfileImageUrl for AuthUser {
    /// The URL of the profile image, unless it is empty.
    open spec fn shown_profile_image_url(&self) -> Option<Seq<char>> {
        match self.profile_image {
            Some(image) => if image.url@.len() > 0 {
                Some(image.url@)
            } else {
                None
            },
            None => None,
        }
    }

    fn profile_image_url(&self) -> (r: Option<&str>) {
        match &self.profile_image {
            Some(image) => if image.url.as_str().is_empty() {
                None
            } else {
                Some(image.url.as_str())
            },
            None => None,
        }
    }
}

/// A product as it is listed
#[derive(Debug)]
pub struct PartialProduct {
    /// Product ID
    pub id: String,
    /// Product Name
    pub name: String,
    /// All versions of this product
    pub versions: Vec<ProductVersion>,
}

/// A product as it is described by itself, and the tag under which the API remembers this state of it
#[derive(Debug)]
pub struct FullProduct {
    /// Product ID
    pub id: String,
    /// Product name
    pub name: String,
    /// All versions of this product
    pub versions: Vec<ProductVersion>,
    pub etag: Option<Vec<u8>>,
}

impl From<FullProduct> for PartialProduct {
    fn from(product: FullProduct) -> (r: PartialProduct) {
        PartialProduct { id: product.id, name: product.name, versions: product.versions }
    }
}

impl vstd::std_specs::convert::FromSpecImpl<FullProduct> for PartialProduct {
    open spec fn obeys_from_spec() -> bool {
        true
    }

    open spec fn from_spec(product: FullProduct) -> PartialProduct {
        PartialProduct { id: product.id, name: product.name, versions: product.versions }
    }
}

#[derive(Debug)]
pub struct ProductVersion {
    /// Product version ID
    pub id: String,
    /// Product version name
    pub name: String,
}

#[derive(Debug)]
pub struct ProductList {
    pub results: Vec<PartialProduct>,
}

impl ProductList {
    pub fn products(self) -> (r: Vec<PartialProduct>)
        ensures
            r == self.results,
    {
        self.results
    }
}

#[derive(Debug)]
pub struct LicenseActivationList {
    pub results: Vec<LicenseActivation>,
}

impl LicenseActivationList {
    pub fn len(&self) -> (r: usize)
        ensures
            r == self.results@.len(),
    {
        self.results.len()
    }
}

/// An activation of a license
#[derive(Debug)]
pub struct LicenseActivation {
    /// ID of this license activation
    pub id: String,
    /// Custom description describing what this activation is for.
    pub description: String,
    /// Time this activation was created
    pub created_at: jiff::Timestamp,
}

/// The description of an activation for a Discord user.
pub open spec fn activation_description(user_id: u64) -> Seq<char> {
    "discord_"@ + decimal(user_id as nat)
}

/// The Discord user that a description of an activation names, if it names one: the prefix,
/// and then the user ID in decimal digits.
pub open spec fn activation_user_id(description: Seq<char>) -> Option<u64> {
    let prefix = "discord_"@;
    let digits = description.skip(prefix.len() as int);
    if prefix.is_prefix_of(description) && is_digits(digits) && digits_value(digits) <= u64::MAX {
        Some(digits_value(digits) as u64)
    } else {
        None
    }
}

/// An activation that was made for a user names that user.
pub proof fn activation_round_trip(user_id: u64)
    ensures
        activation_user_id(activation_description(user_id)) == Some(user_id),
{
    let prefix = "discord_"@;
    let digits = decimal(user_id as nat);
    decimal_round_trip(user_id as nat);
    assert(activation_description(user_id).skip(prefix.len() as int) =~= digits);
    assert(prefix.is_prefix_of(activation_description(user_id)));
}

/// The description that stands for a lock is the one of an activation for the locking user.
pub proof fn lock_description_is_a_lock()
    ensures
        "discord_0"@ == activation_description(LOCKING_USER_ID),
        activation_user_id("discord_0"@) == Some(LOCKING_USER_ID),
{
    activation_round_trip(LOCKING_USER_ID);
    reveal_strlit("discord_0");
    reveal_strlit("discord_");
    assert("discord_0"@ =~= activation_description(LOCKING_USER_ID));
}

/// The Discord users that the activations of a license name, in order.
pub open spec fn activation_user_ids(activations: Seq<LicenseActivation>) -> Seq<u64>
    decreases activations.len(),
{
    if activations.len() == 0 {
        Seq::empty()
    } else {
        match activation_user_id(activations.last().description@) {
            Some(user_id) => activation_user_ids(activations.drop_last()).push(user_id),
            None => activation_user_ids(activations.drop_last()),
        }
    }
}

impl LicenseActivation {
    /// Try to extract a Discord user ID from this license activation
    pub fn try_into_user_id(&self) -> (r: Option<u64>)
        ensures
            r == activation_user_id(self.description@),
    {
        let captured = regex_first_capture(ACTIVATION_DESCRIPTION_PATTERN, self.description.as_str());
        let ghost prefix = "discord_"@;
        let ghost rest = self.description@.skip(prefix.len() as int);
        match captured {
            Some(digits) => {
                proof {
                    assert(rest =~= digits@);
                    assert(digits@[0] != '+');
                }
                match parse_u64(digits.as_str()) {
                    Ok(user_id) => Some(user_id),
                    Err(_) => None,
                }
            }
            None => {
                proof {
                    if prefix.is_prefix_of(self.description@) && is_digits(rest) {
                        assert(self.description@ =~= prefix + rest);
                    }
                }
                None
            }
        }
    }

    /// Check if this activation is a lock
    pub fn is_lock(&self) -> (r: bool)
        ensures
            r <==> activation_user_id(self.description@) == Some(LOCKING_USER_ID),
    {
        match self.try_into_user_id() {
            Some(user_id) => user_id == LOCKING_USER_ID,
            None => false,
        }
    }

    /// The Discord users that the activations of a license name, in order.
    pub fn user_ids(activations: &[LicenseActivation]) -> (r: Vec<u64>)
        ensures
            r@ == activation_user_ids(activations@),
    {
        let mut user_ids: Vec<u64> = Vec::new();
        for i in 0..activations.len()
            invariant
                user_ids@ == activation_user_ids(activations@.take(i as int)),
        {
            proof {
                assert(activations@.take(i + 1).drop_last() =~= activations@.take(i as int));
                assert(activations@.take(i + 1).last() == activations@[i as int]);
            }
            if let Some(user_id) = activations[i].try_into_user_id() {
                user_ids.push(user_id);
            }
        }
        proof {
            assert(activations@.take(activations@.len() as int) =~= activations@);
        }
        user_ids
    }
}

/// A request to activate a license
#[derive(Debug)]
pub struct CreateLicenseActivation {
    /// Custom description describing what this activation is for.
    pub description: String,
}

impl CreateLicenseActivation {
    pub fn from_user_id(user_id: u64) -> (r: CreateLicenseActivation)
        ensures
            r.description@ == activation_description(user_id),
    {
        CreateLicenseActivation { description: super::DISCORD_PREFIX.to_owned().concat(u64_to_string(user_id).as_str()) }
    }
}

} // verus!
