//! Recognising license keys, and checking who has activated a license.

use crate::http::jinxxy::{activation_user_id, activation_user_ids, LicenseActivation, LicenseKey, LicenseKeyView};
use crate::pattern::{
    is_gumroad_key, is_jinxxy_long_key, is_jinxxy_short_key, is_number, is_payhip_key, regex_set_matches,
    GUMROAD_KEY_PATTERN, JINXXY_LONG_KEY_PATTERN, JINXXY_SHORT_KEY_PATTERN, NUMBER_PATTERN, PAYHIP_KEY_PATTERN,
};
use vstd::prelude::*;

verus! {

/// An activation by this user, which no Discord account has, locks a license.
pub const LOCKING_USER_ID: u64 = 0;

/// All known types of Jinxxy license, and some other known types of license that users are liable
/// to provide by mistake.
#[derive(Debug, Copy, Clone, PartialEq, Eq, Structural)]
pub enum LicenseType {
    JinxxyShort,
    JinxxyLong,
    Gumroad,
    Integer,
    Payhip,
    Unknown,
    /// More than one type. No text is of more than one of the types above, see [`license_types_are_disjoint`].
    Ambiguous,
}

impl LicenseType {
    /// If the license is either type of Jinxxy key (short or long)
    pub fn is_jinxxy_license(&self) -> (r: bool)
        ensures
            r <==> (*self is JinxxyShort || *self is JinxxyLong),
    {
        matches!(self, LicenseType::JinxxyShort | LicenseType::JinxxyLong)
    }

    /// If the license is any known type of license
    pub fn is_license(&self) -> (r: bool)
        ensures
            r <==> !(*self is Unknown),
    {
        !matches!(self, LicenseType::Unknown)
    }

    /// If the license is an integer. This indicates it *may* be a Jinxxy license ID.
    pub fn is_integer(&self) -> (r: bool)
        ensures
            r <==> *self is Integer,
    {
        matches!(self, LicenseType::Integer)
    }

    /// Create the correct type of Jinxxy license for the user-provided value.
    ///
    /// This function only returns short and long Jinxxy keys. It never creates IDs: they may show
    /// up in partially untrusted logs, so it must not be possible to register a license with one.
    pub fn create_untrusted_jinxxy_license<'a>(&self, license: &'a str) -> (r: Option<LicenseKey<'a>>)
        ensures
            r is Some <==> untrusted_license_key(*self, license@) is Some,
            r matches Some(key) ==> untrusted_license_key(*self, license@) == Some(key@),
    {
        match self {
            LicenseType::JinxxyLong => Some(LicenseKey::Long(license)),
            LicenseType::Integer => None,
            LicenseType::Gumroad => None,
            LicenseType::Payhip => None,
            // if we aren't certain what this is just try it as a short key
            _ => Some(LicenseKey::Short(license)),
        }
    }

    /// Create the correct type of Jinxxy license for the user-provided value.
    ///
    /// This function can return any type of Jinxxy key or ID.
    pub fn create_trusted_jinxxy_license<'a>(&self, license: &'a str) -> (r: Option<LicenseKey<'a>>)
        ensures
            r is Some <==> trusted_license_key(*self, license@) is Some,
            r matches Some(key) ==> trusted_license_key(*self, license@) == Some(key@),
    {
        match self {
            LicenseType::JinxxyLong => Some(LicenseKey::Long(license)),
            LicenseType::Integer => Some(LicenseKey::Id(license)),
            LicenseType::Gumroad => None,
            LicenseType::Payhip => None,
            // if we aren't certain what this is just try it as a short key
            _ => Some(LicenseKey::Short(license)),
        }
    }

    /// What a license of this type is called in a sentence.
    pub fn describe(&self) -> (r: String)
        ensures
            r@ == license_type_name(*self),
    {
        match self {
            LicenseType::JinxxyShort => "a Jinxxy short key".to_owned(),
            LicenseType::JinxxyLong => "a Jinxxy long key".to_owned(),
            LicenseType::Gumroad => "a Gumroad key".to_owned(),
            LicenseType::Integer => "a number".to_owned(),
            LicenseType::Payhip => "a Payhip key".to_owned(),
            LicenseType::Unknown => "an unknown value".to_owned(),
            LicenseType::Ambiguous => "an ambiguous value".to_owned(),
        }
    }
}

/// The name of a license type in a sentence.
pub open spec fn license_type_name(license_type: LicenseType) -> Seq<char> {
    match license_type {
        LicenseType::JinxxyShort => "a Jinxxy short key"@,
        LicenseType::JinxxyLong => "a Jinxxy long key"@,
        LicenseType::Gumroad => "a Gumroad key"@,
        LicenseType::Integer => "a number"@,
        LicenseType::Payhip => "a Payhip key"@,
        LicenseType::Unknown => "an unknown value"@,
        LicenseType::Ambiguous => "an ambiguous value"@,
    }
}

/// The key under which a text from anyone is looked up.
pub open spec fn untrusted_license_key(license_type: LicenseType, license: Seq<char>) -> Option<LicenseKeyView> {
    match license_type {
        LicenseType::JinxxyLong => Some(LicenseKeyView::Long(license)),
        LicenseType::Integer | LicenseType::Gumroad | LicenseType::Payhip => None,
        _ => Some(LicenseKeyView::Short(license)),
    }
}

/// The key under which a text from an administrator is looked up.
pub open spec fn trusted_license_key(license_type: LicenseType, license: Seq<char>) -> Option<LicenseKeyView> {
    if license_type is Integer {
        Some(LicenseKeyView::Id(license))
    } else {
        untrusted_license_key(license_type, license)
    }
}

/// The one type that a text is of.
pub open spec fn license_type_of(license: Seq<char>) -> LicenseType {
    if is_jinxxy_short_key(license) {
        LicenseType::JinxxyShort
    } else if is_jinxxy_long_key(license) {
        LicenseType::JinxxyLong
    } else if is_gumroad_key(license) {
        LicenseType::Gumroad
    } else if is_number(license) {
        LicenseType::Integer
    } else if is_payhip_key(license) {
        LicenseType::Payhip
    } else {
        LicenseType::Unknown
    }
}

/// How many of the known types a text is of.
pub open spec fn license_type_count(license: Seq<char>) -> int {
    (if is_jinxxy_short_key(license) { 1int } else { 0int })
        + (if is_jinxxy_long_key(license) { 1int } else { 0int })
        + (if is_gumroad_key(license) { 1int } else { 0int })
        + (if is_number(license) { 1int } else { 0int })
        + (if is_payhip_key(license) { 1int } else { 0int })
}

/// No text is of more than one known type of license, so none is ever ambiguous.
pub proof fn license_types_are_disjoint(license: Seq<char>)
    ensures
        license_type_count(license) <= 1,
{
    if is_number(license) {
        if license.len() > 8 {
            assert(crate::text::is_digit(license[4]));
            assert(crate::text::is_digit(license[5]));
            assert(crate::text::is_digit(license[8]));
        }
    }
}

/// An ID is never made out of what an untrusted user provided.
pub proof fn untrusted_license_is_never_an_id(license_type: LicenseType, license: Seq<char>)
    ensures
        untrusted_license_key(license_type, license) matches Some(key) ==> !(key is Id),
{
}

/// Attempt to figure out what flavor of license we've been provided
pub fn identify_license(license: &str) -> (r: LicenseType)
    ensures
        r == license_type_of(license@),
{
    let patterns: Vec<&str> = vec![
        JINXXY_SHORT_KEY_PATTERN,
        JINXXY_LONG_KEY_PATTERN,
        GUMROAD_KEY_PATTERN,
        NUMBER_PATTERN,
        PAYHIP_KEY_PATTERN,
    ];
    let matches = regex_set_matches(patterns.as_slice(), license);
    proof {
        license_types_are_disjoint(license@);
        assert(patterns@[0]@ == JINXXY_SHORT_KEY_PATTERN@);
        assert(patterns@[1]@ == JINXXY_LONG_KEY_PATTERN@);
        assert(patterns@[2]@ == GUMROAD_KEY_PATTERN@);
        assert(patterns@[3]@ == NUMBER_PATTERN@);
        assert(patterns@[4]@ == PAYHIP_KEY_PATTERN@);
        if matches@.len() > 0 {
            assert(matches@.contains(matches@[0]));
        }
        if matches@.len() > 1 {
            assert(matches@.contains(matches@[1]));
        }
    }
    if matches.len() > 1 {
        return LicenseType::Ambiguous;
    }
    if matches.len() == 0 {
        return LicenseType::Unknown;
    }
    match matches[0] {
        0 => LicenseType::JinxxyShort,
        1 => LicenseType::JinxxyLong,
        2 => LicenseType::Gumroad,
        3 => LicenseType::Integer,
        4 => LicenseType::Payhip,
        _ => LicenseType::Unknown,
    }
}

/// Results of an activation validation check
#[derive(Debug, Copy, Clone, PartialEq, Eq, Structural)]
pub struct ActivationValidation {
    /// If the expected user has activated the license
    pub own_user: bool,
    /// If the expected user has activated the license more than once
    pub multiple: bool,
    /// If some other user has activated the license
    pub other_user: bool,
    /// If the license is locked
    pub locked: bool,
}

impl ActivationValidation {
    /// If both the expected user and some other user have activated the license
    pub fn deadlocked(&self) -> (r: bool)
        ensures
            r == (self.own_user && self.other_user),
    {
        self.own_user && self.other_user
    }
}

impl Default for ActivationValidation {
    /// By default nothing gets set: this is what a license without any activations is like.
    fn default() -> (r: Self)
        ensures
            forall|expected_user_id: u64| r == #[trigger] validation(expected_user_id, Seq::empty()),
    {
        ActivationValidation { own_user: false, multiple: false, other_user: false, locked: false }
    }
}

/// What is known of a license from the users who have activated it.
pub open spec fn validation(expected_user_id: u64, user_ids: Seq<u64>) -> ActivationValidation {
    ActivationValidation {
        own_user: user_ids.contains(expected_user_id),
        multiple: exists|i: int, j: int|
            0 <= i < j < user_ids.len() && #[trigger] user_ids[i] == expected_user_id && #[trigger] user_ids[j]
                == expected_user_id,
        other_user: exists|i: int|
            0 <= i < user_ids.len() && #[trigger] user_ids[i] != expected_user_id && user_ids[i]
                != LOCKING_USER_ID,
        locked: expected_user_id != LOCKING_USER_ID && user_ids.contains(LOCKING_USER_ID),
    }
}

/// Whether a license may give its roles to a user: nobody else has activated it, and it is not locked.
pub open spec fn is_free_for(expected_user_id: u64, user_ids: Seq<u64>) -> bool {
    forall|i: int| 0 <= i < user_ids.len() ==> #[trigger] user_ids[i] == expected_user_id
}

/// The validation of a license finds neither another user nor a lock exactly when every
/// activation of it belongs to the expected user.
pub proof fn validation_is_clean_iff_free(expected_user_id: u64, user_ids: Seq<u64>)
    ensures
        ({
            let v = validation(expected_user_id, user_ids);
            !(v.other_user || v.locked) <==> is_free_for(expected_user_id, user_ids)
        }),
{
    let v = validation(expected_user_id, user_ids);
    if !(v.other_user || v.locked) {
        assert forall|i: int| 0 <= i < user_ids.len() implies #[trigger] user_ids[i] == expected_user_id by {
            if user_ids[i] == LOCKING_USER_ID {
                assert(user_ids.contains(LOCKING_USER_ID));
            }
        }
    }
}

/// A license that two different users have activated is free for neither of them, so it gives its
/// roles to neither.
pub proof fn license_shared_by_two_users_is_free_for_neither(user_a: u64, user_b: u64, user_ids: Seq<u64>)
    requires
        user_a != user_b,
        user_ids.contains(user_a),
        user_ids.contains(user_b),
    ensures
        !is_free_for(user_a, user_ids),
        !is_free_for(user_b, user_ids),
{
    let a = choose|i: int| 0 <= i < user_ids.len() && user_ids[i] == user_a;
    let b = choose|i: int| 0 <= i < user_ids.len() && user_ids[i] == user_b;
    assert(user_ids[a] == user_a);
    assert(user_ids[b] == user_b);
}

/// An activation that names a user is seen: the user is among those who have activated the license.
pub proof fn every_activator_is_seen(activations: Seq<LicenseActivation>, i: int, user_id: u64)
    requires
        0 <= i < activations.len(),
        activation_user_id(activations[i].description@) == Some(user_id),
    ensures
        activation_user_ids(activations).contains(user_id),
    decreases activations.len(),
{
    let init = activations.drop_last();
    let ids = activation_user_ids(activations);
    if i == activations.len() - 1 {
        assert(ids[ids.len() - 1] == user_id);
    } else {
        assert(init[i] == activations[i]);
        every_activator_is_seen(init, i, user_id);
        let before = activation_user_ids(init);
        let k = choose|k: int| 0 <= k < before.len() && before[k] == user_id;
        assert(ids[k] == user_id);
    }
}

/// Nobody else is seen: a user is only among those who have activated the license if an activation names the user.
pub proof fn only_activators_are_seen(activations: Seq<LicenseActivation>, user_id: u64)
    requires
        activation_user_ids(activations).contains(user_id),
    ensures
        exists|i: int|
            0 <= i < activations.len() && activation_user_id((#[trigger] activations[i]).description@) == Some(user_id),
    decreases activations.len(),
{
    let init = activations.drop_last();
    let before = activation_user_ids(init);
    let ids = activation_user_ids(activations);
    let k = choose|k: int| 0 <= k < ids.len() && ids[k] == user_id;
    if k < before.len() {
        assert(before[k] == user_id);
        only_activators_are_seen(init, user_id);
        let i = choose|i: int|
            0 <= i < init.len() && activation_user_id((#[trigger] init[i]).description@) == Some(user_id);
        assert(activations[i] == init[i]);
    } else {
        assert(activation_user_id(activations[activations.len() - 1].description@) == Some(user_id));
    }
}

/// A license is free for a user exactly when none of its activations names anybody else. So it is free for anybody
/// once all activations that name somebody have been deleted.
pub proof fn free_means_activated_by_nobody_else(activations: Seq<LicenseActivation>, user_id: u64)
    ensures
        is_free_for(user_id, activation_user_ids(activations)) <==> forall|i: int|
            0 <= i < activations.len() ==> (activation_user_id((#[trigger] activations[i]).description@) matches Some(
                id,
            ) ==> id == user_id),
{
    let ids = activation_user_ids(activations);
    if is_free_for(user_id, ids) {
        assert forall|i: int| 0 <= i < activations.len() implies (activation_user_id(
            (#[trigger] activations[i]).description@,
        ) matches Some(id) ==> id == user_id) by {
            if let Some(id) = activation_user_id(activations[i].description@) {
                every_activator_is_seen(activations, i, id);
                let k = choose|k: int| 0 <= k < ids.len() && ids[k] == id;
                assert(ids[k] == user_id);
            }
        }
    } else {
        let k = choose|k: int| 0 <= k < ids.len() && #[trigger] ids[k] != user_id;
        assert(ids.contains(ids[k]));
        only_activators_are_seen(activations, ids[k]);
        let i = choose|i: int|
            0 <= i < activations.len() && activation_user_id((#[trigger] activations[i]).description@) == Some(ids[k]);
        assert(activation_user_id(activations[i].description@) == Some(ids[k]));
    }
}

/// A license with a lock is free for nobody.
pub proof fn a_locked_license_is_free_for_nobody(activations: Seq<LicenseActivation>, i: int, user_id: u64)
    requires
        0 <= i < activations.len(),
        activation_user_id(activations[i].description@) == Some(LOCKING_USER_ID),
        user_id != LOCKING_USER_ID,
    ensures
        validation(user_id, activation_user_ids(activations)).locked,
        !is_free_for(user_id, activation_user_ids(activations)),
{
    every_activator_is_seen(activations, i, LOCKING_USER_ID);
    validation_is_clean_iff_free(user_id, activation_user_ids(activations));
}

/// Run validation checks on Jinxxy license activations
/// - `expected_user_id` - user we expect to have activated
/// - `activations` - all known activations
pub fn validate_jinxxy_license_activation(expected_user_id: u64, activations: &[LicenseActivation]) -> (r:
    ActivationValidation)
    ensures
        r == validation(expected_user_id, activation_user_ids(activations@)),
{
    let user_ids: Vec<u64> = LicenseActivation::user_ids(activations);
    validate_license_activation(expected_user_id, user_ids.as_slice())
}

/// Run validation checks on license activations
/// - `expected_user_id` - user we expect to have activated
/// - `user_ids` - user ids from all known activations
pub fn validate_license_activation(expected_user_id: u64, user_ids: &[u64]) -> (r: ActivationValidation)
    ensures
        r == validation(expected_user_id, user_ids@),
{
    let mut own_user = false;
    let mut multiple = false;
    let mut other_user = false;
    let mut locked = false;
    for i in 0..user_ids.len()
        invariant
            (ActivationValidation { own_user, multiple, other_user, locked }) == validation(
                expected_user_id,
                user_ids@.take(i as int),
            ),
    {
        let ghost before = user_ids@.take(i as int);
        let ghost after = user_ids@.take(i + 1);
        let user_id: u64 = user_ids[i];
        proof {
            assert(after =~= before.push(user_id));
            assert(after[i as int] == user_id);
            assert forall|j: int| 0 <= j < i implies #[trigger] after[j] == before[j] by {}
            assert forall|id: u64| #[trigger] after.contains(id) <==> (before.contains(id) || id == user_id) by {
                if before.contains(id) {
                    let k = choose|k: int| 0 <= k < before.len() && before[k] == id;
                    assert(after[k] == id);
                }
                if id == user_id {
                    assert(after[i as int] == id);
                }
            }
        }
        if user_id == expected_user_id {
            // check if this is NOT the first activation
            if own_user {
                multiple = true;
                proof {
                    let k = choose|k: int| 0 <= k < before.len() && before[k] == expected_user_id;
                    assert(after[k] == expected_user_id && after[i as int] == expected_user_id);
                }
            }
            // expected user activated
            own_user = true;
        } else if user_id == LOCKING_USER_ID {
            locked = true;
        } else {
            // unexpected user activated
            other_user = true;
        }
        proof {
            let b = validation(expected_user_id, before);
            let a = validation(expected_user_id, after);
            if b.multiple {
                let (k, l) = choose|k: int, l: int|
                    0 <= k < l < before.len() && #[trigger] before[k] == expected_user_id && #[trigger] before[l]
                        == expected_user_id;
                assert(after[k] == expected_user_id && after[l] == expected_user_id);
            }
            if a.multiple && !b.multiple {
                let (k, l) = choose|k: int, l: int|
                    0 <= k < l < after.len() && #[trigger] after[k] == expected_user_id && #[trigger] after[l]
                        == expected_user_id;
                assert(before[k] == expected_user_id);
                if l < i {
                    assert(before[l] == expected_user_id);
                }
            }
            if b.other_user {
                let k = choose|k: int|
                    0 <= k < before.len() && #[trigger] before[k] != expected_user_id && before[k]
                        != LOCKING_USER_ID;
                assert(after[k] == before[k]);
            }
            if a.other_user && !b.other_user {
                let k = choose|k: int|
                    0 <= k < after.len() && #[trigger] after[k] != expected_user_id && after[k] != LOCKING_USER_ID;
                if k < i {
                    assert(before[k] == after[k]);
                }
            }
        }
    }
    proof {
        assert(user_ids@.take(user_ids@.len() as int) =~= user_ids@);
    }
    ActivationValidation { own_user, multiple, other_user, locked }
}

} // verus!
