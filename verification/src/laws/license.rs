//! License keys, and who has activated a license

use crate::http::jinxxy::{LicenseActivation, LicenseKey, LicenseKeyView};
use crate::license::{
    identify_license, license_types_are_disjoint, validate_jinxxy_license_activation, validate_license_activation,
    ActivationValidation, LicenseType,
};
use crate::pattern::{
    is_gumroad_key, is_jinxxy_long_key, is_jinxxy_short_key, is_number, is_payhip_key,
};
use vstd::prelude::*;

verus! {

/// A text is of a type exactly when it has the form of that type, and of none if it has no known form.
pub proof fn texts_are_identified_by_their_form(text: &str, r: LicenseType)
    requires
        call_ensures(identify_license, (text,), r),
    ensures
        r is JinxxyShort <==> is_jinxxy_short_key(text@),
        r is JinxxyLong <==> is_jinxxy_long_key(text@),
        r is Gumroad <==> is_gumroad_key(text@),
        r is Integer <==> is_number(text@),
        r is Payhip <==> is_payhip_key(text@),
        !(r is Ambiguous),
{
    license_types_are_disjoint(text@);
}

/// What anybody provides may be a Jinxxy key, unless it is clearly something else. It is never an ID.
pub proof fn untrusted_texts_are_keys(license_type: LicenseType, text: &str, key: Option<LicenseKey<'_>>)
    requires
        call_ensures(LicenseType::create_untrusted_jinxxy_license, (&license_type, text), key),
    ensures
        key is None <==> license_type is Gumroad || license_type is Integer || license_type is Payhip,
        key matches Some(key) ==> key@ == (if license_type is JinxxyLong {
            LicenseKeyView::Long(text@)
        } else {
            LicenseKeyView::Short(text@)
        }),
{
}

/// What an administrator provides may be a Jinxxy key or an ID, unless it is clearly something else.
pub proof fn trusted_texts_are_keys_or_ids(license_type: LicenseType, text: &str, key: Option<LicenseKey<'_>>)
    requires
        call_ensures(LicenseType::create_trusted_jinxxy_license, (&license_type, text), key),
    ensures
        key is None <==> license_type is Gumroad || license_type is Payhip,
        key matches Some(key) ==> key@ == (if license_type is JinxxyLong {
            LicenseKeyView::Long(text@)
        } else if license_type is Integer {
            LicenseKeyView::Id(text@)
        } else {
            LicenseKeyView::Short(text@)
        }),
{
}

/// A type is that of a Jinxxy license, of any license, or a number.
pub proof fn types_are_of_licenses(license_type: LicenseType, jinxxy: bool, license: bool, integer: bool)
    requires
        call_ensures(LicenseType::is_jinxxy_license, (&license_type,), jinxxy),
        call_ensures(LicenseType::is_license, (&license_type,), license),
        call_ensures(LicenseType::is_integer, (&license_type,), integer),
    ensures
        jinxxy <==> license_type is JinxxyShort || license_type is JinxxyLong,
        integer <==> license_type is Integer,
        license <==> !(license_type is Unknown),
{
}

/// The validation finds the user exactly when the user has activated the license, more than one activation of it, any
/// other user but the lock, and the lock.
pub proof fn validation_finds_users(user_id: u64, users: &[u64], r: ActivationValidation)
    requires
        call_ensures(validate_license_activation, (user_id, users), r),
    ensures
        r.own_user <==> users@.contains(user_id),
        r.other_user <==> exists|i: int| 0 <= i < users@.len() && #[trigger] users@[i] != user_id && users@[i] != 0,
        user_id != 0 ==> (r.locked <==> users@.contains(0u64)),
        r.multiple ==> r.own_user,
        r.multiple <==> exists|i: int, j: int|
            0 <= i < j < users@.len() && #[trigger] users@[i] == user_id && #[trigger] users@[j] == user_id,
{
    if r.multiple {
        let (i, j) = choose|i: int, j: int|
            0 <= i < j < users@.len() && #[trigger] users@[i] == user_id && #[trigger] users@[j] == user_id;
        assert(users@.contains(users@[i]));
    }
}

/// The activations of a license are validated as the users are that they name.
pub proof fn activations_are_validated_by_their_users(
    user_id: u64,
    activations: &[LicenseActivation],
    names: Vec<u64>,
    users: &[u64],
    a: ActivationValidation,
    b: ActivationValidation,
)
    requires
        call_ensures(LicenseActivation::user_ids, (activations,), names),
        users@ == names@,
        call_ensures(validate_jinxxy_license_activation, (user_id, activations), a),
        call_ensures(validate_license_activation, (user_id, users), b),
    ensures
        a == b,
{
}

/// A license is in a deadlock when both the user and somebody else have activated it.
pub proof fn deadlocks_have_two_users(v: ActivationValidation, r: bool)
    requires
        call_ensures(ActivationValidation::deadlocked, (&v,), r),
    ensures
        r <==> v.own_user && v.other_user,
{
}

/// Each type of license has a name of its own.
pub proof fn types_have_names(license_type: LicenseType, name: String)
    requires
        call_ensures(LicenseType::describe, (&license_type,), name),
    ensures
        license_type is JinxxyShort ==> name@ == "a Jinxxy short key"@,
        license_type is JinxxyLong ==> name@ == "a Jinxxy long key"@,
        license_type is Gumroad ==> name@ == "a Gumroad key"@,
        license_type is Integer ==> name@ == "a number"@,
        license_type is Payhip ==> name@ == "a Payhip key"@,
        license_type is Unknown ==> name@ == "an unknown value"@,
        license_type is Ambiguous ==> name@ == "an ambiguous value"@,
{
}

} // verus!
