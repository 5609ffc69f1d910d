//! License keys and license activations

use jinx::http::jinxxy::{CreateLicenseActivation, LicenseActivation, LicenseKey};
use jinx::license::{
    identify_license, validate_jinxxy_license_activation, validate_license_activation, ActivationValidation,
    LicenseType, LOCKING_USER_ID,
};

fn activation(id: &str, description: &str) -> LicenseActivation {
    LicenseActivation {
        id: id.to_string(),
        description: description.to_string(),
        created_at: "2023-12-01T01:52:15.816Z".parse().expect("Expected valid Timestamp"),
    }
}

#[test]
fn test_jinxxy_short_license() {
    assert_eq!(identify_license("XXXX-cd071c534191"), LicenseType::JinxxyShort);
}

#[test]
fn test_jinxxy_long_license() {
    assert_eq!(
        identify_license("3642d957-c5d8-4d18-a1ae-cd071c534191"),
        LicenseType::JinxxyLong
    );
}

#[test]
fn test_gumroad_license() {
    assert_eq!(
        identify_license("ABCD1234-1234FEDC-0987A321-A2B3C5D6"),
        LicenseType::Gumroad
    );
}

#[test]
fn test_payhip_license() {
    assert_eq!(identify_license("WTKP4-66NL5-HMKQW-GFSCZ"), LicenseType::Payhip);
}

#[test]
fn test_integer_license() {
    assert_eq!(identify_license("123123"), LicenseType::Integer);
}

#[test]
fn test_unknown_license() {
    assert_eq!(identify_license("foo"), LicenseType::Unknown);
}

#[test]
fn test_not_a_license() {
    assert_eq!(identify_license("bing bong"), LicenseType::Unknown);
}

#[test]
fn near_misses_are_unknown() {
    // lower case prefix, upper case suffix, too short, too long
    assert_eq!(identify_license("xxxx-cd071c534191"), LicenseType::Unknown);
    assert_eq!(identify_license("XXXX-CD071C534191"), LicenseType::Unknown);
    assert_eq!(identify_license("XXXX-cd071c53419"), LicenseType::Unknown);
    assert_eq!(identify_license("XXXX-cd071c5341911"), LicenseType::Unknown);
    // not a version 4 UUID
    assert_eq!(
        identify_license("3642d957-c5d8-1d18-a1ae-cd071c534191"),
        LicenseType::Unknown
    );
    assert_eq!(
        identify_license("3642d957-c5d8-4d18-c1ae-cd071c534191"),
        LicenseType::Unknown
    );
    // not hexadecimal
    assert_eq!(
        identify_license("GBCD1234-1234FEDC-0987A321-A2B3C5D6"),
        LicenseType::Unknown
    );
    // the whole text counts, line breaks included
    assert_eq!(identify_license("123123\n"), LicenseType::Unknown);
    assert_eq!(identify_license(" 123123"), LicenseType::Unknown);
    assert_eq!(identify_license(""), LicenseType::Unknown);
    // only ASCII digits make a number
    assert_eq!(identify_license("١٢٣"), LicenseType::Unknown);
}

#[test]
fn kinds_of_license_types() {
    assert!(LicenseType::JinxxyShort.is_jinxxy_license());
    assert!(LicenseType::JinxxyLong.is_jinxxy_license());
    assert!(!LicenseType::Gumroad.is_jinxxy_license());
    assert!(LicenseType::Gumroad.is_license());
    assert!(LicenseType::Ambiguous.is_license());
    assert!(!LicenseType::Unknown.is_license());
    assert!(LicenseType::Integer.is_integer());
    assert!(!LicenseType::Payhip.is_integer());
}

#[test]
fn license_types_have_names() {
    assert_eq!(LicenseType::JinxxyShort.describe(), "a Jinxxy short key");
    assert_eq!(LicenseType::JinxxyLong.describe(), "a Jinxxy long key");
    assert_eq!(LicenseType::Gumroad.describe(), "a Gumroad key");
    assert_eq!(LicenseType::Integer.describe(), "a number");
    assert_eq!(LicenseType::Payhip.describe(), "a Payhip key");
    assert_eq!(LicenseType::Unknown.describe(), "an unknown value");
    assert_eq!(LicenseType::Ambiguous.describe(), "an ambiguous value");
}

#[test]
fn untrusted_licenses_are_never_ids() {
    assert!(LicenseType::Integer.create_untrusted_jinxxy_license("123").is_none());
    assert!(LicenseType::Gumroad.create_untrusted_jinxxy_license("g").is_none());
    assert!(LicenseType::Payhip.create_untrusted_jinxxy_license("p").is_none());
    assert!(matches!(
        LicenseType::JinxxyLong.create_untrusted_jinxxy_license("l"),
        Some(LicenseKey::Long("l"))
    ));
    assert!(matches!(
        LicenseType::Unknown.create_untrusted_jinxxy_license("u"),
        Some(LicenseKey::Short("u"))
    ));
}

#[test]
fn trusted_licenses_may_be_ids() {
    assert!(matches!(
        LicenseType::Integer.create_trusted_jinxxy_license("123"),
        Some(LicenseKey::Id("123"))
    ));
    assert!(matches!(
        LicenseType::JinxxyShort.create_trusted_jinxxy_license("s"),
        Some(LicenseKey::Short("s"))
    ));
    assert!(LicenseType::Gumroad.create_trusted_jinxxy_license("g").is_none());
}

#[test]
fn test_description_parse() {
    let expected = 177811898790707200u64;
    let activation = activation("3557172628961625518", "discord_177811898790707200");
    let actual = activation
        .try_into_user_id()
        .expect("expected description parse to succeed");
    assert_eq!(expected, actual);
}

#[test]
fn test_description_parse_fail_too_long() {
    let activation = activation(
        "3557172628961625518",
        "discord_17781189879070720575757890257892304570",
    );
    let fail = activation.try_into_user_id().is_none();
    assert!(fail);
}

#[test]
fn test_description_parse_fail_nan() {
    let activation = activation("3557172628961625518", "discord_17781foo");
    let fail = activation.try_into_user_id().is_none();
    assert!(fail);
}

#[test]
fn test_description_parse_fail_no_match() {
    let activation = activation("3557172628961625518", "foo");
    let fail = activation.try_into_user_id().is_none();
    assert!(fail);
}

#[test]
fn description_parse_edge_cases() {
    assert_eq!(activation("a", "discord_").try_into_user_id(), None);
    assert_eq!(activation("a", "discord_+5").try_into_user_id(), None);
    assert_eq!(activation("a", "discord_5 ").try_into_user_id(), None);
    assert_eq!(activation("a", " discord_5").try_into_user_id(), None);
    assert_eq!(activation("a", "discord_٥").try_into_user_id(), None);
    assert_eq!(
        activation("a", "discord_18446744073709551615").try_into_user_id(),
        Some(u64::MAX)
    );
    assert_eq!(activation("a", "discord_18446744073709551616").try_into_user_id(), None);
    assert_eq!(activation("a", "discord_007").try_into_user_id(), Some(7));
}

#[test]
fn activations_name_their_users() {
    for user_id in [0, 7, 177811898790707200, u64::MAX] {
        let request = CreateLicenseActivation::from_user_id(user_id);
        assert_eq!(activation("a", &request.description).try_into_user_id(), Some(user_id));
    }
    assert_eq!(CreateLicenseActivation::from_user_id(42).description, "discord_42");
}

#[test]
fn a_lock_is_an_activation_of_nobody() {
    assert!(activation("a", "discord_0").is_lock());
    assert!(!activation("a", "discord_1").is_lock());
    assert!(!activation("a", "0").is_lock());
    let request = CreateLicenseActivation::from_user_id(LOCKING_USER_ID);
    assert!(activation("a", &request.description).is_lock());
}

#[test]
fn validation_without_activations_finds_nothing() {
    let expected = ActivationValidation::default();
    assert_eq!(validate_license_activation(1, &[]), expected);
    assert_eq!(validate_jinxxy_license_activation(1, &[]), expected);
    assert!(!expected.own_user && !expected.multiple && !expected.other_user && !expected.locked);
}

#[test]
fn validation_tells_users_apart() {
    let v = validate_license_activation(1, &[1]);
    assert!(v.own_user && !v.multiple && !v.other_user && !v.locked && !v.deadlocked());
    let v = validate_license_activation(1, &[1, 1]);
    assert!(v.own_user && v.multiple && !v.other_user && !v.locked);
    let v = validate_license_activation(1, &[2]);
    assert!(!v.own_user && v.other_user && !v.locked && !v.deadlocked());
    let v = validate_license_activation(1, &[2, 1]);
    assert!(v.own_user && v.other_user && v.deadlocked());
    let v = validate_license_activation(1, &[0]);
    assert!(!v.own_user && !v.other_user && v.locked);
    let v = validate_license_activation(1, &[1, 0, 3]);
    assert!(v.own_user && !v.multiple && v.other_user && v.locked);
}

#[test]
fn validation_ignores_foreign_activations() {
    let activations = [
        activation("a", "somebody else's bot"),
        activation("b", "discord_5"),
        activation("c", "discord_x"),
    ];
    let v = validate_jinxxy_license_activation(5, &activations);
    assert!(v.own_user && !v.multiple && !v.other_user && !v.locked);
    let v = validate_jinxxy_license_activation(6, &activations);
    assert!(!v.own_user && v.other_user);
    assert_eq!(LicenseActivation::user_ids(&activations), vec![5]);
}

#[test]
fn a_license_of_two_users_is_free_for_neither() {
    let activations = [activation("a", "discord_5"), activation("b", "discord_6")];
    for user_id in [5, 6] {
        let v = validate_jinxxy_license_activation(user_id, &activations);
        assert!(v.deadlocked());
    }
}

#[test]
fn a_locked_license_is_free_for_nobody() {
    let activations = [activation("a", "discord_5"), activation("b", "discord_0")];
    for user_id in [5, 6] {
        assert!(validate_jinxxy_license_activation(user_id, &activations).locked);
    }
}

#[test]
fn a_deactivated_license_is_free_for_anybody() {
    let is_free = |user_id: u64, activations: &[LicenseActivation]| {
        let v = validate_jinxxy_license_activation(user_id, activations);
        !v.locked && !v.other_user
    };
    let activated = [activation("a", "discord_5"), activation("b", "website"), activation("c", "discord_5")];
    assert!(is_free(5, &activated));
    assert!(!is_free(6, &activated));
    let deactivated = [activation("b", "website")];
    assert!(is_free(5, &deactivated));
    assert!(is_free(6, &deactivated));
}
