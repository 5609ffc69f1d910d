//! The registration of a license

use jinx::bot::message::{Colour, Embed};
use jinx::bot::registration::{
    find_license_key, InputField, Registration, RegistrationAction, RegistrationError, RegistrationEvent, RegistrationRequest, RegistrationStage,
};
use jinx::http::jinxxy::{LicenseActivation, LicenseInfo, LicenseKey, ProductVersionInfo};

const SHORT_KEY: &str = "XXXX-cd071c534191";

fn request(key: &str) -> RegistrationRequest {
    RegistrationRequest {
        license_key: Some(key.to_string()),
        guild_id: Some(11),
        jinxxy_user_id: Some("store".to_string()),
        user_id: 5,
        is_member: true,
    }
}

fn info(activations: u32) -> LicenseInfo {
    LicenseInfo {
        license_id: "license".to_string(),
        short_key: SHORT_KEY.to_string(),
        key: "3642d957-c5d8-4d18-a1ae-cd071c534191".to_string(),
        user_id: "customer".to_string(),
        username: None,
        product_id: "product".to_string(),
        product_name: "Avatar".to_string(),
        product_version_info: Some(ProductVersionInfo {
            product_version_id: "version".to_string(),
            product_version_name: "1.0".to_string(),
        }),
        order_id: None,
        activations,
    }
}

fn activation(id: &str, user_id: u64) -> LicenseActivation {
    LicenseActivation {
        id: id.to_string(),
        description: format!("discord_{user_id}"),
        created_at: "2023-12-01T01:52:15.816Z".parse().expect("Expected valid Timestamp"),
    }
}

fn notice(registration: &Registration) -> (Embed, bool) {
    match registration.action() {
        RegistrationAction::Notify { embed, best_effort } => (embed, best_effort),
        other => panic!("expected a notice: {other:?}"),
    }
}

fn log(registration: &Registration) -> (u64, Embed, Option<Embed>) {
    match registration.action() {
        RegistrationAction::SendLog {
            channel_id,
            embed,
            second_embed,
        } => (channel_id, embed, second_embed),
        other => panic!("expected a log entry: {other:?}"),
    }
}

/// A registration that has just learned of the license
fn with_license(activations: u32) -> Registration {
    Registration::start(request(SHORT_KEY))
        .step(RegistrationEvent::ApiKey(Some("key".to_string())))
        .step(RegistrationEvent::License(Some(info(activations))))
}

#[test]
fn a_missing_key_is_asked_for() {
    for key in [None, Some("".to_string()), Some(" \t\n".to_string())] {
        let registration = Registration::start(RegistrationRequest {
            license_key: key,
            ..request(SHORT_KEY)
        });
        let (embed, best_effort) = notice(&registration);
        assert_eq!(embed.title, "Registration Failure");
        assert_eq!(embed.description, "You must provide a license key");
        assert_eq!(embed.colour, Some(Colour::Red));
        assert!(best_effort);
        let registration = registration.step(RegistrationEvent::Done);
        assert!(matches!(registration.action(), RegistrationAction::Finish));
    }
}

#[test]
fn a_registration_needs_a_guild() {
    let registration = Registration::start(RegistrationRequest {
        guild_id: None,
        ..request(SHORT_KEY)
    });
    assert!(matches!(
        registration.action(),
        RegistrationAction::Abort(RegistrationError::NotInGuild)
    ));
    assert_eq!(RegistrationError::NotInGuild.describe(), "expected to be in a guild");
}

#[test]
fn a_registration_needs_a_member() {
    let registration = Registration::start(RegistrationRequest {
        is_member: false,
        ..request(SHORT_KEY)
    })
    .step(RegistrationEvent::ApiKey(Some("key".to_string())))
    .step(RegistrationEvent::License(Some(info(0))));
    assert!(matches!(
        registration.action(),
        RegistrationAction::Abort(RegistrationError::NotInGuild)
    ));
}

#[test]
fn a_legacy_button_has_the_default_store() {
    let legacy = || RegistrationRequest {
        jinxxy_user_id: None,
        ..request(SHORT_KEY)
    };
    let registration = Registration::start(legacy());
    assert!(matches!(
        registration.action(),
        RegistrationAction::LoadDefaultStore { guild_id: 11 }
    ));
    let registration = registration.step(RegistrationEvent::DefaultStore(Some("default".to_string())));
    match registration.action() {
        RegistrationAction::LoadApiKey {
            guild_id,
            jinxxy_user_id,
        } => {
            assert_eq!(guild_id, 11);
            assert_eq!(jinxxy_user_id, "default");
        }
        other => panic!("expected an API key to be loaded: {other:?}"),
    }
    let registration = Registration::start(legacy()).step(RegistrationEvent::DefaultStore(None));
    assert!(matches!(
        registration.action(),
        RegistrationAction::Abort(RegistrationError::NoDefaultStore)
    ));
    assert_eq!(
        RegistrationError::NoDefaultStore.describe(),
        "legacy register button did not have a default store set"
    );
}

#[test]
fn a_store_without_an_api_key_is_misconfigured() {
    let registration = Registration::start(request(SHORT_KEY)).step(RegistrationEvent::ApiKey(None));
    let (embed, _) = notice(&registration);
    assert_eq!(embed.title, "Jinx Misconfiguration");
    assert_eq!(
        embed.description,
        "Jinxxy API key is not set: please contact the server administrator for support."
    );
    let registration = registration.step(RegistrationEvent::Done);
    assert!(matches!(registration.stage, RegistrationStage::Finished));
}

#[test]
fn the_key_is_looked_up_without_whitespace() {
    let registration =
        Registration::start(request(" XXXX-cd071c534191\n")).step(RegistrationEvent::ApiKey(Some("key".to_string())));
    match registration.action() {
        RegistrationAction::CheckLicense { api_key, license } => {
            assert_eq!(api_key, "key");
            assert!(matches!(license, LicenseKey::Short(SHORT_KEY)));
        }
        other => panic!("expected a license to be checked: {other:?}"),
    }
    let registration = Registration::start(request("3642d957-c5d8-4d18-a1ae-cd071c534191"))
        .step(RegistrationEvent::ApiKey(Some("key".to_string())));
    assert!(matches!(
        registration.action(),
        RegistrationAction::CheckLicense {
            license: LicenseKey::Long("3642d957-c5d8-4d18-a1ae-cd071c534191"),
            ..
        }
    ));
}

#[test]
fn a_license_id_is_refused() {
    let registration =
        Registration::start(request("123123")).step(RegistrationEvent::ApiKey(Some("key".to_string())));
    let (embed, best_effort) = notice(&registration);
    assert_eq!(embed.title, "Jinxxy Product Registration Failed");
    assert_eq!(
        embed.description,
        "The provided Jinxxy license key was not valid or is already in use.\n\n\
        **This bot only supports Jinxxy keys**, but you appear to have provided a number. \
        Please confirm you are providing the correct value to the correct bot. \
        Jinxxy keys should look like `XXXX-cd071c534191` or `3642d957-c5d8-4d18-a1ae-cd071c534191`."
    );
    assert!(!best_effort);
}

#[test]
fn a_gumroad_key_is_counted() {
    let registration = Registration::start(request("ABCD1234-1234FEDC-0987A321-A2B3C5D6"))
        .step(RegistrationEvent::ApiKey(Some("key".to_string())));
    assert!(matches!(
        registration.action(),
        RegistrationAction::CountGumroadFailure { guild_id: 11 }
    ));
    let registration = registration.step(RegistrationEvent::Done);
    let (embed, _) = notice(&registration);
    assert!(embed.description.contains("a Gumroad key"));
}

#[test]
fn an_invalid_license_is_refused() {
    let registration = Registration::start(request(SHORT_KEY))
        .step(RegistrationEvent::ApiKey(Some("key".to_string())))
        .step(RegistrationEvent::License(None));
    let (embed, best_effort) = notice(&registration);
    assert_eq!(
        embed.description,
        "The provided Jinxxy license key was not valid or is already in use"
    );
    assert_eq!(embed.colour, Some(Colour::Red));
    assert!(!best_effort);
    let registration = registration.step(RegistrationEvent::Done);
    assert!(matches!(registration.action(), RegistrationAction::Finish));
}

#[test]
fn a_fresh_license_is_activated_and_checked_again() {
    let registration = with_license(0);
    match registration.action() {
        RegistrationAction::CheckRecord {
            jinxxy_user_id,
            user_id,
            license_id,
        } => {
            assert_eq!(jinxxy_user_id, "store");
            assert_eq!(user_id, 5);
            assert_eq!(license_id, "license");
        }
        other => panic!("expected the record to be checked: {other:?}"),
    }
    let registration = registration.step(RegistrationEvent::RecordPresent(false));
    match registration.action() {
        RegistrationAction::CreateActivation {
            api_key,
            license_id,
            user_id,
        } => {
            assert_eq!(api_key, "key");
            assert_eq!(license_id, "license");
            assert_eq!(user_id, 5);
        }
        other => panic!("expected an activation to be created: {other:?}"),
    }
    let registration = registration.step(RegistrationEvent::Activated("activation".to_string()));
    match registration.action() {
        RegistrationAction::RecordActivation {
            jinxxy_user_id,
            license_id,
            activation_id,
            user_id,
            product_id,
            version_id,
        } => {
            assert_eq!(jinxxy_user_id, "store");
            assert_eq!(license_id, "license");
            assert_eq!(activation_id, "activation");
            assert_eq!(user_id, 5);
            assert_eq!(product_id, "product");
            assert_eq!(version_id.map(|id| id.as_str()), Some("version"));
        }
        other => panic!("expected the activation to be recorded: {other:?}"),
    }
    let registration = registration.step(RegistrationEvent::Done);
    assert!(matches!(registration.action(), RegistrationAction::ListActivations { .. }));
    let registration = registration.step(RegistrationEvent::Activations(vec![activation("activation", 5)]));
    match registration.action() {
        RegistrationAction::LoadRoleGrants {
            guild_id,
            product_version_id,
        } => {
            assert_eq!(guild_id, 11);
            assert_eq!(product_version_id.product_id, "product");
            assert_eq!(product_version_id.product_version_id.as_deref(), Some("version"));
        }
        other => panic!("expected roles to be loaded: {other:?}"),
    }
}

/// A registration that has just learned of the roles
fn with_roles(role_ids: Vec<u64>) -> Registration {
    with_license(1)
        .step(RegistrationEvent::Activations(vec![activation("activation", 5)]))
        .step(RegistrationEvent::RecordPresent(true))
        .step(RegistrationEvent::RoleGrants(role_ids))
}

#[test]
fn roles_are_granted() {
    let registration = with_roles(vec![21, 22]);
    match registration.action() {
        RegistrationAction::GrantRoles { role_ids } => assert_eq!(role_ids, &vec![21, 22]),
        other => panic!("expected roles to be granted: {other:?}"),
    }
    let registration = registration.step(RegistrationEvent::RolesGranted(vec![(21, true), (22, true)]));
    let (embed, best_effort) = notice(&registration);
    assert_eq!(embed.title, "Registration Success");
    assert_eq!(
        embed.description,
        "Congratulations, you are now registered as an owner of the Avatar (version 1.0) product and have been granted the following roles:\n- <@&21>\n- <@&22>"
    );
    assert_eq!(embed.colour, Some(Colour::DarkGreen));
    assert!(best_effort);
    let registration = registration.step(RegistrationEvent::Done);
    assert!(matches!(
        registration.action(),
        RegistrationAction::LoadLogChannel { guild_id: 11 }
    ));
    let registration = registration.step(RegistrationEvent::LogChannel(Some(99)));
    let (channel_id, embed, second_embed) = log(&registration);
    assert_eq!(channel_id, 99);
    assert_eq!(embed.title, "License Activation");
    assert_eq!(
        embed.description,
        "<@5> has registered the Avatar (version 1.0) product and has been granted the following roles:\n- <@&21>\n- <@&22>"
    );
    assert_eq!(embed.colour, None);
    assert!(second_embed.is_none());
    let registration = registration.step(RegistrationEvent::Done);
    assert!(matches!(registration.action(), RegistrationAction::Finish));
}

#[test]
fn roles_that_cannot_be_granted_are_reported() {
    let registration =
        with_roles(vec![21, 22]).step(RegistrationEvent::RolesGranted(vec![(21, false), (22, true)]));
    let (embed, _) = notice(&registration);
    assert_eq!(embed.title, "Registration Partial Success");
    assert_eq!(
        embed.description,
        "Congratulations, you are now registered as an owner of the Avatar (version 1.0) product and have been granted the following roles:\n- <@&22>\n\nFailed to grant access to roles:\n- <@&21>\nThe bot may lack permission to grant the above roles. Contact your server administrator for support."
    );
    assert_eq!(embed.colour, Some(Colour::Orange));
    let registration = registration
        .step(RegistrationEvent::Done)
        .step(RegistrationEvent::LogChannel(Some(99)));
    let (_, _, second_embed) = log(&registration);
    let second_embed = second_embed.expect("the failure should be logged");
    assert_eq!(second_embed.title, "Role Grant Error");
    assert_eq!(
        second_embed.description,
        "Failed to grant <@5> access to the following roles:\n- <@&21>\nPlease check bot permissions."
    );
    assert_eq!(second_embed.colour, Some(Colour::Red));
}

#[test]
fn a_product_without_roles_is_reported() {
    let registration = with_roles(Vec::new());
    let (embed, _) = notice(&registration);
    assert_eq!(embed.title, "Registration Partial Success");
    assert_eq!(
        embed.description,
        "You have registered Avatar (version 1.0), but there are no configured role links. Please notify the server owner and then try again after role links have been configured."
    );
    assert_eq!(embed.colour, Some(Colour::Gold));
    let registration = registration
        .step(RegistrationEvent::Done)
        .step(RegistrationEvent::LogChannel(Some(99)));
    let (_, embed, _) = log(&registration);
    assert_eq!(
        embed.description,
        "<@5> has registered the Avatar (version 1.0) product, which has no configured roles!"
    );
    let registration = with_roles(Vec::new())
        .step(RegistrationEvent::Done)
        .step(RegistrationEvent::LogChannel(None));
    assert!(matches!(registration.action(), RegistrationAction::Finish));
}

#[test]
fn a_missing_record_is_restored() {
    let registration = with_license(1)
        .step(RegistrationEvent::Activations(vec![activation("activation", 5)]))
        .step(RegistrationEvent::RecordPresent(false));
    match registration.action() {
        RegistrationAction::RecordActivation { activation_id, .. } => assert_eq!(activation_id, "activation"),
        other => panic!("expected the activation to be recorded: {other:?}"),
    }
    let registration = registration.step(RegistrationEvent::Done);
    assert!(matches!(registration.action(), RegistrationAction::LoadRoleGrants { .. }));
}

#[test]
fn a_used_license_is_refused() {
    let registration =
        with_license(2).step(RegistrationEvent::Activations(vec![activation("a", 6), activation("b", 5)]));
    assert!(matches!(registration.action(), RegistrationAction::LoadLogChannel { .. }));
    let registration = registration.step(RegistrationEvent::LogChannel(Some(99)));
    let (_, embed, second_embed) = log(&registration);
    assert_eq!(embed.title, "Activation Attempt Failed");
    assert_eq!(
        embed.description,
        "<@5> attempted to activate a license that has already been used by:\n- <@6>\n- <@5>"
    );
    assert_eq!(embed.colour, Some(Colour::Orange));
    assert!(second_embed.is_none());
    let registration = registration.step(RegistrationEvent::Done);
    let (embed, _) = notice(&registration);
    assert_eq!(embed.title, "Jinxxy Product Registration Failed");
}

#[test]
fn a_locked_license_is_refused() {
    let registration =
        with_license(2).step(RegistrationEvent::Activations(vec![activation("a", 0), activation("b", 5)]));
    let registration = registration.step(RegistrationEvent::LogChannel(Some(99)));
    let (_, embed, _) = log(&registration);
    assert_eq!(
        embed.description,
        "<@5> attempted to activate a locked license. An admin can unlock this license with the `/unlock_license` command."
    );
    let registration = registration.step(RegistrationEvent::Done);
    assert!(matches!(registration.stage, RegistrationStage::NotifyFailed));
}

/// A registration that has just activated the license
fn activated() -> Registration {
    with_license(0)
        .step(RegistrationEvent::RecordPresent(false))
        .step(RegistrationEvent::Activated("activation".to_string()))
        .step(RegistrationEvent::Done)
}

#[test]
fn a_race_is_refused() {
    let registration = activated().step(RegistrationEvent::Activations(vec![activation("a", 6), activation("b", 5)]));
    assert!(matches!(registration.stage, RegistrationStage::LoadDeadlockLog));
    let registration = registration.step(RegistrationEvent::LogChannel(Some(99)));
    let (_, embed, _) = log(&registration);
    assert_eq!(embed.title, "Activation Error");
    assert_eq!(
        embed.description,
        "<@5> attempted to activate a deadlocked license. It shouldn't be possible, but multiple users have already activated this license. An admin can use the `/deactivate_license` command to fix this manually."
    );
    let registration = registration.step(RegistrationEvent::Done);
    assert!(matches!(registration.stage, RegistrationStage::NotifyFailed));
}

#[test]
fn a_lock_in_between_is_refused() {
    let registration = activated().step(RegistrationEvent::Activations(vec![activation("a", 0), activation("b", 5)]));
    assert!(matches!(registration.stage, RegistrationStage::NotifyFailed));
}

#[test]
fn refusals_of_a_key_are_all_the_same() {
    let invalid = Registration::start(request(SHORT_KEY))
        .step(RegistrationEvent::ApiKey(Some("key".to_string())))
        .step(RegistrationEvent::License(None));
    let used = with_license(1)
        .step(RegistrationEvent::Activations(vec![activation("a", 6)]))
        .step(RegistrationEvent::LogChannel(None));
    let raced = activated()
        .step(RegistrationEvent::Activations(vec![activation("a", 6), activation("b", 5)]))
        .step(RegistrationEvent::LogChannel(None));
    let expected = notice(&invalid);
    assert_eq!(notice(&used), expected);
    assert_eq!(notice(&raced), expected);
}

#[test]
fn the_first_field_with_a_license_key_counts() {
    let field = |custom_id: &str, value: Option<&str>| InputField {
        custom_id: custom_id.to_string(),
        value: value.map(|value| value.to_string()),
    };
    let fields = [
        field("other", Some("no")),
        field("jinx_license_key_input", None),
        field("jinx_license_key_input", Some(" \t\n")),
        field("jinx_license_key_input", Some("\u{3000}XXXX-cd071c534191 ")),
        field("jinx_license_key_input", Some("too late")),
    ];
    assert_eq!(find_license_key(&fields), Some(SHORT_KEY));
    assert_eq!(find_license_key(&fields[..3]), None);
    assert_eq!(find_license_key(&[]), None);
}
