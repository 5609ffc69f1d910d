//! Events that are not commands

use jinx::bot::error_handler::CommandFailure;
use jinx::bot::event_handler::{
    component_response, direct_message_response, is_missing_access, join_custom_id, mention_response,
    mention_response_to, modal_response, registration_failure, split_custom_id, ComponentResponse, MessageResponse,
    ModalResponse, DIRECT_MESSAGE_REPLY,
};
use jinx::bot::message::Colour;

#[test]
fn custom_ids_are_split_at_the_first_colon() {
    assert_eq!(split_custom_id("key"), ("key", None));
    assert_eq!(split_custom_id("key:value"), ("key", Some("value")));
    assert_eq!(split_custom_id("key:a:b"), ("key", Some("a:b")));
    assert_eq!(split_custom_id(":"), ("", Some("")));
    assert_eq!(join_custom_id("key", None), "key");
    assert_eq!(join_custom_id("key", Some("a:b")), "key:a:b");
}

#[test]
fn a_register_button_opens_a_form() {
    match component_response("jinx_register_button:123") {
        ComponentResponse::OpenModal { custom_id } => {
            assert_eq!(custom_id, "jinx_register_modal:123");
            match modal_response(&custom_id) {
                ModalResponse::Register { jinxxy_user_id } => assert_eq!(jinxxy_user_id.as_deref(), Some("123")),
                other => panic!("expected a registration: {other:?}"),
            }
        }
        other => panic!("expected a form: {other:?}"),
    }
}

#[test]
fn a_legacy_button_opens_a_form_without_a_store() {
    match component_response("jinx_register_button") {
        ComponentResponse::OpenModal { custom_id } => assert_eq!(custom_id, "jinx_register_modal"),
        other => panic!("expected a form: {other:?}"),
    }
    assert!(matches!(
        modal_response("jinx_register_modal"),
        ModalResponse::Register { jinxxy_user_id: None }
    ));
}

#[test]
fn custom_ids_are_limited() {
    // "jinx_register_modal:" takes 20 bytes
    let fits = format!("jinx_register_button:{}", "x".repeat(80));
    assert!(matches!(component_response(&fits), ComponentResponse::OpenModal { .. }));
    let too_long = format!("jinx_register_button:{}", "x".repeat(81));
    assert!(matches!(component_response(&too_long), ComponentResponse::CustomIdTooLong));
    // bytes count, not characters
    let too_long = format!("jinx_register_button:{}", "→".repeat(27));
    assert!(matches!(component_response(&too_long), ComponentResponse::CustomIdTooLong));
}

#[test]
fn other_components_are_unknown() {
    assert!(matches!(component_response("other:123"), ComponentResponse::Unknown));
    assert!(matches!(component_response("jinx_register_buttons"), ComponentResponse::Unknown));
    assert!(matches!(modal_response("jinx_register_button:1"), ModalResponse::Unknown));
}

#[test]
fn direct_messages_are_answered() {
    match direct_message_response(false) {
        MessageResponse::Reply { text, fallback } => {
            assert_eq!(text, DIRECT_MESSAGE_REPLY);
            assert_eq!(fallback, None);
        }
        other => panic!("expected a reply: {other:?}"),
    }
    assert!(matches!(direct_message_response(true), MessageResponse::Ignore));
}

fn reply(response: MessageResponse) -> (String, Option<char>) {
    match response {
        MessageResponse::Reply { text, fallback } => (text, fallback),
        other => panic!("expected a reply: {other:?}"),
    }
}

#[test]
fn owners_find_easter_eggs() {
    let first = ("no, you! 😳".to_string(), Some('😳'));
    let second = ("…you are… 😩".to_string(), Some('😩'));
    assert_eq!(reply(mention_response(false, true, "<@1> You're cute")), first);
    assert_eq!(reply(mention_response(false, true, "ur a  cutie!")), first);
    assert_eq!(reply(mention_response(false, true, "who's your daddy?")), second);
    assert_eq!(reply(mention_response(false, true, "WHO IS UR CREATOR")), second);
    assert_eq!(reply(mention_response_to(true, true, true)), first);
    assert_eq!(reply(mention_response_to(true, false, true)), second);
}

#[test]
fn others_get_a_reaction() {
    assert!(matches!(mention_response(false, true, "hello"), MessageResponse::React('👀')));
    assert!(matches!(
        mention_response(false, false, "you're cute"),
        MessageResponse::React('👀')
    ));
    assert!(matches!(
        mention_response(true, true, "you're cute"),
        MessageResponse::React('👀')
    ));
    assert!(matches!(
        mention_response(false, true, "your cute"),
        MessageResponse::React('👀')
    ));
    assert!(matches!(mention_response_to(false, true, true), MessageResponse::React('👀')));
}

#[test]
fn failed_registrations_are_reported() {
    let embed = registration_failure("DB error", 0xABC);
    assert_eq!(embed.title, "Registration Failure");
    assert_eq!(
        embed.description,
        "Caused by: DB error\n\nIf you report this to the bot developer, include error code `0000000000000ABC` in your report.\n\nBugs can be reported on [our GitHub](<https://github.com/zkxs/jinx/issues>) or in [our Discord](<https://discord.gg/aKkA6m26f9>)."
    );
    assert_eq!(embed.colour, Some(Colour::Red));
}

#[test]
fn failed_commands_are_reported() {
    let embed = CommandFailure::NotAnOwner.reply(u64::MAX);
    assert_eq!(embed.title, "Not an owner Error");
    assert_eq!(
        embed.description,
        "An unexpected error has occurred. Please report this to the bot developer with error code `FFFFFFFFFFFFFFFF`\n\nBugs can be reported on [our GitHub](<https://github.com/zkxs/jinx/issues>) or in [our Discord](<https://discord.gg/aKkA6m26f9>)."
    );
    assert_eq!(CommandFailure::Command.title(), "Command");
    assert_eq!(CommandFailure::ArgumentParse.title(), "Argument parse error");
}

#[test]
fn missing_access() {
    assert!(is_missing_access(Some(403)));
    assert!(!is_missing_access(Some(404)));
    assert!(!is_missing_access(None));
}
