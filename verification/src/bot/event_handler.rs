//! What the bot does about events that are not commands.

use super::message::{Colour, Embed, EmbedView};
use crate::pattern::{regex_finds, regex_is_match, EASTER_EGG_1_PATTERN, EASTER_EGG_2_PATTERN};
use crate::text::{split_once, str_equals, u64_to_hex, upper_hex};
use vstd::prelude::*;
use vstd::utf8::encode_utf8;

verus! {

/// ID of the button that opens the registration form
pub const REGISTER_BUTTON_ID: &'static str = "jinx_register_button";

/// ID of the registration form
pub const REGISTER_MODAL_ID: &'static str = "jinx_register_modal";

/// ID of the field for the license key
pub const LICENSE_KEY_ID: &'static str = "jinx_license_key_input";

/// Discord's limit on the length of a custom ID. It is taken to be one of bytes.
pub const CUSTOM_ID_CHARACTER_LIMIT: usize = 100;

/// Our custom IDs are a static prefix, and possibly a colon and some dynamic value behind it.
pub open spec fn custom_id(key: Seq<char>, value: Option<Seq<char>>) -> Seq<char> {
    match value {
        Some(value) => key.push(':') + value,
        None => key,
    }
}

/// Whether a custom ID has a key and a value: the key ends at the first colon.
pub open spec fn is_custom_id(id: Seq<char>, key: Seq<char>, value: Option<Seq<char>>) -> bool {
    id == custom_id(key, value) && !key.contains(':')
}

/// What an optional text says.
pub open spec fn shown_text(s: Option<&str>) -> Option<Seq<char>> {
    match s {
        Some(s) => Some(s@),
        None => None,
    }
}

/// What an optional text says.
pub open spec fn shown_string(s: Option<String>) -> Option<Seq<char>> {
    match s {
        Some(s) => Some(s@),
        None => None,
    }
}

/// Split a custom ID into its key and value
pub fn split_custom_id<'a>(id: &'a str) -> (r: (&'a str, Option<&'a str>))
    ensures
        is_custom_id(id@, r.0@, shown_text(r.1)),
{
    match split_once(id, ':') {
        Some((key, value)) => (key, Some(value)),
        None => (id, None),
    }
}

/// Put a custom ID together
pub fn join_custom_id(key: &str, value: Option<&str>) -> (r: String)
    ensures
        r@ == custom_id(key@, shown_text(value)),
{
    match value {
        Some(value) => {
            let id = key.to_owned().concat(":").concat(value);
            proof {
                reveal_strlit(":");
                assert(id@ =~= key@.push(':') + value@);
            }
            id
        }
        None => key.to_owned(),
    }
}

/// A custom ID has one key and one value.
pub proof fn custom_ids_split_one_way(
    id: Seq<char>,
    key_a: Seq<char>,
    value_a: Option<Seq<char>>,
    key_b: Seq<char>,
    value_b: Option<Seq<char>>,
)
    requires
        is_custom_id(id, key_a, value_a),
        is_custom_id(id, key_b, value_b),
    ensures
        key_a == key_b,
        value_a == value_b,
{
    if value_a is Some {
        assert(id[key_a.len() as int] == ':');
        assert(id.contains(':'));
    }
    if value_b is Some {
        assert(id[key_b.len() as int] == ':');
        assert(id.contains(':'));
    }
    if value_a is Some && value_b is Some {
        if key_a.len() < key_b.len() {
            assert(key_b[key_a.len() as int] == id[key_a.len() as int]);
            assert(key_b.contains(':'));
        }
        if key_b.len() < key_a.len() {
            assert(key_a[key_b.len() as int] == id[key_b.len() as int]);
            assert(key_a.contains(':'));
        }
        assert(key_a =~= id.take(key_a.len() as int));
        assert(key_b =~= id.take(key_b.len() as int));
        assert(value_a->0 =~= id.skip(key_a.len() as int + 1));
        assert(value_b->0 =~= id.skip(key_b.len() as int + 1));
    }
}

/// The error of a form whose custom ID would be too long
pub const CUSTOM_ID_TOO_LONG_MESSAGE: &'static str = "Tried to create a custom ID longer than ";

/// What is done when a component of a message is used
#[derive(Debug)]
pub enum ComponentResponse {
    /// Open the registration form with this custom ID
    OpenModal { custom_id: String },
    /// The custom ID of the form would be too long
    CustomIdTooLong,
    /// The component is not one of ours
    Unknown,
}

/// The custom ID of the registration form that a register button opens: the form has the store of the button.
pub open spec fn modal_id(store: Option<Seq<char>>) -> Seq<char> {
    custom_id(REGISTER_MODAL_ID@, store)
}

/// What is done when a component of a message is used
pub fn component_response(component_id: &str) -> (r: ComponentResponse)
    ensures
        exists|key: Seq<char>, store: Option<Seq<char>>| #[trigger]
            is_custom_id(component_id@, key, store) && {
                &&& r is Unknown <==> key != REGISTER_BUTTON_ID@
                &&& r is OpenModal <==> key == REGISTER_BUTTON_ID@ && encode_utf8(modal_id(store)).len()
                    <= CUSTOM_ID_CHARACTER_LIMIT
                &&& r matches ComponentResponse::OpenModal { custom_id } ==> custom_id@ == modal_id(store)
            },
{
    let (key, store) = split_custom_id(component_id);
    proof {
        assert(is_custom_id(component_id@, key@, shown_text(store)));
    }
    if !str_equals(key, REGISTER_BUTTON_ID) {
        return ComponentResponse::Unknown;
    }
    // proxy the store from the register button into the modal
    let custom_id = join_custom_id(REGISTER_MODAL_ID, store);
    let bytes = custom_id.as_str().as_bytes();
    if bytes.len() <= CUSTOM_ID_CHARACTER_LIMIT {
        ComponentResponse::OpenModal { custom_id }
    } else {
        ComponentResponse::CustomIdTooLong
    }
}

/// What is done when a form is submitted
#[derive(Debug)]
pub enum ModalResponse {
    /// Register a license at this store, or at the default store for a legacy button
    Register { jinxxy_user_id: Option<String> },
    /// The form is not one of ours
    Unknown,
}

/// What is done when a form is submitted
pub fn modal_response(form_id: &str) -> (r: ModalResponse)
    ensures
        exists|key: Seq<char>, store: Option<Seq<char>>| #[trigger]
            is_custom_id(form_id@, key, store) && {
                &&& r is Unknown <==> key != REGISTER_MODAL_ID@
                &&& r matches ModalResponse::Register { jinxxy_user_id } ==> shown_string(jinxxy_user_id) == store
            },
{
    let (key, store) = split_custom_id(form_id);
    proof {
        assert(is_custom_id(form_id@, key@, shown_text(store)));
    }
    if !str_equals(key, REGISTER_MODAL_ID) {
        return ModalResponse::Unknown;
    }
    let jinxxy_user_id = match store {
        Some(store) => Some(store.to_owned()),
        None => None,
    };
    ModalResponse::Register { jinxxy_user_id }
}

/// The store of a register button is the store of the form that it opens.
pub proof fn form_has_the_store_of_its_button(store: Option<Seq<char>>, key: Seq<char>, form_store: Option<Seq<char>>)
    requires
        is_custom_id(modal_id(store), key, form_store),
    ensures
        key == REGISTER_MODAL_ID@,
        form_store == store,
{
    reveal_strlit("jinx_register_modal");
    custom_ids_split_one_way(modal_id(store), REGISTER_MODAL_ID@, store, key, form_store);
}

/// What is done about a message
#[derive(Debug)]
pub enum MessageResponse {
    /// Nothing
    Ignore,
    /// Reply with a text, or else with a reaction
    Reply { text: String, fallback: Option<char> },
    /// React to it
    React(char),
}

/// What is said to somebody who sends a direct message
pub const DIRECT_MESSAGE_REPLY: &'static str =
    "Jinx is a Discord bot that grants roles to users when they register Jinxxy license keys. It does not work from DMs: it needs to be set up in a server.\nFor documentation, see <https://github.com/zkxs/jinx>\nFor support, join https://discord.gg/aKkA6m26f9";

/// What is done about a direct message: a bot is not answered
pub fn direct_message_response(author_is_bot: bool) -> (r: MessageResponse)
    ensures
        author_is_bot ==> r is Ignore,
        !author_is_bot ==> (r matches MessageResponse::Reply { text, fallback } && text@ == DIRECT_MESSAGE_REPLY@
            && fallback is None),
{
    if author_is_bot {
        MessageResponse::Ignore
    } else {
        MessageResponse::Reply { text: DIRECT_MESSAGE_REPLY.to_owned(), fallback: None }
    }
}

/// Whether a response is the one to a mention, given what was found in the message. Easter eggs are for bot
/// owners only.
pub open spec fn answers_mention(r: MessageResponse, is_owner: bool, first_egg: bool, second_egg: bool) -> bool {
    if is_owner && first_egg {
        r matches MessageResponse::Reply { text, fallback } && text@ == "no, you! 😳"@ && fallback == Some('😳')
    } else if is_owner && second_egg {
        r matches MessageResponse::Reply { text, fallback } && text@ == "…you are… 😩"@ && fallback == Some('😩')
    } else {
        r == MessageResponse::React('👀')
    }
}

/// What is done about a mention, given what was found in the message
pub fn mention_response_to(is_owner: bool, first_egg: bool, second_egg: bool) -> (r: MessageResponse)
    ensures
        answers_mention(r, is_owner, first_egg, second_egg),
{
    if is_owner && first_egg {
        MessageResponse::Reply { text: "no, you! 😳".to_owned(), fallback: Some('😳') }
    } else if is_owner && second_egg {
        MessageResponse::Reply { text: "…you are… 😩".to_owned(), fallback: Some('😩') }
    } else {
        // if anyone mentions the bot otherwise, then try and add a reaction
        MessageResponse::React('👀')
    }
}

/// What is done about a mention
pub fn mention_response(author_is_bot: bool, author_is_owner: bool, content: &str) -> (r: MessageResponse)
    ensures
        answers_mention(
            r,
            !author_is_bot && author_is_owner,
            regex_finds(EASTER_EGG_1_PATTERN@, content@),
            regex_finds(EASTER_EGG_2_PATTERN@, content@),
        ),
{
    let is_owner = !author_is_bot && author_is_owner;
    let first_egg = regex_is_match(EASTER_EGG_1_PATTERN, content);
    let second_egg = regex_is_match(EASTER_EGG_2_PATTERN, content);
    mention_response_to(is_owner, first_egg, second_egg)
}

/// What a user is told whose registration has gone wrong. The nonce is to find the log entry by.
pub fn registration_failure(safe_error: &str, nonce: u64) -> (r: Embed)
    ensures
        r@ == (EmbedView {
            title: "Registration Failure"@,
            description: "Caused by: "@ + safe_error@
                + "\n\nIf you report this to the bot developer, include error code `"@ + upper_hex(nonce as nat, 16)
                + "` in your report.\n\nBugs can be reported on [our GitHub](<https://github.com/zkxs/jinx/issues>) or in [our Discord](<https://discord.gg/aKkA6m26f9>)."@,
            colour: Some(Colour::Red),
        }),
{
    Embed::new(
        "Registration Failure",
        "Caused by: ".to_owned().concat(safe_error).concat(
            "\n\nIf you report this to the bot developer, include error code `",
        ).concat(u64_to_hex(nonce).as_str()).concat(
            "` in your report.\n\nBugs can be reported on [our GitHub](<https://github.com/zkxs/jinx/issues>) or in [our Discord](<https://discord.gg/aKkA6m26f9>).",
        ),
        Some(Colour::Red),
    )
}

/// Whether an error that a log channel answered with is of no interest: a guild owner has screwed up the channel
pub fn is_missing_access(status_code: Option<u16>) -> (r: bool)
    ensures
        r <==> status_code == Some(403u16),
{
    match status_code {
        Some(status_code) => status_code == 403,
        None => false,
    }
}

/// A register button is recognized, and its store is the one that it was made for.
pub proof fn button_has_its_store(store: Option<Seq<char>>, key: Seq<char>, button_store: Option<Seq<char>>)
    requires
        is_custom_id(custom_id(REGISTER_BUTTON_ID@, store), key, button_store),
    ensures
        key == REGISTER_BUTTON_ID@,
        button_store == store,
{
    reveal_strlit("jinx_register_button");
    custom_ids_split_one_way(custom_id(REGISTER_BUTTON_ID@, store), REGISTER_BUTTON_ID@, store, key, button_store);
}

} // verus!
