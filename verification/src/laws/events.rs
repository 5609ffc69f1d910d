//! Buttons, forms and messages, and the check for updates

use crate::bot::event_handler::{
    button_has_its_store, component_response, custom_id, direct_message_response, form_has_the_store_of_its_button,
    is_custom_id, is_missing_access, join_custom_id, mention_response_to, modal_id, modal_response, shown_string,
    shown_text, ComponentResponse, MessageResponse, ModalResponse, REGISTER_BUTTON_ID, REGISTER_MODAL_ID,
};
use crate::http::update_checker::{check_for_update, semantic_version, RemoteVersion, VersionCheck};
use vstd::prelude::*;
use vstd::utf8::encode_utf8;

verus! {

/// A register button opens a form, unless the ID of the form would be too long, and the form registers at the store
/// that the button was made for. A legacy button has no store, and neither has its form.
pub proof fn a_button_registers_at_its_store(
    key: &str,
    store: Option<&str>,
    button: String,
    component_id: &str,
    response: ComponentResponse,
    form_id: &str,
    submitted: ModalResponse,
)
    requires
        key@ == "jinx_register_button"@,
        call_ensures(join_custom_id, (key, store), button),
        component_id@ == button@,
        call_ensures(component_response, (component_id,), response),
        response matches ComponentResponse::OpenModal { custom_id } ==> form_id@ == custom_id@ && call_ensures(
            modal_response,
            (form_id,),
            submitted,
        ),
    ensures
        !(response is Unknown),
        response matches ComponentResponse::OpenModal { custom_id } ==> encode_utf8(custom_id@).len() <= 100,
        response is OpenModal ==> (submitted matches ModalResponse::Register { jinxxy_user_id } && (store is Some
            <==> jinxxy_user_id is Some) && (store is Some ==> jinxxy_user_id->0@ == store->0@)),
        response is CustomIdTooLong ==> encode_utf8(
            match store {
                Some(store) => "jinx_register_modal"@.push(':') + store@,
                None => "jinx_register_modal"@,
            },
        ).len() > 100,
{
    let (found, found_store) = choose|k: Seq<char>, s: Option<Seq<char>>| #[trigger]
        is_custom_id(component_id@, k, s) && {
            &&& response is Unknown <==> k != REGISTER_BUTTON_ID@
            &&& response is OpenModal <==> k == REGISTER_BUTTON_ID@ && encode_utf8(modal_id(s)).len() <= 100
            &&& response matches ComponentResponse::OpenModal { custom_id } ==> custom_id@ == modal_id(s)
        };
    button_has_its_store(shown_text(store), found, found_store);
    if response is OpenModal {
        let (form_key, form_store) = choose|k: Seq<char>, s: Option<Seq<char>>| #[trigger]
            is_custom_id(form_id@, k, s) && {
                &&& submitted is Unknown <==> k != REGISTER_MODAL_ID@
                &&& submitted matches ModalResponse::Register { jinxxy_user_id } ==> shown_string(jinxxy_user_id) == s
            };
        form_has_the_store_of_its_button(shown_text(store), form_key, form_store);
    }
}

/// A direct message is answered, unless a bot has sent it.
pub proof fn direct_messages_are_answered(author_is_bot: bool, r: MessageResponse)
    requires
        call_ensures(direct_message_response, (author_is_bot,), r),
    ensures
        r is Ignore <==> author_is_bot,
        r is Reply <==> !author_is_bot,
{
}

/// Only an owner of the bot is ever talked back to. Anybody else gets a reaction.
pub proof fn only_owners_are_talked_back_to(is_owner: bool, first_egg: bool, second_egg: bool, r: MessageResponse)
    requires
        call_ensures(mention_response_to, (is_owner, first_egg, second_egg), r),
    ensures
        r is Reply <==> is_owner && (first_egg || second_egg),
        !(r is Reply) ==> r == MessageResponse::React('👀'),
        is_owner && first_egg ==> r->Reply_fallback == Some('😳'),
        is_owner && !first_egg && second_egg ==> r->Reply_fallback == Some('😩'),
{
}

/// Only a 403 says that a channel is out of bounds.
pub proof fn only_403_is_missing_access(status_code: Option<u16>, r: bool)
    requires
        call_ensures(is_missing_access, (status_code,), r),
    ensures
        r <==> status_code == Some(403u16),
{
}

/// The bot is outdated if the latest release has bigger numbers, the more significant ones counting first, and ahead of
/// it if they are smaller. It is up to date with a release of its own version.
pub proof fn bigger_numbers_are_newer(local: &str, remote: RemoteVersion, r: VersionCheck)
    requires
        call_ensures(check_for_update, (local, Some(remote)), r),
    ensures
        semantic_version(remote.version@) is None ==> r == VersionCheck::BadRemote(remote),
        semantic_version(remote.version@) is Some && semantic_version(local@) is None ==> r == VersionCheck::BadLocal(
            remote,
        ),
        semantic_version(remote.version@) is Some && semantic_version(local@) is Some ==> {
            let a = semantic_version(remote.version@)->0;
            let b = semantic_version(local@)->0;
            &&& a.major > b.major || a.major == b.major && (a.minor > b.minor || a.minor == b.minor && a.patch
                > b.patch) ==> r == VersionCheck::Outdated(remote)
            &&& a.major < b.major || a.major == b.major && (a.minor < b.minor || a.minor == b.minor && a.patch
                < b.patch) ==> r == VersionCheck::Future(remote)
            &&& remote.version@ == local@ ==> r is Current
        },
{
}

/// Without an answer about the latest release nothing is known.
pub proof fn no_release_is_unknown(local: &str, r: VersionCheck)
    requires
        call_ensures(check_for_update, (local, None), r),
    ensures
        r is UnknownRemote,
{
}

/// An outdated version is warned about. Whatever else is not up to date is an error.
pub proof fn checks_are_graded(check: VersionCheck, warn: bool, error: bool)
    requires
        call_ensures(VersionCheck::is_warn, (&check,), warn),
        call_ensures(VersionCheck::is_error, (&check,), error),
    ensures
        warn <==> check is Outdated,
        !warn && !error <==> check is Current,
        !(warn && error),
{
}

} // verus!
