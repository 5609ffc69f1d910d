//! The small functions that everything else is built from

use super::texts::{
    chained, chained_of_one, chained_of_push, chained_says, ends_with, mentions_role, says, says_in_concatenation,
    says_its_parts,
};
use crate::bot::cache::contains_text;
use crate::bot::commands::link_form::product_select_max;
use crate::bot::commands::links::{wildcard_role_set, wildcard_role_unset};
use crate::bot::error_handler::CommandFailure;
use crate::bot::event_handler::{mention_response, registration_failure, split_custom_id, MessageResponse};
use crate::bot::message::{mention_channel, mention_role, mention_user, role_mention, Colour, Embed};
use crate::bot::registration::{find_license_key, InputField, Registration, RegistrationRequest};
use crate::bot::util::{contains_id, cut_text, error_reply, highest_mentionable_role, success_reply, GuildRole};
use crate::constants::{clap_version, discord_bot_version, user_agent, PACKAGE_NAME, PACKAGE_REPOSITORY};
use crate::http::jinxxy::{JinxxyError, LicenseList, ProductVersionId};
use crate::license::{identify_license, LicenseType};
use crate::text::{bool_to_string, decimal, ends_with_char, trimmed, upper_hex};
use crate::time::SimpleTime;
use vstd::prelude::*;

verus! {

/// The license key of a form is what is in the first field for it that has more than whitespace in it.
pub proof fn the_first_key_is_found(fields: &[InputField], r: Option<&str>, i: int)
    requires
        call_ensures(find_license_key, (fields,), r),
    ensures
        0 <= i < fields@.len() && fields@[i].custom_id@ == "jinx_license_key_input"@ && (
        fields@[i].value matches Some(value) && trimmed(value@).len() > 0) ==> r is Some,
        0 <= i < fields@.len() && fields@[i].custom_id@ == "jinx_license_key_input"@ && (
        fields@[i].value matches Some(value) && trimmed(value@).len() > 0) && (forall|j: int|
            0 <= j < i ==> (#[trigger] fields@[j]).custom_id@ != "jinx_license_key_input"@) ==> r->0@ == trimmed(
            fields@[i].value->0@,
        ),
        (forall|j: int|
            0 <= j < fields@.len() ==> (#[trigger] fields@[j]).custom_id@ != "jinx_license_key_input"@
                || fields@[j].value is None || trimmed(fields@[j].value->0@).len() == 0) ==> r is None,
        r matches Some(key) ==> key@.len() > 0,
{
    if 0 <= i < fields@.len() && fields@[i].custom_id@ == "jinx_license_key_input"@ && (
    fields@[i].value matches Some(value) && trimmed(value@).len() > 0) {
        assert(crate::bot::registration::holds_license_key(fields@[i]));
        if r is Some {
            let k = choose|k: int|
                0 <= k < fields@.len() && crate::bot::registration::holds_license_key(#[trigger] fields@[k]) && r->0@
                    == trimmed(fields@[k].value->0@) && forall|j: int|
                    0 <= j < k ==> !crate::bot::registration::holds_license_key(#[trigger] fields@[j]);
            assert(k <= i);
            assert(fields@[k].custom_id@ == "jinx_license_key_input"@);
        }
    }
    if forall|j: int|
        0 <= j < fields@.len() ==> (#[trigger] fields@[j]).custom_id@ != "jinx_license_key_input"@ || fields@[j].value is None
            || trimmed(fields@[j].value->0@).len() == 0 {
        assert forall|j: int| 0 <= j < fields@.len() implies !crate::bot::registration::holds_license_key(
            #[trigger] fields@[j],
        ) by {
            assert(fields@[j].custom_id@ != "jinx_license_key_input"@ || fields@[j].value is None || trimmed(
                fields@[j].value->0@,
            ).len() == 0);
        }
    }
}

/// A registration starts with the key without the whitespace around it, and with what that looks like. Without a key the
/// user is told so.
pub proof fn registrations_start_with_the_key(
    request: RegistrationRequest,
    r: Registration,
    text: &str,
    license_type: LicenseType,
)
    requires
        call_ensures(Registration::start, (request,), r),
        text@ == r.license_key@,
        call_ensures(identify_license, (text,), license_type),
    ensures
        r.license_type == license_type,
        request.license_key matches Some(key) ==> r.license_key@ == trimmed(key@),
        r.stage is NotifyMissingKey <==> (request.license_key matches Some(key) ==> trimmed(key@).len() == 0),
{
}

/// The highest role that can be mentioned is above all others that can be, and the one with the smaller ID of two at the
/// same position. There is none exactly when no role can be mentioned.
pub proof fn the_highest_role_is_mentioned(roles: &[GuildRole], r: Option<u64>, j: int)
    requires
        call_ensures(highest_mentionable_role, (roles,), r),
    ensures
        r matches Some(role_id) ==> exists|i: int|
            0 <= i < roles@.len() && (#[trigger] roles@[i]).mentionable && roles@[i].role_id == role_id && (0 <= j
                < roles@.len() && roles@[j].mentionable ==> roles@[i].position > roles@[j].position || (
            roles@[i].position == roles@[j].position && roles@[i].role_id <= roles@[j].role_id)),
{
    if let Some(role_id) = r {
        let i = choose|i: int|
            {
                &&& 0 <= i < roles@.len()
                &&& (#[trigger] roles@[i]).mentionable
                &&& roles@[i].role_id == role_id
                &&& forall|j: int|
                    0 <= j < roles@.len() && (#[trigger] roles@[j]).mentionable ==> !crate::bot::util::is_above(
                        roles@[j],
                        roles@[i],
                    )
            };
        assert(roles@[i].mentionable);
        if 0 <= j < roles@.len() && roles@[j].mentionable {
            assert(!crate::bot::util::is_above(roles@[j], roles@[i]));
        }
    }
}

/// There is a role to mention as soon as one can be mentioned.
pub proof fn some_role_is_mentioned(roles: &[GuildRole], r: Option<u64>, j: int)
    requires
        call_ensures(highest_mentionable_role, (roles,), r),
        0 <= j < roles@.len(),
        roles@[j].mentionable,
    ensures
        r is Some,
{
    assert(crate::bot::util::has_mentionable(roles@));
}

/// Mentions are written as Discord reads them.
pub proof fn mentions_are_readable(id: u64, user: String, role: String, channel: String)
    requires
        call_ensures(mention_user, (id,), user),
        call_ensures(mention_role, (id,), role),
        call_ensures(mention_channel, (id,), channel),
    ensures
        user@ == "<@"@ + decimal(id as nat) + ">"@,
        role@ == "<@&"@ + decimal(id as nat) + ">"@,
        channel@ == "<#"@ + decimal(id as nat) + ">"@,
{
}

/// The time between two times is their difference, or nothing if the later one is not later. It is read from the clock
/// as whole milliseconds, which wrap, or as the epoch.
pub proof fn times_differ_by_their_milliseconds(
    a: SimpleTime,
    b: SimpleTime,
    r: u64,
    reading: Option<u128>,
    c: SimpleTime,
)
    requires
        call_ensures(SimpleTime::duration_since, (&b, a), r),
        call_ensures(SimpleTime::from_clock, (reading,), c),
    ensures
        b.unix_millis >= a.unix_millis ==> r == b.unix_millis - a.unix_millis,
        b.unix_millis < a.unix_millis ==> r == 0,
        reading is None ==> c.unix_millis == 0,
        reading matches Some(millis) ==> c.unix_millis as int == millis as int % 0x1_0000_0000_0000_0000,
{
}

/// What is found among others is among them.
pub proof fn membership_is_found(ids: &[u64], id: u64, texts: &[String], text: &str, a: bool, b: bool)
    requires
        call_ensures(contains_id, (ids, id), a),
        call_ensures(contains_text, (texts, text), b),
    ensures
        a <==> exists|i: int| 0 <= i < ids@.len() && #[trigger] ids@[i] == id,
        b <==> exists|i: int| 0 <= i < texts@.len() && (#[trigger] texts@[i])@ == text@,
{
    let views = texts@.map_values(|t: String| t@);
    if b {
        let i = choose|i: int| 0 <= i < views.len() && views[i] == text@;
        assert(texts@[i]@ == text@);
    }
    if exists|i: int| 0 <= i < texts@.len() && (#[trigger] texts@[i])@ == text@ {
        let i = choose|i: int| 0 <= i < texts@.len() && (#[trigger] texts@[i])@ == text@;
        assert(views[i] == text@);
    }
}

/// A text is cut to as many characters as are allowed, from its start, and a shorter one is left as it is.
pub proof fn texts_are_cut(text: &str, max: usize, r: String)
    requires
        call_ensures(cut_text, (text, max), r),
    ensures
        text@.len() <= max ==> r@ == text@,
        text@.len() > max ==> r@ == text@.take(max as int),
{
}

/// Truth values have words, and texts have last characters.
pub proof fn words_and_last_characters(b: bool, word: String, text: &str, c: char, r: bool)
    requires
        call_ensures(bool_to_string, (b,), word),
        call_ensures(ends_with_char, (text, c), r),
    ensures
        b ==> word@ == "true"@,
        !b ==> word@ == "false"@,
        r <==> text@.len() > 0 && text@[text@.len() - 1] == c,
{
}

/// Successes are green and errors red, with the given title and message.
pub proof fn replies_are_coloured(title: &str, message: String, good: Embed, bad: Embed)
    requires
        call_ensures(success_reply, (title, message), good),
        call_ensures(error_reply, (title, message), bad),
    ensures
        good.title@ == title@ && good.description@ == message@ && good.colour == Some(Colour::DarkGreen),
        bad.title@ == title@ && bad.description@ == message@ && bad.colour == Some(Colour::Red),
{
    assert(good.title@ == good@.title && good.description@ == good@.description && good.colour == good@.colour);
    assert(bad.title@ == bad@.title && bad.description@ == bad@.description && bad.colour == bad@.colour);
}

/// A wildcard role is mentioned when it was set.
pub proof fn wildcard_roles_are_mentioned(role_id: u64, r: Embed, unset: Embed)
    requires
        call_ensures(wildcard_role_set, (role_id,), r),
        call_ensures(wildcard_role_unset, (), unset),
    ensures
        mentions_role(r.description@, role_id),
        r.title@ == "Wildcard Set Successful"@,
        unset.title@ == "Wildcard Unset Successful"@,
{
    assert(r.description@ == r@.description);
    assert(r.title@ == r@.title);
    assert(unset.title@ == unset@.title);
    says_its_parts("Any product will now grant "@, role_mention(role_id));
}

/// A failure is told with the code to find it by in the log: sixteen hexadecimal digits.
pub proof fn failures_have_codes(failure: CommandFailure, nonce: u64, error: &str, reply: Embed, notice: Embed)
    requires
        call_ensures(CommandFailure::reply, (&failure, nonce), reply),
        call_ensures(registration_failure, (error, nonce), notice),
    ensures
        says(reply.description@, upper_hex(nonce as nat, 16)),
        ends_with(reply.title@, " Error"@),
        reply.colour == Some(Colour::Red),
        says(notice.description@, upper_hex(nonce as nat, 16)),
        says(notice.description@, error@),
        notice.colour == Some(Colour::Red),
{
    assert(reply.description@ == reply@.description);
    assert(reply.title@ == reply@.title);
    assert(reply.colour == reply@.colour);
    assert(notice.description@ == notice@.description);
    assert(notice.colour == notice@.colour);
    let code = upper_hex(nonce as nat, 16);
    let a = "An unexpected error has occurred. Please report this to the bot developer with error code `"@;
    says_its_parts(a, code);
    says_in_concatenation(
        a + code,
        "`\n\nBugs can be reported on [our GitHub](<https://github.com/zkxs/jinx/issues>) or in [our Discord](<https://discord.gg/aKkA6m26f9>)."@,
        code,
    );
    says_its_parts(crate::bot::error_handler::failure_title(failure), " Error"@);
    let b = "Caused by: "@ + error@;
    let c = b + "\n\nIf you report this to the bot developer, include error code `"@;
    let end = "` in your report.\n\nBugs can be reported on [our GitHub](<https://github.com/zkxs/jinx/issues>) or in [our Discord](<https://discord.gg/aKkA6m26f9>)."@;
    says_its_parts("Caused by: "@, error@);
    says_in_concatenation(b, "\n\nIf you report this to the bot developer, include error code `"@, error@);
    says_its_parts(c, code);
    says_in_concatenation(c, code, error@);
    says_in_concatenation(c + code, end, error@);
    says_in_concatenation(c + code, end, code);
}

/// Nobody but an owner of the bot is talked back to when the bot is mentioned, and no bot is.
pub proof fn mentions_by_others_get_a_reaction(
    author_is_bot: bool,
    author_is_owner: bool,
    content: &str,
    r: MessageResponse,
)
    requires
        call_ensures(mention_response, (author_is_bot, author_is_owner, content), r),
        author_is_bot || !author_is_owner,
    ensures
        r == MessageResponse::React('👀'),
{
}

/// A custom ID is split at its first colon, and put together again it is the same.
pub proof fn custom_ids_are_split_at_the_first_colon(id: &str, r: (&str, Option<&str>))
    requires
        call_ensures(split_custom_id, (id,), r),
    ensures
        !r.0@.contains(':'),
        r.1 is None ==> id@ == r.0@,
        r.1 is Some ==> id@ == r.0@.push(':') + r.1->0@,
        r.1 is None ==> !id@.contains(':'),
{
}

/// The first of the licenses that were found is the one that is meant.
pub proof fn the_first_license_is_meant(list: LicenseList, r: Option<String>)
    requires
        call_ensures(LicenseList::into_license_id, (list,), r),
    ensures
        list.results@.len() == 0 <==> r is None,
        list.results@.len() > 0 ==> r == Some(list.results@[0].id),
{
}

/// Errors have what went wrong, and where.
pub proof fn errors_have_causes(
    endpoint: &str,
    cause: String,
    request: JinxxyError,
    read: JinxxyError,
    json: JinxxyError,
    join: JinxxyError,
)
    requires
        call_ensures(JinxxyError::from_request, (endpoint, cause), request),
        call_ensures(JinxxyError::from_read, (endpoint, cause), read),
        call_ensures(JinxxyError::from_json, (cause,), json),
        call_ensures(JinxxyError::from_join, (cause,), join),
    ensures
        request matches JinxxyError::HttpRequest { endpoint: e, error } && e@ == endpoint@ && error == cause,
        read matches JinxxyError::HttpRead { endpoint: e, error } && e@ == endpoint@ && error == cause,
        json == JinxxyError::JsonDeserialize(cause),
        join == JinxxyError::Join(cause),
{
}

/// As many products can be selected as there are, up to twenty-five.
pub proof fn twenty_five_products_can_be_selected(count: usize, r: u8)
    requires
        call_ensures(product_select_max, (count,), r),
    ensures
        count <= 25 ==> r == count,
        count > 25 ==> r == 25,
{
}

/// Product versions are the same exactly when their products and their versions are, and a copy is the same.
pub proof fn product_versions_are_compared(
    a: ProductVersionId,
    b: ProductVersionId,
    same: bool,
    copy: ProductVersionId,
    text: &str,
    of_product: ProductVersionId,
)
    requires
        call_ensures(ProductVersionId::same, (&a, &b), same),
        call_ensures(ProductVersionId::copied, (&a,), copy),
        call_ensures(ProductVersionId::from_product_id, (text,), of_product),
    ensures
        same <==> a.product_id@ == b.product_id@
            && (a.product_version_id is None <==> b.product_version_id is None) && (
        a.product_version_id is Some && b.product_version_id is Some ==> a.product_version_id->0@
            == b.product_version_id->0@),
        copy == a,
        of_product.product_id@ == text@,
        of_product.product_version_id is None,
{
    assert(a@.product_id == a.product_id@);
    assert(b@.product_id == b.product_id@);
    assert(of_product@.product_id == of_product.product_id@);
    assert(of_product@.product_version_id is None);
    if a@ == b@ {
        assert(a@.product_version_id == b@.product_version_id);
    }
    if a.product_id@ == b.product_id@ && (a.product_version_id is None <==> b.product_version_id is None) && (
    a.product_version_id is Some && b.product_version_id is Some ==> a.product_version_id->0@
        == b.product_version_id->0@) {
        assert(a@.product_version_id == b@.product_version_id);
        assert(a@ == b@);
    }
}

/// Every failure of a command has a title of its own.
pub proof fn failures_have_titles(failure: CommandFailure, title: String)
    requires
        call_ensures(CommandFailure::title, (&failure,), title),
    ensures
        failure is Command ==> title@ == "Command"@,
        failure is SubcommandRequired ==> title@ == "Subcommand required"@,
        failure is ArgumentParse ==> title@ == "Argument parse error"@,
        failure is CooldownHit ==> title@ == "Cooldown hit"@,
        failure is MissingBotPermissions ==> title@ == "Missing bot permissions"@,
        failure is MissingUserPermissions ==> title@ == "Missing user permissions"@,
        failure is NotAnOwner ==> title@ == "Not an owner"@,
        failure is GuildOnly ==> title@ == "Guild only"@,
        failure is DmOnly ==> title@ == "DM only"@,
        failure is NsfwOnly ==> title@ == "NSFW only"@,
        failure is CommandCheckFailed ==> title@ == "Command check failed"@,
{
}

/// Versions are shown with the commit that they were built from, and requests are sent under the name of the bot.
pub proof fn versions_are_shown(
    version: &str,
    commit: &str,
    authors: &str,
    command_line: String,
    discord: String,
    agent: String,
)
    requires
        call_ensures(clap_version, (version, commit, authors), command_line),
        call_ensures(discord_bot_version, (version, commit), discord),
        call_ensures(user_agent, (version,), agent),
    ensures
        says(command_line@, version@ + " commit "@),
        says(command_line@, " commit "@ + commit@),
        ends_with(command_line@, authors@),
        says(discord@, version@ + " commit "@),
        says(discord@, " commit "@ + commit@),
        says(agent@, "/"@ + version@),
{
    broadcast use {chained_of_push, chained_of_one};

    let a = Seq::<Seq<char>>::empty().push(version@).push(" commit "@).push(commit@).push(
        "\nCopyright 2025 jinx contributors\nLicense: GNU AGPL v3.0 or any later version\nWritten by: "@,
    );
    assert(command_line@ == chained(a.push(authors@)));
    chained_says(a.push(authors@), 0);
    chained_says(a.push(authors@), 1);
    says_its_parts(chained(a), authors@);
    let b = Seq::<Seq<char>>::empty().push(PACKAGE_NAME@).push(" "@).push(version@).push(" commit "@).push(commit@).push(
        "\nCopyright 2025 jinx contributors\nLicense: GNU AGPL v3.0 or any later version\n"@,
    ).push(PACKAGE_REPOSITORY@);
    assert(discord@ == chained(b));
    chained_says(b, 2);
    chained_says(b, 3);
    let c = Seq::<Seq<char>>::empty().push(PACKAGE_NAME@).push("/"@).push(version@).push(" "@).push(
        PACKAGE_REPOSITORY@,
    );
    assert(agent@ == chained(c));
    chained_says(c, 1);
}

} // verus!
