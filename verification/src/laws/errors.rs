//! Errors and requests

use super::texts::{ends_with, says, says_is_transitive, says_its_parts};
use crate::bot::cache::{key_validity_after, may_use_key, KeyUse};
use crate::cli_args::choose_discord_token;
use crate::error::JinxError;
use crate::http::gumroad::{
    verification_status, verify_url, GumroadError, HttpBody as GumroadBody, VerificationStatus,
};
use crate::http::jinxxy::api::{
    activation_url, activations_page_url, activations_url, license_url, licenses_url, me_url, product_url,
    products_page_url, JINXXY_BASE_URL,
};
use crate::http::jinxxy::{HttpBody, JinxxyError, JinxxyErrorResponse};
use crate::text::decimal;
use vstd::prelude::*;

verus! {

/// What a user sees of an error is its public part, and the full text has the private part too. Of what the database or
/// Discord said a user sees nothing.
pub proof fn users_see_the_public_part(error: JinxError, full: String, safe: String)
    requires
        call_ensures(JinxError::describe, (&error,), full),
        call_ensures(JinxError::safe_display, (&error,), safe),
    ensures
        error matches JinxError::Message(message) ==> full@ == message@ && safe@ == message@,
        error matches JinxError::Sensitive { public, private } ==> safe@ == public@ && says(full@, public@)
            && ends_with(
            full@,
            private@,
        ),
        error matches JinxError::Sqlite(e) ==> safe@ == "DB error"@ && ends_with(full@, e@),
        error matches JinxError::Serenity(e) ==> safe@ == "Discord API error"@ && ends_with(full@, e@),
        error is Jinxxy ==> safe@ == full@,
{
    match error {
        JinxError::Sensitive { public, private } => {
            says_its_parts(public@, ": "@);
            says_its_parts(public@ + ": "@, private@);
            says_is_transitive(full@, public@ + ": "@, public@);
        },
        JinxError::Sqlite(e) => {
            says_its_parts("DB error: "@, e@);
        },
        JinxError::Serenity(e) => {
            says_its_parts("Discord API error: "@, e@);
        },
        _ => {},
    }
}

/// Errors that are created have the parts that they were created from.
pub proof fn created_errors_have_their_parts(public: &str, private: &str, a: JinxError, b: JinxError)
    requires
        call_ensures(JinxError::new, (public,), a),
        call_ensures(JinxError::sensitive, (public, private), b),
    ensures
        a matches JinxError::Message(m) && m@ == public@,
        b matches JinxError::Sensitive { public: p, private: q } && p@ == public@ && q@ == private@,
{
}

/// An API key is invalid exactly when Jinxxy answers with a 401 or a 403, however it explains that.
pub proof fn refused_keys_are_invalid(error: JinxError, jinxxy: JinxxyError, r: bool, inner: bool)
    requires
        call_ensures(JinxError::is_api_key_invalid, (&error,), r),
        call_ensures(JinxxyError::is_api_key_invalid, (&jinxxy,), inner),
    ensures
        inner <==> (jinxxy matches JinxxyError::HttpResponse(response) && (response.status_code == 401
            || response.status_code == 403)),
        error == JinxError::Jinxxy(jinxxy) ==> r == inner,
        !(error is Jinxxy) ==> !r,
{
}

/// A key is found invalid by the background job alone, if Jinxxy refuses it, and valid again by a load that somebody
/// waits for, if it succeeds. A key that was found invalid is not used in the background.
pub proof fn keys_are_found_invalid_and_valid(
    error: JinxError,
    failed: Option<bool>,
    succeeded: Option<bool>,
    late: Option<bool>,
    early: Option<bool>,
    usable: bool,
)
    requires
        call_ensures(key_validity_after, (KeyUse::Background, Some(&error)), failed),
        call_ensures(key_validity_after, (KeyUse::HighPriority, None), succeeded),
        call_ensures(key_validity_after, (KeyUse::HighPriority, Some(&error)), late),
        call_ensures(key_validity_after, (KeyUse::Background, None), early),
        call_ensures(may_use_key, (KeyUse::Background, false), usable),
    ensures
        failed == (if error matches JinxError::Jinxxy(JinxxyError::HttpResponse(response))
            && (response.status_code == 401
            || response.status_code == 403) {
            Some(false)
        } else {
            None
        }),
        succeeded == Some(true),
        late is None,
        early is None,
        !usable,
{
}

/// A key may be used if it is valid, and for a load that somebody waits for in any case.
pub proof fn valid_keys_may_be_used(key_use: KeyUse, valid: bool, r: bool)
    requires
        call_ensures(may_use_key, (key_use, valid), r),
    ensures
        valid ==> r,
        key_use is HighPriority ==> r,
        key_use is Background && !valid ==> !r,
{
}

/// An error from a response has what was received: an explanation if there is one, else the bytes, or what went wrong
/// reading them.
pub proof fn responses_are_kept(
    endpoint: &str,
    status_code: u16,
    headers: String,
    body: Result<Vec<u8>, String>,
    explanation: Option<JinxxyErrorResponse>,
    r: JinxxyError,
)
    requires
        call_ensures(JinxxyError::from_response, (endpoint, status_code, headers, body, explanation), r),
    ensures
        r matches JinxxyError::HttpResponse(response) && response.endpoint@ == endpoint@ && response.status_code
            == status_code && response.headers == headers && (body matches Err(e) ==> response.body
            == HttpBody::ReadError(e)) && (body matches Ok(bytes) ==> (explanation matches Some(json) ==> response.body
            == HttpBody::JsonErrorResponse(json))) && (body matches Ok(bytes) ==> (explanation is None ==> response.body
            == HttpBody::UnknownErrorResponse(bytes))),
{
}

/// What Gumroad says of a license is in the body of a success. A 404 means that there is none, and anything else is an
/// error.
pub proof fn gumroad_answers_are_told_apart(status_code: u16, r: VerificationStatus)
    requires
        call_ensures(verification_status, (status_code,), r),
    ensures
        r is ReadBody <==> 200 <= status_code <= 299,
        r is NotValid <==> status_code == 404,
        r is Error <==> !(200 <= status_code <= 299) && status_code != 404,
{
}

/// Gumroad is asked about the product and the key, without counting that as a use.
pub proof fn gumroad_is_asked_about_the_key(product_id: &str, license_key: &str, url: String)
    requires
        call_ensures(verify_url, (product_id, license_key), url),
    ensures
        says(url@, "product_id="@ + product_id@),
        says(url@, "&license_key="@ + license_key@),
        ends_with(url@, "&increment_uses_count=false"@),
{
    reveal_strlit("https://api.gumroad.com/v2/licenses/verify?product_id=");
    reveal_strlit("product_id=");
    let start = "https://api.gumroad.com/v2/licenses/verify?product_id="@;
    let name = "product_id="@;
    let n = start.len() - name.len();
    let a = start + product_id@;
    let b = a + "&license_key="@ + license_key@;
    assert(start.skip(n) =~= name);
    assert(a =~= start.take(n) + (name + product_id@));
    says_its_parts(start.take(n), name + product_id@);
    assert(b =~= a + ("&license_key="@ + license_key@));
    says_its_parts(a, "&license_key="@ + license_key@);
    says_its_parts(b, "&increment_uses_count=false"@);
    says_is_transitive(url@, b, "&license_key="@ + license_key@);
    says_is_transitive(url@, b, a);
    says_is_transitive(url@, a, name + product_id@);
}

/// Everything at Jinxxy is below one address. What belongs to a license is below that license, and a page has a hundred
/// entries.
pub proof fn addresses_are_below_each_other(
    license_id: &str,
    activation_id: &str,
    product_id: &str,
    page: u32,
    me: String,
    licenses: String,
    license: String,
    activations: String,
    activations_page: String,
    activation: String,
    product: String,
    products: String,
)
    requires
        call_ensures(me_url, (), me),
        call_ensures(licenses_url, (), licenses),
        call_ensures(license_url, (license_id,), license),
        call_ensures(activations_url, (license_id,), activations),
        call_ensures(activations_page_url, (license_id,), activations_page),
        call_ensures(activation_url, (license_id, activation_id), activation),
        call_ensures(product_url, (product_id,), product),
        call_ensures(products_page_url, (page,), products),
    ensures
        ends_with(me@, "me"@),
        ends_with(licenses@, "licenses"@),
        ends_with(license@, "licenses/"@ + license_id@),
        activations@ == license@ + "/activations"@,
        activations_page@ == activations@ + "?limit="@ + decimal(100),
        activation@ == activations@ + "/"@ + activation_id@,
        ends_with(product@, "products/"@ + product_id@),
        ends_with(products@, "products?limit="@ + decimal(100) + "&page="@ + decimal(page as nat)),
{
    let base = JINXXY_BASE_URL@;
    says_its_parts(base, "me"@);
    says_its_parts(base, "licenses"@);
    assert(license@ =~= base + ("licenses/"@ + license_id@));
    says_its_parts(base, "licenses/"@ + license_id@);
    assert(product@ =~= base + ("products/"@ + product_id@));
    says_its_parts(base, "products/"@ + product_id@);
    let end = "products?limit="@ + decimal(100) + "&page="@ + decimal(page as nat);
    assert(products@ =~= base + end);
    says_its_parts(base, end);
}

/// The token of the command line counts, and else that of the environment.
pub proof fn the_command_line_counts_first(argument: Option<String>, environment: Option<String>, r: Option<String>)
    requires
        call_ensures(choose_discord_token, (argument, environment), r),
    ensures
        argument is Some ==> r == argument,
        argument is None ==> r == environment,
{
}

/// What is told of an error from Jinxxy depends on its kind, and gives nothing away of the request or the response.
pub proof fn jinxxy_errors_are_told_by_kind(a: JinxxyError, b: JinxxyError, x: String, y: String)
    requires
        call_ensures(JinxxyError::describe, (&a,), x),
        call_ensures(JinxxyError::describe, (&b,), y),
    ensures
        a is HttpResponse && b is HttpResponse ==> x@ == y@,
        a is HttpRequest && b is HttpRequest ==> x@ == y@,
        a is HttpRead && b is HttpRead ==> x@ == y@,
        a is JsonDeserialize && b is JsonDeserialize ==> x@ == y@,
        a matches JinxxyError::Join(e) ==> ends_with(x@, e@),
        a matches JinxxyError::UnsupportedPagination(nonce) ==> ends_with(x@, decimal(nonce as nat)),
{
    if let JinxxyError::Join(e) = a {
        says_its_parts("parallel task join failed: "@, e@);
    }
    if let JinxxyError::UnsupportedPagination(nonce) = a {
        says_its_parts("unsupported pagination: "@, decimal(nonce as nat));
    }
}

/// Errors from Gumroad have what went wrong.
pub proof fn gumroad_errors_have_causes(
    status_code: u16,
    headers: String,
    body: Result<Vec<u8>, String>,
    cause: String,
    response: GumroadError,
    request: GumroadError,
    read: GumroadError,
    json: GumroadError,
)
    requires
        call_ensures(GumroadError::from_response, (status_code, headers, body), response),
        call_ensures(GumroadError::from_request, (cause,), request),
        call_ensures(GumroadError::from_read, (cause,), read),
        call_ensures(GumroadError::from_json, (cause,), json),
    ensures
        response matches GumroadError::HttpResponse(r) && r.status_code == status_code && r.headers == headers && (
        body matches Ok(bytes) ==> r.body == GumroadBody::UnknownErrorResponse(bytes))
            && (body matches Err(e) ==> r.body
            == GumroadBody::ReadError(e)),
        request == GumroadError::HttpRequest(cause),
        read == GumroadError::HttpRead(cause),
        json == GumroadError::JsonDeserialize(cause),
{
}

} // verus!
