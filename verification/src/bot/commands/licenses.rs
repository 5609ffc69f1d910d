//! Commands about licenses

use crate::bot::event_handler::{custom_id, join_custom_id, REGISTER_BUTTON_ID};
use crate::bot::message::{channel_mention, mention_channel, mention_user, user_mention, Colour, Embed, EmbedView};
use crate::bot::util::{ascending, error_reply, sort_ascending, success_reply};
use crate::db::UserLicense;
use crate::http::jinxxy::{
    activation_user_id, activation_user_ids, possessive, profile_url_of, AuthUser, FullProduct, GetProfileImageUrl, GetProfileUrl,
    GetUsername, LicenseActivation, LicenseInfo, ProductVersion,
};
use crate::license::{only_activators_are_seen, validation, LOCKING_USER_ID};
use crate::text::{bool_text, bool_to_string, decimal, str_equals, u64_to_string};
use vstd::prelude::*;

verus! {

/// How many licenses were activated in some span of time
#[derive(Debug, Copy, Clone)]
pub struct ActivationCounts {
    pub day_7: u64,
    pub day_30: u64,
    pub day_90: u64,
    pub day_365: u64,
    pub lifetime: u64,
}

/// The counts, each on a line of its own.
pub open spec fn counts_text(counts: ActivationCounts) -> Seq<char> {
    "license activations (7d)="@ + decimal(counts.day_7 as nat) + "\nlicense activations (30d)="@ + decimal(
        counts.day_30 as nat,
    ) + "\nlicense activations (90d)="@ + decimal(counts.day_90 as nat) + "\nlicense activations (1yr)="@ + decimal(
        counts.day_365 as nat,
    ) + "\nlicense activations (lifetime)="@ + decimal(counts.lifetime as nat)
}

impl ActivationCounts {
    /// The counts, each on a line of its own
    pub fn describe(&self) -> (r: String)
        ensures
            r@ == counts_text(*self),
    {
        "license activations (7d)=".to_owned().concat(u64_to_string(self.day_7).as_str()).concat(
            "\nlicense activations (30d)=",
        ).concat(u64_to_string(self.day_30).as_str()).concat("\nlicense activations (90d)=").concat(
            u64_to_string(self.day_90).as_str(),
        ).concat("\nlicense activations (1yr)=").concat(u64_to_string(self.day_365).as_str()).concat(
            "\nlicense activations (lifetime)=",
        ).concat(u64_to_string(self.lifetime).as_str())
    }
}

/// Get statistics about license activations
pub fn stats(counts: &ActivationCounts, gumroad_failure_count: Option<u64>) -> (r: Embed)
    ensures
        r@ == (EmbedView {
            title: "Jinx Stats"@,
            description: counts_text(*counts) + "\ngumroad licenses rejected="@ + decimal(
                match gumroad_failure_count {
                    Some(count) => count as nat,
                    None => 0,
                },
            ),
            colour: None,
        }),
{
    let failures: u64 = match gumroad_failure_count {
        Some(count) => count,
        None => 0,
    };
    Embed::new(
        "Jinx Stats",
        counts.describe().concat("\ngumroad licenses rejected=").concat(u64_to_string(failures).as_str()),
        None,
    )
}

/// What has come of setting (or unsetting) the channel for the bot to log to
#[derive(Debug)]
pub enum LogChannelOutcome {
    Changed { channel_id: u64 },
    /// A test message could not be sent. Holds what went wrong.
    NotChanged { channel_id: u64, error: String },
    Unset,
}

/// What is answered when the log channel was set or not.
pub open spec fn log_channel_answer(outcome: LogChannelOutcome) -> EmbedView {
    match outcome {
        LogChannelOutcome::Changed { channel_id } => EmbedView {
            title: "Success"@,
            description: "Bot log channel set to "@ + channel_mention(channel_id) + "."@,
            colour: Some(Colour::DarkGreen),
        },
        LogChannelOutcome::NotChanged { channel_id, error } => EmbedView {
            title: "Error Setting Log Channel"@,
            description: "Log channel not set because there was an error sending a message to "@ + channel_mention(
                channel_id,
            ) + ": "@ + error@ + ". Please check bot and channel permissions."@,
            colour: Some(Colour::Red),
        },
        LogChannelOutcome::Unset => EmbedView {
            title: "Success"@,
            description: "Bot log channel unset."@,
            colour: Some(Colour::DarkGreen),
        },
    }
}

/// What is answered when the log channel was set or not
pub fn set_log_channel(outcome: &LogChannelOutcome) -> (r: Embed)
    ensures
        r@ == log_channel_answer(*outcome),
{
    match outcome {
        LogChannelOutcome::Changed { channel_id } => success_reply(
            "Success",
            "Bot log channel set to ".to_owned().concat(mention_channel(*channel_id).as_str()).concat("."),
        ),
        LogChannelOutcome::NotChanged { channel_id, error } => error_reply(
            "Error Setting Log Channel",
            "Log channel not set because there was an error sending a message to ".to_owned().concat(
                mention_channel(*channel_id).as_str(),
            ).concat(": ").concat(error.as_str()).concat(". Please check bot and channel permissions."),
        ),
        LogChannelOutcome::Unset => success_reply("Success", "Bot log channel unset.".to_owned()),
    }
}

/// A post with a button to register product keys
#[derive(Debug)]
pub struct RegistrationPost {
    pub embed: Embed,
    pub thumbnail_url: Option<String>,
    /// The custom ID of the button, which holds the store
    pub button_id: String,
}

/// What is shown of a user whose products can be registered: the name in its possessive form, and as a link to the
/// profile if there is one.
pub open spec fn seller_text(user: AuthUser) -> Seq<char> {
    match user.shown_username() {
        Some(username) => "["@ + possessive(user.shown_name()) + "](<"@ + profile_url_of(username) + ">)"@,
        None => possessive(user.shown_name()),
    }
}

/// Create a post with a button to register product keys. `None` if the user is not the one that the store is linked
/// as, which should not be possible.
pub fn create_post(user: &AuthUser, jinxxy_user_id: &str) -> (r: Option<RegistrationPost>)
    ensures
        r is Some <==> user.id@ == jinxxy_user_id@,
        r matches Some(post) ==> {
            &&& post.embed@ == (EmbedView {
                title: "Jinxxy Product Registration"@,
                description: "Press the button below to register a Jinxxy license key for any of "@ + seller_text(
                    *user,
                ) + " products."@,
                colour: None,
            })
            &&& post.thumbnail_url is Some <==> user.shown_profile_image_url() is Some
            &&& post.thumbnail_url matches Some(url) ==> user.shown_profile_image_url() == Some(url@)
            &&& post.button_id@ == custom_id(REGISTER_BUTTON_ID@, Some(user.id@))
        },
{
    if !str_equals(user.id.as_str(), jinxxy_user_id) {
        return None;
    }
    let display_user = user.to_display_user();
    let name = display_user.name_possessive();
    let seller = match user.profile_url() {
        Some(profile_url) => "[".to_owned().concat(name.as_str()).concat("](<").concat(profile_url.as_str()).concat(
            ">)",
        ),
        None => name,
    };
    let embed = Embed::new(
        "Jinxxy Product Registration",
        "Press the button below to register a Jinxxy license key for any of ".to_owned().concat(
            seller.as_str(),
        ).concat(" products."),
        None,
    );
    let thumbnail_url = display_user.profile_image_url;
    let button_id = join_custom_id(REGISTER_BUTTON_ID, Some(user.id.as_str()));
    Some(RegistrationPost { embed, thumbnail_url, button_id })
}

/// A product that was looked up to name a version, and its store
#[derive(Debug)]
pub struct StoreProduct {
    pub jinxxy_user_id: String,
    pub product: FullProduct,
}

/// The name of the last version with an ID.
pub open spec fn last_named_version(versions: Seq<ProductVersion>, version_id: Seq<char>) -> Option<Seq<char>>
    decreases versions.len(),
{
    if versions.len() == 0 {
        None
    } else if versions.last().id@ == version_id {
        Some(versions.last().name@)
    } else {
        last_named_version(versions.drop_last(), version_id)
    }
}

/// The name of a version of a product of a store, if it is among products that were looked up.
pub open spec fn looked_up_version(
    products: Seq<StoreProduct>,
    store: Seq<char>,
    product_id: Seq<char>,
    version_id: Seq<char>,
) -> Option<Seq<char>>
    decreases products.len(),
{
    if products.len() == 0 {
        None
    } else {
        let last = products.last();
        let found = last_named_version(last.product.versions@, version_id);
        if last.jinxxy_user_id@ == store && last.product.id@ == product_id && found is Some {
            found
        } else {
            looked_up_version(products.drop_last(), store, product_id, version_id)
        }
    }
}

fn find_version_name<'a>(versions: &'a [ProductVersion], version_id: &String) -> (r: Option<&'a String>)
    ensures
        r is Some <==> last_named_version(versions@, version_id@) is Some,
        r matches Some(name) ==> last_named_version(versions@, version_id@) == Some(name@),
{
    let mut i: usize = versions.len();
    proof {
        assert(versions@.take(i as int) =~= versions@);
    }
    while i > 0
        invariant
            i <= versions@.len(),
            last_named_version(versions@, version_id@) == last_named_version(versions@.take(i as int), version_id@),
        decreases i,
    {
        proof {
            assert(versions@.take(i as int).drop_last() =~= versions@.take(i - 1));
            assert(versions@.take(i as int).last() == versions@[i - 1]);
        }
        if versions[i - 1].id == *version_id {
            return Some(&versions[i - 1].name);
        }
        i = i - 1;
    }
    None
}

fn find_looked_up_version<'a>(
    products: &'a [StoreProduct],
    store: &String,
    product_id: &String,
    version_id: &String,
) -> (r: Option<&'a String>)
    ensures
        r is Some <==> looked_up_version(products@, store@, product_id@, version_id@) is Some,
        r matches Some(name) ==> looked_up_version(products@, store@, product_id@, version_id@) == Some(name@),
{
    let mut i: usize = products.len();
    proof {
        assert(products@.take(i as int) =~= products@);
    }
    while i > 0
        invariant
            i <= products@.len(),
            looked_up_version(products@, store@, product_id@, version_id@) == looked_up_version(
                products@.take(i as int),
                store@,
                product_id@,
                version_id@,
            ),
        decreases i,
    {
        proof {
            assert(products@.take(i as int).drop_last() =~= products@.take(i - 1));
            assert(products@.take(i as int).last() == products@[i - 1]);
        }
        let candidate = &products[i - 1];
        if candidate.jinxxy_user_id == *store && candidate.product.id == *product_id {
            if let Some(name) = find_version_name(candidate.product.versions.as_slice(), version_id) {
                return Some(name);
            }
        }
        i = i - 1;
    }
    None
}

/// How a Jinxxy user is shown: by name, and as a link to the profile if there is one. A user without a name is shown by
/// ID.
pub open spec fn shown_user(user_id: Seq<char>, username: Option<&str>, profile_url: Option<&str>) -> Seq<char> {
    match (username, profile_url) {
        (Some(username), Some(url)) => "["@ + username@ + "](<"@ + url@ + ">)"@,
        (Some(username), None) => "`"@ + username@ + "`"@,
        (None, _) => "`"@ + user_id + "`"@,
    }
}

/// How a customer or a store is shown
pub fn user_text(user_id: &str, username: Option<&str>, profile_url: Option<&str>) -> (r: String)
    ensures
        r@ == shown_user(user_id@, username, profile_url),
{
    match (username, profile_url) {
        (Some(username), Some(url)) => "[".to_owned().concat(username).concat("](<").concat(url).concat(">)"),
        (Some(username), None) => "`".to_owned().concat(username).concat("`"),
        (None, _) => "`".to_owned().concat(user_id).concat("`"),
    }
}

/// A license that the database knows of, and what Jinxxy knows of it
#[derive(Debug)]
pub struct KnownLicense {
    pub license: UserLicense,
    pub license_info: Option<LicenseInfo>,
    /// Whether the license is locked, as far as the database knows
    pub locked: bool,
    /// How the customer is shown
    pub user_text: String,
    /// How the store is shown
    pub store_text: String,
}

/// Whether the product of a license has to be looked up to name its version.
pub open spec fn wants_product(license: KnownLicense, store: Seq<char>, product_id: Seq<char>) -> bool {
    license.license_info matches Some(info) && info.product_version_info is Some && license.license.jinxxy_user_id@
        == store && info.product_id@ == product_id
}

/// The positions of the licenses whose products have to be looked up, each product of a store once.
pub open spec fn lookups(licenses: Seq<KnownLicense>) -> Seq<usize>
    decreases licenses.len(),
{
    if licenses.len() == 0 {
        Seq::empty()
    } else {
        let others = lookups(licenses.drop_last());
        let license = licenses.last();
        let position = (licenses.len() - 1) as usize;
        if license.license_info is Some && license.license_info->0.product_version_info is Some && !exists|i: int|
            0 <= i < position && wants_product(
                #[trigger] licenses[i],
                license.license.jinxxy_user_id@,
                license.license_info->0.product_id@,
            ) {
            others.push(position)
        } else {
            others
        }
    }
}

/// The positions of the licenses whose products have to be looked up, each product of a store once
pub fn products_requiring_lookup(licenses: &[KnownLicense]) -> (r: Vec<usize>)
    ensures
        r@ == lookups(licenses@),
{
    let mut positions: Vec<usize> = Vec::new();
    for i in 0..licenses.len()
        invariant
            positions@ == lookups(licenses@.take(i as int)),
    {
        let ghost so_far = licenses@.take(i + 1);
        proof {
            assert(so_far.drop_last() =~= licenses@.take(i as int));
            assert(so_far.last() == licenses@[i as int]);
        }
        if let Some(info) = &licenses[i].license_info {
            if info.product_version_info.is_some() {
                let mut seen = false;
                for j in 0..i
                    invariant
                        i < licenses@.len(),
                        licenses@[i as int].license_info == Some(*info),
                        so_far == licenses@.take(i + 1),
                        seen <==> exists|k: int|
                            0 <= k < j && wants_product(
                                #[trigger] so_far[k],
                                licenses@[i as int].license.jinxxy_user_id@,
                                info.product_id@,
                            ),
                {
                    if let Some(other) = &licenses[j].license_info {
                        if other.product_version_info.is_some() && licenses[j].license.jinxxy_user_id
                            == licenses[i].license.jinxxy_user_id && other.product_id == info.product_id {
                            proof {
                                assert(wants_product(
                                    so_far[j as int],
                                    licenses@[i as int].license.jinxxy_user_id@,
                                    info.product_id@,
                                ));
                            }
                            seen = true;
                        }
                    }
                }
                if !seen {
                    positions.push(i);
                }
            }
        }
    }
    proof {
        assert(licenses@.take(licenses@.len() as int) =~= licenses@);
    }
    positions
}

/// How the version of a license is shown: by its name, as unknown if it should have been looked up, or as none.
pub open spec fn version_text(license: KnownLicense, products: Seq<StoreProduct>) -> Seq<char> {
    match license.license_info->0.product_version_info {
        None => "`null`"@,
        Some(version) => match looked_up_version(
            products,
            license.license.jinxxy_user_id@,
            license.license_info->0.product_id@,
            version.product_version_id@,
        ) {
            Some(name) => name,
            None => "`ERROR`"@,
        },
    }
}

/// How a license is shown in a list of licenses.
pub open spec fn license_line(license: KnownLicense, products: Seq<StoreProduct>) -> Seq<char> {
    match license.license_info {
        Some(info) => "\n- `"@ + info.short_key@ + "` store="@ + license.store_text@ + " activations="@ + decimal(
            info.activations as nat,
        ) + " locked="@ + bool_text(license.locked) + " user="@ + license.user_text@ + " product=\""@
            + info.product_name@ + "\" version="@ + version_text(license, products),
        // we had a license ID in our local DB, but could not find info on it in the Jinxxy API
        None => "\n- store=`"@ + license.license.jinxxy_user_id@ + "` id=`"@ + license.license.license_id@
            + "` (no data found)"@,
    }
}

fn license_line_text(license: &KnownLicense, products: &[StoreProduct]) -> (r: String)
    ensures
        r@ == license_line(*license, products@),
{
    match &license.license_info {
        Some(info) => {
            let version = match &info.product_version_info {
                None => "`null`".to_owned(),
                Some(version) => match find_looked_up_version(
                    products,
                    &license.license.jinxxy_user_id,
                    &info.product_id,
                    &version.product_version_id,
                ) {
                    Some(name) => name.clone(),
                    None => "`ERROR`".to_owned(),
                },
            };
            "\n- `".to_owned().concat(info.short_key.as_str()).concat("` store=").concat(
                license.store_text.as_str(),
            ).concat(" activations=").concat(u64_to_string(info.activations as u64).as_str()).concat(
                " locked=",
            ).concat(bool_to_string(license.locked).as_str()).concat(" user=").concat(
                license.user_text.as_str(),
            ).concat(" product=\"").concat(info.product_name.as_str()).concat("\" version=").concat(version.as_str())
        }
        None => "\n- store=`".to_owned().concat(license.license.jinxxy_user_id.as_str()).concat("` id=`").concat(
            license.license.license_id.as_str(),
        ).concat("` (no data found)"),
    }
}

/// The licenses, each on a line of its own.
pub open spec fn license_lines(licenses: Seq<KnownLicense>, products: Seq<StoreProduct>) -> Seq<char>
    decreases licenses.len(),
{
    if licenses.len() == 0 {
        Seq::empty()
    } else {
        license_lines(licenses.drop_last(), products) + license_line(licenses.last(), products)
    }
}

/// Query license information for a user
pub fn user_info(user_id: u64, licenses: &[KnownLicense], products: &[StoreProduct]) -> (r: Embed)
    ensures
        r@ == (EmbedView {
            title: "User Info"@,
            description: if licenses@.len() == 0 {
                user_mention(user_id) + " has no license activations."@
            } else {
                "Licenses for "@ + user_mention(user_id) + ":"@ + license_lines(licenses@, products@)
            },
            colour: Some(Colour::DarkGreen),
        }),
{
    if licenses.len() == 0 {
        return success_reply("User Info", mention_user(user_id).concat(" has no license activations."));
    }
    let mut lines = String::new();
    for i in 0..licenses.len()
        invariant
            lines@ == license_lines(licenses@.take(i as int), products@),
    {
        proof {
            assert(licenses@.take(i + 1).drop_last() =~= licenses@.take(i as int));
            assert(licenses@.take(i + 1).last() == licenses@[i as int]);
        }
        lines = lines.concat(license_line_text(&licenses[i], products).as_str());
    }
    proof {
        assert(licenses@.take(licenses@.len() as int) =~= licenses@);
    }
    success_reply(
        "User Info",
        "Licenses for ".to_owned().concat(mention_user(user_id).as_str()).concat(":").concat(lines.as_str()),
    )
}

/// What is said about a license that does not exist.
pub open spec fn not_found_text(license: Seq<char>) -> Seq<char> {
    "License `"@ + license
        + "` not found: please verify that the key is correct and belongs to the Jinxxy account linked to this Discord server."@
}

/// What is said about a license that does not exist
pub fn license_not_found(title: &str, license: &str) -> (r: Embed)
    ensures
        r@ == (EmbedView { title: title@, description: not_found_text(license@), colour: Some(Colour::Red) }),
{
    error_reply(
        title,
        "License `".to_owned().concat(license).concat(
            "` not found: please verify that the key is correct and belongs to the Jinxxy account linked to this Discord server.",
        ),
    )
}

/// What is said when a user's activations of a license were deleted
pub fn license_deactivated(user_id: u64, license: &str) -> (r: Embed)
    ensures
        r@ == (EmbedView {
            title: "Success"@,
            description: "All of "@ + user_mention(user_id) + "'s activations for `"@ + license@
                + "` have been deleted."@,
            colour: Some(Colour::DarkGreen),
        }),
{
    success_reply(
        "Success",
        "All of ".to_owned().concat(mention_user(user_id).as_str()).concat("'s activations for `").concat(
            license,
        ).concat("` have been deleted."),
    )
}

/// The users that have activated a license, or its lock, each on a line of its own.
pub open spec fn activator_lines(user_ids: Seq<u64>) -> Seq<char>
    decreases user_ids.len(),
{
    if user_ids.len() == 0 {
        Seq::empty()
    } else if user_ids.last() == LOCKING_USER_ID {
        activator_lines(user_ids.drop_last()) + "\n- **LOCKED** (prevents further use)"@
    } else {
        activator_lines(user_ids.drop_last()) + "\n- "@ + user_mention(user_ids.last())
    }
}

fn list_activators(user_ids: &[u64]) -> (r: String)
    ensures
        r@ == activator_lines(user_ids@),
{
    let mut lines = String::new();
    for i in 0..user_ids.len()
        invariant
            lines@ == activator_lines(user_ids@.take(i as int)),
    {
        proof {
            assert(user_ids@.take(i + 1).drop_last() =~= user_ids@.take(i as int));
        }
        if user_ids[i] == LOCKING_USER_ID {
            lines = lines.concat("\n- **LOCKED** (prevents further use)");
        } else {
            lines = lines.concat("\n- ").concat(mention_user(user_ids[i]).as_str());
        }
    }
    proof {
        assert(user_ids@.take(user_ids@.len() as int) =~= user_ids@);
    }
    lines
}

/// What a license is valid for.
pub open spec fn validity_text(info: LicenseInfo) -> Seq<char> {
    "ID: `"@ + info.license_id@ + "`\nShort: `"@ + info.short_key@ + "`\nLong: `"@ + info.key@ + "`\nValid for "@
        + info.product_name@ + " "@ + (match info.product_version_info {
        Some(version) => version.product_version_name@,
        None => "`null`"@,
    })
}

fn describe_validity(info: &LicenseInfo) -> (r: String)
    ensures
        r@ == validity_text(*info),
{
    let version_name = match &info.product_version_info {
        Some(version) => version.product_version_name.clone(),
        None => "`null`".to_owned(),
    };
    "ID: `".to_owned().concat(info.license_id.as_str()).concat("`\nShort: `").concat(info.short_key.as_str()).concat(
        "`\nLong: `",
    ).concat(info.key.as_str()).concat("`\nValid for ").concat(info.product_name.as_str()).concat(" ").concat(
        version_name.as_str(),
    )
}

/// What is answered about a license, given the users that have activated it in ascending order.
pub open spec fn license_info_answer(license: Seq<char>, info: Option<LicenseInfo>, user_ids: Seq<u64>) -> EmbedView {
    match info {
        Some(info) => EmbedView {
            title: "License Info"@,
            description: if user_ids.len() == 0 {
                validity_text(info) + "\n\nNo registered users."@
            } else {
                validity_text(info) + "\n\nRegistered users:"@ + activator_lines(user_ids)
            },
            colour: Some(Colour::DarkGreen),
        },
        None => EmbedView {
            title: "License Info Validation Error"@,
            description: if user_ids.len() == 0 {
                "License `"@ + license
                    + " not found: please verify that the key is correct and belongs to the Jinxxy account linked to this Discord server.`"@
            } else {
                "License `"@ + license + "` not found, but somehow has users:"@ + activator_lines(user_ids)
                    + "\nThis may indicate that the license has been revoked on the Jinxxy side."@
            },
            colour: Some(Colour::Red),
        },
    }
}

/// Query activation information for a license: what is answered, and a warning if the database and Jinxxy know of
/// different activators.
pub fn license_info(license: &str, info: Option<&LicenseInfo>, local_users: Vec<u64>, remote_users: Vec<u64>) -> (r: (
    Embed,
    Option<Embed>,
))
    ensures
        r.0@ == license_info_answer(
            license@,
            match info {
                Some(info) => Some(*info),
                None => None,
            },
            ascending(remote_users@),
        ),
        r.1 is Some <==> ascending(local_users@) != ascending(remote_users@),
        r.1 matches Some(warning) ==> warning@ == (EmbedView {
            title: "Activator mismatch"@,
            description: "The local and remote activator lists do not match. This is really weird and you should tell the bot dev about it, because chances are you are the first person seeing this message ever."@,
            colour: Some(Colour::Red),
        }),
{
    let mut local_users = local_users;
    sort_ascending(&mut local_users);
    let mut remote_users = remote_users;
    sort_ascending(&mut remote_users);
    let answer = match info {
        Some(info) => {
            let validity = describe_validity(info);
            if remote_users.len() == 0 {
                success_reply("License Info", validity.concat("\n\nNo registered users."))
            } else {
                success_reply(
                    "License Info",
                    validity.concat("\n\nRegistered users:").concat(
                        list_activators(remote_users.as_slice()).as_str(),
                    ),
                )
            }
        }
        None => if remote_users.len() == 0 {
            error_reply(
                "License Info Validation Error",
                "License `".to_owned().concat(license).concat(
                    " not found: please verify that the key is correct and belongs to the Jinxxy account linked to this Discord server.`",
                ),
            )
        } else {
            error_reply(
                "License Info Validation Error",
                "License `".to_owned().concat(license).concat("` not found, but somehow has users:").concat(
                    list_activators(remote_users.as_slice()).as_str(),
                ).concat("\nThis may indicate that the license has been revoked on the Jinxxy side."),
            )
        },
    };
    let warning = if same_numbers(local_users.as_slice(), remote_users.as_slice()) {
        None
    } else {
        Some(
            Embed::new(
                "Activator mismatch",
                "The local and remote activator lists do not match. This is really weird and you should tell the bot dev about it, because chances are you are the first person seeing this message ever.".to_owned(),
                Some(Colour::Red),
            ),
        )
    };
    (answer, warning)
}

fn same_numbers(a: &[u64], b: &[u64]) -> (r: bool)
    ensures
        r == (a@ == b@),
{
    if a.len() != b.len() {
        return false;
    }
    for i in 0..a.len()
        invariant
            a@.len() == b@.len(),
            forall|j: int| 0 <= j < i ==> a@[j] == b@[j],
    {
        if a[i] != b[i] {
            return false;
        }
    }
    proof {
        assert(a@ =~= b@);
    }
    true
}

/// Whether an activation is a lock.
pub open spec fn is_lock(activation: LicenseActivation) -> bool {
    activation_user_id(activation.description@) == Some(LOCKING_USER_ID)
}

/// The position of the lock of a license, if it has one
pub fn find_lock(activations: &[LicenseActivation]) -> (r: Option<usize>)
    ensures
        r is None <==> forall|i: int| 0 <= i < activations@.len() ==> !is_lock(#[trigger] activations@[i]),
        r matches Some(position) ==> {
            &&& position < activations@.len()
            &&& is_lock(activations@[position as int])
            &&& forall|i: int| 0 <= i < position ==> !is_lock(#[trigger] activations@[i])
        },
{
    for i in 0..activations.len()
        invariant
            forall|j: int| 0 <= j < i ==> !is_lock(#[trigger] activations@[j]),
    {
        if activations[i].is_lock() {
            proof {
                assert(is_lock(activations@[i as int]));
            }
            return Some(i);
        }
    }
    None
}

/// The IDs of the locks of a license, in order.
pub open spec fn locks(activations: Seq<LicenseActivation>) -> Seq<String>
    decreases activations.len(),
{
    if activations.len() == 0 {
        Seq::empty()
    } else if is_lock(activations.last()) {
        locks(activations.drop_last()).push(activations.last().id)
    } else {
        locks(activations.drop_last())
    }
}

/// The IDs of the locks of a license. These are deleted to unlock it.
pub fn lock_ids(activations: &[LicenseActivation]) -> (r: Vec<String>)
    ensures
        r@ == locks(activations@),
{
    let mut ids: Vec<String> = Vec::new();
    for i in 0..activations.len()
        invariant
            ids@ == locks(activations@.take(i as int)),
    {
        proof {
            assert(activations@.take(i + 1).drop_last() =~= activations@.take(i as int));
            assert(activations@.take(i + 1).last() == activations@[i as int]);
        }
        if activations[i].is_lock() {
            ids.push(activations[i].id.clone());
        }
    }
    proof {
        assert(activations@.take(activations@.len() as int) =~= activations@);
    }
    ids
}

/// The ID of every lock of a license is listed.
proof fn every_lock_is_listed(activations: Seq<LicenseActivation>, i: int)
    requires
        0 <= i < activations.len(),
        is_lock(activations[i]),
    ensures
        locks(activations).contains(activations[i].id),
    decreases activations.len(),
{
    let init = activations.drop_last();
    let ids = locks(activations);
    if i == activations.len() - 1 {
        assert(ids[ids.len() - 1] == activations[i].id);
    } else {
        assert(init[i] == activations[i]);
        every_lock_is_listed(init, i);
        let before = locks(init);
        let k = choose|k: int| 0 <= k < before.len() && before[k] == activations[i].id;
        assert(ids[k] == activations[i].id);
    }
}

/// A license of which everything that is listed to unlock it has been deleted is not locked any more, for whomever.
pub proof fn unlocking_leaves_no_lock(
    activations: Seq<LicenseActivation>,
    remaining: Seq<LicenseActivation>,
    user_id: u64,
)
    requires
        forall|i: int|
            0 <= i < remaining.len() ==> activations.contains(#[trigger] remaining[i]) && !locks(activations).contains(
                remaining[i].id,
            ),
    ensures
        locks(remaining) == Seq::<String>::empty(),
        !validation(user_id, activation_user_ids(remaining)).locked,
{
    assert forall|i: int| 0 <= i < remaining.len() implies !is_lock(#[trigger] remaining[i]) by {
        let j = choose|j: int| 0 <= j < activations.len() && activations[j] == remaining[i];
        if is_lock(remaining[i]) {
            every_lock_is_listed(activations, j);
        }
    }
    no_lock_is_listed(remaining);
    if activation_user_ids(remaining).contains(LOCKING_USER_ID) {
        only_activators_are_seen(remaining, LOCKING_USER_ID);
        let i = choose|i: int|
            0 <= i < remaining.len() && activation_user_id((#[trigger] remaining[i]).description@) == Some(
                LOCKING_USER_ID,
            );
        assert(is_lock(remaining[i]));
    }
}

/// Only locks are listed.
proof fn no_lock_is_listed(activations: Seq<LicenseActivation>)
    requires
        forall|i: int| 0 <= i < activations.len() ==> !is_lock(#[trigger] activations[i]),
    ensures
        locks(activations) == Seq::<String>::empty(),
    decreases activations.len(),
{
    if activations.len() > 0 {
        let init = activations.drop_last();
        assert forall|i: int| 0 <= i < init.len() implies !is_lock(#[trigger] init[i]) by {
            assert(init[i] == activations[i]);
        }
        no_lock_is_listed(init);
        assert(!is_lock(activations[activations.len() - 1]));
    }
}

/// What is said when a license was locked
pub fn license_locked(license: &str) -> (r: Embed)
    ensures
        r@ == (EmbedView {
            title: "Success"@,
            description: "License `"@ + license@ + "` is now locked and cannot be used to grant roles."@,
            colour: Some(Colour::DarkGreen),
        }),
{
    success_reply(
        "Success",
        "License `".to_owned().concat(license).concat("` is now locked and cannot be used to grant roles."),
    )
}

/// What is said when a license was unlocked, or was not locked in the first place: that depends on how many locks
/// Jinxxy knew of and, if there were none, on how many the database knew of.
pub fn license_unlocked(license: &str, remote_locks: usize, local_locks: u64) -> (r: Embed)
    ensures
        r@ == (EmbedView {
            title: "Success"@,
            description: if remote_locks > 0 {
                "License `"@ + license@ + "` is now unlocked and may be used to grant roles."@
            } else if local_locks == 0 {
                "No locks for `"@ + license@ + "` were found."@
            } else {
                "License `"@ + license@
                    + "` state was out of sync in Jinx's cache and in the Jinxxy API. This has been fixed, and the license is now unlcoed and may be used to grant role."@
            },
            colour: Some(Colour::DarkGreen),
        }),
{
    let message = if remote_locks > 0 {
        "License `".to_owned().concat(license).concat("` is now unlocked and may be used to grant roles.")
    } else if local_locks == 0 {
        "No locks for `".to_owned().concat(license).concat("` were found.")
    } else {
        "License `".to_owned().concat(license).concat(
            "` state was out of sync in Jinx's cache and in the Jinxxy API. This has been fixed, and the license is now unlcoed and may be used to grant role.",
        )
    };
    success_reply("Success", message)
}

} // verus!
