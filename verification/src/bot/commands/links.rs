//! Commands about the roles that products give

use crate::bot::message::{
    list_roles, list_users, mention_role, mention_user, role_bullets, role_mention, user_bullets, user_mention, Colour,
    Embed, EmbedView,
};
use crate::bot::util::{
    contains_id, create_role_warning_from_roles, error_reply, role_warning, shown_embed, success_reply, unassignable,
};
use crate::db::{LinkSource, LinkedDisplayStore};
use crate::http::jinxxy::product_version_text;
use crate::text::{decimal, u64_to_string};
use vstd::prelude::*;

verus! {

/// What is said when a catch-all role was set
pub fn wildcard_role_set(role_id: u64) -> (r: Embed)
    ensures
        r@ == (EmbedView {
            title: "Wildcard Set Successful"@,
            description: "Any product will now grant "@ + role_mention(role_id),
            colour: Some(Colour::DarkGreen),
        }),
{
    success_reply(
        "Wildcard Set Successful",
        "Any product will now grant ".to_owned().concat(mention_role(role_id).as_str()),
    )
}

/// What is said when there is no catch-all role any more
pub fn wildcard_role_unset() -> (r: Embed)
    ensures
        r@ == (EmbedView {
            title: "Wildcard Unset Successful"@,
            description: "A role will no longer be granted for any product: now roles are only granted on a per-product basis."@,
            colour: Some(Colour::DarkGreen),
        }),
{
    success_reply(
        "Wildcard Unset Successful",
        "A role will no longer be granted for any product: now roles are only granted on a per-product basis.".to_owned(),
    )
}

/// Each of some items once, in the order in which they first occur.
pub open spec fn united<T>(items: Seq<T>) -> Seq<T>
    decreases items.len(),
{
    if items.len() == 0 {
        items
    } else {
        let others = united(items.drop_last());
        if others.contains(items.last()) {
            others
        } else {
            others.push(items.last())
        }
    }
}

/// The roles of several products together, each of them once
pub fn unite_roles(roles: &[u64]) -> (r: Vec<u64>)
    ensures
        r@ == united(roles@),
{
    let mut distinct: Vec<u64> = Vec::new();
    for i in 0..roles.len()
        invariant
            distinct@ == united(roles@.take(i as int)),
    {
        proof {
            assert(roles@.take(i + 1).drop_last() =~= roles@.take(i as int));
        }
        if !contains_id(distinct.as_slice(), roles[i]) {
            distinct.push(roles[i]);
        }
    }
    proof {
        assert(roles@.take(roles@.len() as int) =~= roles@);
    }
    distinct
}

/// What kind of product a command is about.
pub open spec fn product_word(of_version: bool) -> Seq<char> {
    if of_version {
        "Product Version"@
    } else {
        "Product"@
    }
}

/// What is said when a product, or a version of it, was linked to a role or unlinked from it: all roles that it
/// gives now
pub fn links_changed(link: bool, of_version: bool, product: &str, roles: &[u64]) -> (r: Embed)
    ensures
        r@ == (EmbedView {
            title: product_word(of_version) + (if link {
                " Link Successful"@
            } else {
                " Unlink Successful"@
            }),
            description: product@ + " will now grant the following roles:"@ + role_bullets(united(roles@)),
            colour: Some(Colour::DarkGreen),
        }),
{
    let distinct = unite_roles(roles);
    let word = if of_version {
        "Product Version"
    } else {
        "Product"
    };
    let title = word.to_owned().concat(
        if link {
            " Link Successful"
        } else {
            " Unlink Successful"
        },
    );
    success_reply(
        title.as_str(),
        product.to_owned().concat(" will now grant the following roles:").concat(
            list_roles(distinct.as_slice()).as_str(),
        ),
    )
}

/// What is said instead of changing links if nothing has the given name, where `matches` is the number of products or
/// product versions with that name
pub fn link_refusal(link: bool, of_version: bool, matches: usize) -> (r: Option<Embed>)
    ensures
        shown_embed(r) == (if matches > 0 {
            None
        } else {
            Some(
                EmbedView {
                    title: (if link {
                        "Error Linking "@
                    } else {
                        "Error Unlinking "@
                    }) + product_word(of_version),
                    description: if of_version {
                        "Product version not found."@
                    } else {
                        "Product not found."@
                    },
                    colour: Some(Colour::Red),
                },
            )
        }),
{
    if matches > 0 {
        return None;
    }
    let start = if link {
        "Error Linking "
    } else {
        "Error Unlinking "
    };
    Some(
        if of_version {
            error_reply(
                start.to_owned().concat("Product Version").as_str(),
                "Product version not found.".to_owned(),
            )
        } else {
            error_reply(start.to_owned().concat("Product").as_str(), "Product not found.".to_owned())
        },
    )
}

/// warn if a role that was linked cannot be assigned, or any of the roles that are left after one was unlinked
pub fn link_warning(link: bool, assignable: &[u64], role_id: u64, roles: &[u64]) -> (r: Option<Embed>)
    ensures
        shown_embed(r) == role_warning(
            unassignable(
                assignable@,
                if link {
                    seq![role_id]
                } else {
                    roles@
                },
            ),
        ),
{
    if link {
        let linked: Vec<u64> = vec![role_id];
        proof {
            assert(linked@ =~= seq![role_id]);
        }
        create_role_warning_from_roles(assignable, linked.as_slice())
    } else {
        create_role_warning_from_roles(assignable, roles)
    }
}

/// Whether a member has to be granted a role
pub fn misses_role(member_roles: &[u64], role_id: u64) -> (r: bool)
    ensures
        r <==> !member_roles@.contains(role_id),
{
    !contains_id(member_roles, role_id)
}

/// How a store is shown: by the username of the last of the given stores with its ID, or else by the ID.
pub open spec fn store_name(stores: Seq<LinkedDisplayStore>, jinxxy_user_id: Seq<char>) -> Seq<char>
    decreases stores.len(),
{
    if stores.len() == 0 {
        jinxxy_user_id
    } else if stores.last().jinxxy_user_id@ == jinxxy_user_id {
        match stores.last().jinxxy_username {
            Some(username) => username@,
            None => jinxxy_user_id,
        }
    } else {
        store_name(stores.drop_last(), jinxxy_user_id)
    }
}

fn show_store(stores: &[LinkedDisplayStore], jinxxy_user_id: &String) -> (r: String)
    ensures
        r@ == store_name(stores@, jinxxy_user_id@),
{
    let mut i: usize = stores.len();
    proof {
        assert(stores@.take(i as int) =~= stores@);
    }
    while i > 0
        invariant
            i <= stores@.len(),
            store_name(stores@, jinxxy_user_id@) == store_name(stores@.take(i as int), jinxxy_user_id@),
        decreases i,
    {
        proof {
            assert(stores@.take(i as int).drop_last() =~= stores@.take(i - 1));
            assert(stores@.take(i as int).last() == stores@[i - 1]);
        }
        if stores[i - 1].jinxxy_user_id == *jinxxy_user_id {
            return match &stores[i - 1].jinxxy_username {
                Some(username) => username.clone(),
                None => jinxxy_user_id.clone(),
            };
        }
        i = i - 1;
    }
    jinxxy_user_id.clone()
}

/// How something that gives a role is shown, with the cached name of the product or product version if there is one.
pub open spec fn source_name(
    source: LinkSource,
    stores: Seq<LinkedDisplayStore>,
    cached_name: Option<Seq<char>>,
) -> Seq<char> {
    match source {
        LinkSource::GlobalBlanket => "`*`"@,
        LinkSource::ProductBlanket { jinxxy_user_id, product_id } => store_name(stores, jinxxy_user_id@) + ": "@ + (
        match cached_name {
            Some(name) => name,
            None => product_id@,
        }),
        LinkSource::ProductVersion { jinxxy_user_id, product_version_id } => store_name(stores, jinxxy_user_id@) + ": "@
            + (match cached_name {
            Some(name) => name,
            None => product_version_text(product_version_id@),
        }),
    }
}

/// How something that gives a role is shown, with the cached name of the product or product version if there is one
pub fn show_source(source: &LinkSource, stores: &[LinkedDisplayStore], cached_name: Option<&str>) -> (r: String)
    ensures
        r@ == source_name(
            *source,
            stores@,
            match cached_name {
                Some(name) => Some(name@),
                None => None,
            },
        ),
{
    match source {
        LinkSource::GlobalBlanket => "`*`".to_owned(),
        LinkSource::ProductBlanket { jinxxy_user_id, product_id } => {
            let name = match cached_name {
                Some(name) => name.to_owned(),
                None => product_id.clone(),
            };
            show_store(stores, jinxxy_user_id).concat(": ").concat(name.as_str())
        }
        LinkSource::ProductVersion { jinxxy_user_id, product_version_id } => {
            let name = match cached_name {
                Some(name) => name.to_owned(),
                None => product_version_id.describe(),
            };
            show_store(stores, jinxxy_user_id).concat(": ").concat(name.as_str())
        }
    }
}

/// A role, and how everything that gives it is shown
#[derive(Debug)]
pub struct RoleLinks {
    pub role_id: u64,
    /// The name of the role, if it is known
    pub role_name: Option<String>,
    pub sources: Vec<String>,
}

/// How a role is shown. Outside of its guild a mention would not be readable, so the name is shown there.
pub open spec fn role_heading(links: RoleLinks, sudo: bool) -> Seq<char> {
    if !sudo {
        "- "@ + role_mention(links.role_id) + " granted by:"@
    } else {
        match links.role_name {
            Some(name) => "- `"@ + name@ + "` granted by:"@,
            None => "- `"@ + role_mention(links.role_id) + "` granted by:"@,
        }
    }
}

/// Everything that gives a role, each on a line of its own.
pub open spec fn source_lines(sources: Seq<String>) -> Seq<char>
    decreases sources.len(),
{
    if sources.len() == 0 {
        Seq::empty()
    } else {
        source_lines(sources.drop_last()) + "\n  - "@ + sources.last()@
    }
}

/// All roles with what gives them, in the given order.
pub open spec fn links_text(roles: Seq<RoleLinks>, sudo: bool) -> Seq<char>
    decreases roles.len(),
{
    if roles.len() == 0 {
        Seq::empty()
    } else {
        let others = links_text(roles.drop_last(), sudo);
        (if roles.len() == 1 {
            others
        } else {
            others + "\n"@
        }) + role_heading(roles.last(), sudo) + source_lines(roles.last().sources@)
    }
}

fn list_sources(sources: &[String]) -> (r: String)
    ensures
        r@ == source_lines(sources@),
{
    let mut lines = String::new();
    for i in 0..sources.len()
        invariant
            lines@ == source_lines(sources@.take(i as int)),
    {
        proof {
            assert(sources@.take(i + 1).drop_last() =~= sources@.take(i as int));
            assert(sources@.take(i + 1).last() == sources@[i as int]);
        }
        lines = lines.concat("\n  - ").concat(sources[i].as_str());
    }
    proof {
        assert(sources@.take(sources@.len() as int) =~= sources@);
    }
    lines
}

fn show_role_heading(links: &RoleLinks, sudo: bool) -> (r: String)
    ensures
        r@ == role_heading(*links, sudo),
{
    if !sudo {
        return "- ".to_owned().concat(mention_role(links.role_id).as_str()).concat(" granted by:");
    }
    match &links.role_name {
        Some(name) => "- `".to_owned().concat(name.as_str()).concat("` granted by:"),
        None => "- `".to_owned().concat(mention_role(links.role_id).as_str()).concat("` granted by:"),
    }
}

/// List all product→role links
pub fn list_links(roles: &[RoleLinks], sudo: bool) -> (r: Embed)
    ensures
        r@ == (EmbedView {
            title: "All product→role links"@,
            description: if roles@.len() == 0 {
                "No product→role links configured"@
            } else {
                links_text(roles@, sudo)
            },
            colour: None,
        }),
{
    if roles.len() == 0 {
        return Embed::new("All product→role links", "No product→role links configured".to_owned(), None);
    }
    let mut message = String::new();
    for i in 0..roles.len()
        invariant
            message@ == links_text(roles@.take(i as int), sudo),
    {
        proof {
            assert(roles@.take(i + 1).drop_last() =~= roles@.take(i as int));
            assert(roles@.take(i + 1).last() == roles@[i as int]);
        }
        if i > 0 {
            message = message.concat("\n");
        }
        message = message.concat(show_role_heading(&roles[i], sudo).as_str()).concat(
            list_sources(roles[i].sources.as_slice()).as_str(),
        );
    }
    proof {
        assert(roles@.take(roles@.len() as int) =~= roles@);
    }
    Embed::new("All product→role links", message, None)
}

/// The users of a role that did not have it yet
#[derive(Debug)]
pub struct GrantedRole {
    pub role_id: u64,
    pub total_users: u64,
    /// The users that were missing the role, and have been granted it
    pub missing_users: Vec<u64>,
}

/// What is said about a role that was granted to the users who were missing it.
pub open spec fn granted_role_text(granted: GrantedRole) -> Seq<char> {
    decimal(granted.missing_users@.len()) + "/"@ + decimal(granted.total_users as nat) + " users were missing "@
        + role_mention(granted.role_id) + ":"@ + user_bullets(granted.missing_users@)
}

/// What is said about roles that were granted to the users who were missing them.
pub open spec fn granted_roles_text(granted: Seq<GrantedRole>) -> Seq<char>
    decreases granted.len(),
{
    if granted.len() == 0 {
        Seq::empty()
    } else {
        let others = granted_roles_text(granted.drop_last());
        (if granted.len() == 1 {
            others
        } else {
            others + "\n"@
        }) + granted_role_text(granted.last())
    }
}

fn show_granted_role(granted: &GrantedRole) -> (r: String)
    ensures
        r@ == granted_role_text(*granted),
{
    u64_to_string(granted.missing_users.len() as u64).concat("/").concat(
        u64_to_string(granted.total_users).as_str(),
    ).concat(" users were missing ").concat(mention_role(granted.role_id).as_str()).concat(":").concat(
        list_users(granted.missing_users.as_slice()).as_str(),
    )
}

fn show_granted_roles(granted: &[GrantedRole]) -> (r: String)
    ensures
        r@ == granted_roles_text(granted@),
{
    let mut message = String::new();
    for i in 0..granted.len()
        invariant
            message@ == granted_roles_text(granted@.take(i as int)),
    {
        proof {
            assert(granted@.take(i + 1).drop_last() =~= granted@.take(i as int));
            assert(granted@.take(i + 1).last() == granted@[i as int]);
        }
        if i > 0 {
            message = message.concat("\n");
        }
        message = message.concat(show_granted_role(&granted[i]).as_str());
    }
    proof {
        assert(granted@.take(granted@.len() as int) =~= granted@);
    }
    message
}

/// Grant a role to any users who have a license but are missing the linked role: what is answered, and what is logged
pub fn grant_missing_roles(author_id: u64, granted: &[GrantedRole]) -> (r: (Embed, Embed))
    ensures
        r.0@ == (EmbedView {
            title: "Missing Roles Granted"@,
            description: granted_roles_text(granted@),
            colour: Some(Colour::DarkGreen),
        }),
        r.1@ == (EmbedView {
            title: "Missing Roles Granted"@,
            description: user_mention(author_id) + " granted missing roles:\n"@ + granted_roles_text(granted@),
            colour: None,
        }),
{
    let message = show_granted_roles(granted);
    let log_message = mention_user(author_id).concat(" granted missing roles:\n").concat(message.as_str());
    (success_reply("Missing Roles Granted", message), Embed::new("Missing Roles Granted", log_message, None))
}

} // verus!
