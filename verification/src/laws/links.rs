//! The links between products and roles

use super::texts::{
    ends_with, mentions_role, mentions_user, role_bullets_mention_each, says, says_in_concatenation,
    says_is_transitive, says_its_parts, users_of_bullets_are_mentioned,
};
use crate::bot::commands::link_form::{
    link_lines, linked_roles, product_link_lines, selectable_name, warnings, LinkForm, LinkFormEvent,
    LinkFormResponse, SelectableProduct,
};
use crate::bot::commands::links::{
    grant_missing_roles, granted_role_text, granted_roles_text, link_refusal, link_warning, links_changed, links_text,
    list_links, misses_role, role_heading, show_source, source_lines, store_name, unite_roles, united, GrantedRole,
    RoleLinks,
};
use crate::bot::message::{role_bullets, role_mention, user_bullets, user_mention, Embed};
use crate::db::{LinkSource, LinkedDisplayStore};
use crate::text::decimal;
use vstd::prelude::*;

verus! {

/// Items that are put together are the same items, each of them once.
pub proof fn united_are_those<T>(items: Seq<T>, item: T)
    ensures
        united(items).contains(item) <==> items.contains(item),
        united(items).no_duplicates(),
    decreases items.len(),
{
    if items.len() > 0 {
        let init = items.drop_last();
        let before = united(init);
        let after = united(items);
        united_are_those(init, item);
        united_are_those(init, items.last());
        if after.contains(item) {
            let k = choose|k: int| 0 <= k < after.len() && after[k] == item;
            if k < before.len() {
                assert(before[k] == item);
                let i = choose|i: int| 0 <= i < init.len() && init[i] == item;
                assert(items[i] == item);
            } else {
                assert(items[items.len() - 1] == item);
            }
        }
        if items.contains(item) {
            let i = choose|i: int| 0 <= i < items.len() && items[i] == item;
            if i < init.len() {
                assert(init[i] == item);
                let k = choose|k: int| 0 <= k < before.len() && before[k] == item;
                assert(after[k] == item);
            } else if !before.contains(item) {
                assert(after[before.len() as int] == item);
            }
        }
    }
}

/// The roles of several products together are all their roles, each of them once.
pub proof fn roles_are_united(roles: &[u64], distinct: Vec<u64>, role_id: u64)
    requires
        call_ensures(unite_roles, (roles,), distinct),
    ensures
        distinct@.contains(role_id) <==> roles@.contains(role_id),
        forall|i: int, j: int| 0 <= i < j < distinct@.len() ==> distinct@[i] != distinct@[j],
{
    united_are_those(roles@, role_id);
}

/// When links were changed, the product is named and every role that it gives now is mentioned.
pub proof fn changed_links_are_shown(link: bool, of_version: bool, product: &str, roles: &[u64], r: Embed, role_id: u64)
    requires
        call_ensures(links_changed, (link, of_version, product, roles), r),
    ensures
        says(r.description@, product@),
        roles@.contains(role_id) ==> mentions_role(r.description@, role_id),
        roles@.len() == 0 ==> ends_with(r.description@, " will now grant the following roles:"@),
        link && !of_version ==> r.title@ == "Product"@ + " Link Successful"@,
        link && of_version ==> r.title@ == "Product Version"@ + " Link Successful"@,
        !link && !of_version ==> r.title@ == "Product"@ + " Unlink Successful"@,
        !link && of_version ==> r.title@ == "Product Version"@ + " Unlink Successful"@,
{
    assert(r.description@ == r@.description);
    assert(r.title@ == r@.title);
    let distinct = united(roles@);
    let start = product@ + " will now grant the following roles:"@;
    says_its_parts(product@, " will now grant the following roles:"@);
    says_in_concatenation(start, role_bullets(distinct), product@);
    united_are_those(roles@, role_id);
    if roles@.contains(role_id) {
        let i = choose|i: int| 0 <= i < distinct.len() && distinct[i] == role_id;
        role_bullets_mention_each(distinct, i);
        says_in_concatenation(start, role_bullets(distinct), "<@&"@ + decimal(role_id as nat) + ">"@);
    }
    if roles@.len() == 0 {
        assert(start + role_bullets(distinct) =~= start);
    }
}

/// A change of links is refused exactly when nothing has the given name.
pub proof fn only_unknown_names_are_refused(link: bool, of_version: bool, matches: usize, r: Option<Embed>)
    requires
        call_ensures(link_refusal, (link, of_version, matches), r),
    ensures
        r is None <==> matches > 0,
        r matches Some(e) ==> e.description@ == (if of_version {
            "Product version not found."@
        } else {
            "Product not found."@
        }),
{
    if let Some(e) = r {
        assert(e.description@ == e@.description);
    }
}

/// After a role was linked there is a warning exactly when the bot cannot grant it. After one was unlinked there is one
/// exactly when the bot cannot grant some role that is left.
pub proof fn links_are_warned_about(
    assignable: &[u64],
    role_id: u64,
    roles: &[u64],
    linked: Option<Embed>,
    unlinked: Option<Embed>,
)
    requires
        call_ensures(link_warning, (true, assignable, role_id, roles), linked),
        call_ensures(link_warning, (false, assignable, role_id, roles), unlinked),
    ensures
        linked is Some <==> !assignable@.contains(role_id),
        unlinked is None <==> forall|i: int| 0 <= i < roles@.len() ==> assignable@.contains(#[trigger] roles@[i]),
{
    super::util::unassignable_is_empty(assignable@, seq![role_id]);
    super::util::unassignable_is_empty(assignable@, roles@);
    assert(seq![role_id][0] == role_id);
}

/// A member misses a role exactly when it is not among the member's roles.
pub proof fn members_miss_what_they_do_not_have(roles: &[u64], role_id: u64, r: bool)
    requires
        call_ensures(misses_role, (roles, role_id), r),
    ensures
        r <==> !roles@.contains(role_id),
{
}

proof fn store_name_is_last(stores: Seq<LinkedDisplayStore>, id: Seq<char>)
    ensures
        (forall|i: int| 0 <= i < stores.len() ==> (#[trigger] stores[i]).jinxxy_user_id@ != id)
            ==> store_name(stores, id)
            == id,
        forall|i: int|
            0 <= i < stores.len() && (#[trigger] stores[i]).jinxxy_user_id@ == id && (forall|j: int|
                i < j < stores.len() ==> (#[trigger] stores[j]).jinxxy_user_id@ != id) ==> store_name(stores, id) == (
            match stores[i].jinxxy_username {
                Some(username) => username@,
                None => id,
            }),
    decreases stores.len(),
{
    if stores.len() > 0 {
        let init = stores.drop_last();
        let n = stores.len() - 1;
        store_name_is_last(init, id);
        assert forall|i: int| 0 <= i < init.len() implies #[trigger] init[i] == stores[i] by {}
        if stores.last().jinxxy_user_id@ != id {
            assert forall|i: int|
                0 <= i < stores.len() && (#[trigger] stores[i]).jinxxy_user_id@ == id && (forall|j: int|
                    i < j < stores.len()
                        ==> (#[trigger] stores[j]).jinxxy_user_id@ != id) implies store_name(stores, id)
                == (match stores[i].jinxxy_username {
                Some(username) => username@,
                None => id,
            }) by {
                assert(i < n);
                assert(init[i].jinxxy_user_id@ == id);
                assert forall|j: int| i < j < init.len() implies (#[trigger] init[j]).jinxxy_user_id@ != id by {
                    assert(stores[j].jinxxy_user_id@ != id);
                }
            }
            if forall|i: int| 0 <= i < stores.len() ==> (#[trigger] stores[i]).jinxxy_user_id@ != id {
                assert forall|i: int| 0 <= i < init.len() implies (#[trigger] init[i]).jinxxy_user_id@ != id by {
                    assert(stores[i].jinxxy_user_id@ != id);
                }
            }
        } else {
            assert(stores[n].jinxxy_user_id@ == id);
        }
    }
}

/// What gives a role is shown: a product or a product version by its cached name, or else by its ID, together with its
/// store, which is shown by its username if that is known.
pub proof fn sources_are_shown(
    source: LinkSource,
    stores: &[LinkedDisplayStore],
    cached_name: Option<&str>,
    shown: String,
    s: int,
)
    requires
        call_ensures(show_source, (&source, stores, cached_name), shown),
    ensures
        source is GlobalBlanket ==> shown@ == "`*`"@,
        !(source is GlobalBlanket) && cached_name is Some ==> ends_with(shown@, cached_name->0@),
        source matches LinkSource::ProductBlanket { product_id, .. } ==> (cached_name is None ==> ends_with(
            shown@,
            product_id@,
        )),
        source matches LinkSource::ProductVersion { product_version_id, .. } ==> (cached_name is None ==> says(
            shown@,
            product_version_id.product_id@,
        ) && (product_version_id.product_version_id matches Some(version_id) ==> ends_with(shown@, version_id@))),
        source matches LinkSource::ProductBlanket { jinxxy_user_id, .. } ==> (0 <= s < stores@.len()
            && stores@[s].jinxxy_user_id@ == jinxxy_user_id@ && (forall|j: int|
            s < j < stores@.len() ==> (#[trigger] stores@[j]).jinxxy_user_id@ != jinxxy_user_id@)
            && stores@[s].jinxxy_username is Some ==> says(shown@, stores@[s].jinxxy_username->0@)),
        source matches LinkSource::ProductVersion { jinxxy_user_id, .. } ==> (0 <= s < stores@.len()
            && stores@[s].jinxxy_user_id@ == jinxxy_user_id@ && (forall|j: int|
            s < j < stores@.len() ==> (#[trigger] stores@[j]).jinxxy_user_id@ != jinxxy_user_id@)
            && stores@[s].jinxxy_username is Some ==> says(shown@, stores@[s].jinxxy_username->0@)),
{
    match source {
        LinkSource::GlobalBlanket => {},
        LinkSource::ProductBlanket { jinxxy_user_id, product_id } => {
            let name = match cached_name {
                Some(name) => name@,
                None => product_id@,
            };
            let store = store_name(stores@, jinxxy_user_id@);
            store_name_is_last(stores@, jinxxy_user_id@);
            says_its_parts(store + ": "@, name);
            says_its_parts(store, ": "@);
            says_is_transitive(shown@, store + ": "@, store);
        },
        LinkSource::ProductVersion { jinxxy_user_id, product_version_id } => {
            let text = crate::http::jinxxy::product_version_text(product_version_id@);
            let name = match cached_name {
                Some(name) => name@,
                None => text,
            };
            let store = store_name(stores@, jinxxy_user_id@);
            store_name_is_last(stores@, jinxxy_user_id@);
            says_its_parts(store + ": "@, name);
            says_its_parts(store, ": "@);
            says_is_transitive(shown@, store + ": "@, store);
            if cached_name is None {
                let id = product_version_id.product_id@;
                match product_version_id.product_version_id {
                    Some(version_id) => {
                        says_its_parts(id, "."@);
                        says_its_parts(id + "."@, version_id@);
                        says_is_transitive(text, id + "."@, id);
                        says_its_parts(store + ": "@ + (id + "."@), version_id@);
                        assert(shown@ =~= store + ": "@ + (id + "."@) + version_id@);
                    },
                    None => {
                        says_its_parts(id, ".null"@);
                    },
                }
                says_is_transitive(shown@, text, id);
            }
        },
    }
}

proof fn source_lines_say_each(sources: Seq<String>, i: int)
    requires
        0 <= i < sources.len(),
    ensures
        says(source_lines(sources), sources[i]@),
    decreases sources.len(),
{
    let before = source_lines(sources.drop_last());
    let last = sources.last()@;
    if i == sources.len() - 1 {
        says_its_parts(before + "\n  - "@, last);
    } else {
        source_lines_say_each(sources.drop_last(), i);
        says_in_concatenation(before, "\n  - "@, sources[i]@);
        says_in_concatenation(before + "\n  - "@, last, sources[i]@);
    }
}

proof fn links_text_says_each(roles: Seq<RoleLinks>, sudo: bool, i: int, k: int)
    requires
        0 <= i < roles.len(),
    ensures
        says(links_text(roles, sudo), role_heading(roles[i], sudo)),
        0 <= k < roles[i].sources@.len() ==> says(links_text(roles, sudo), roles[i].sources@[k]@),
    decreases roles.len(),
{
    let others = links_text(roles.drop_last(), sudo);
    let last = roles.last();
    let start = if roles.len() == 1 {
        others
    } else {
        others + "\n"@
    };
    let heading = role_heading(last, sudo);
    let lines = source_lines(last.sources@);
    says_its_parts(start, heading);
    says_its_parts(start + heading, lines);
    if i == roles.len() - 1 {
        says_in_concatenation(start + heading, lines, heading);
        if 0 <= k < last.sources@.len() {
            source_lines_say_each(last.sources@, k);
            says_is_transitive(links_text(roles, sudo), lines, last.sources@[k]@);
        }
    } else {
        links_text_says_each(roles.drop_last(), sudo, i, k);
        says_its_parts(others, "\n"@);
        let text = links_text(roles, sudo);
        says_is_transitive(text, start + heading, start);
        says_is_transitive(text, start, others);
        says_is_transitive(text, others, role_heading(roles[i], sudo));
        if 0 <= k < roles[i].sources@.len() {
            says_is_transitive(text, others, roles[i].sources@[k]@);
        }
    }
}

/// All links are listed: each role is mentioned, or named outside of its guild, and so is each thing that gives it.
pub proof fn links_are_listed(roles: &[RoleLinks], sudo: bool, r: Embed, i: int, k: int)
    requires
        call_ensures(list_links, (roles, sudo), r),
        0 <= i < roles@.len(),
    ensures
        !sudo ==> mentions_role(r.description@, roles@[i].role_id),
        sudo ==> (roles@[i].role_name matches Some(name) ==> says(r.description@, name@)),
        sudo && roles@[i].role_name is None ==> mentions_role(r.description@, roles@[i].role_id),
        0 <= k < roles@[i].sources@.len() ==> says(r.description@, roles@[i].sources@[k]@),
{
    let text = r.description@;
    assert(text == r@.description);
    let links = roles@[i];
    links_text_says_each(roles@, sudo, i, k);
    let heading = role_heading(links, sudo);
    let mention = role_mention(links.role_id);
    if !sudo {
        says_its_parts("- "@, mention);
        says_in_concatenation("- "@ + mention, " granted by:"@, mention);
        says_is_transitive(text, heading, mention);
    } else {
        match links.role_name {
            Some(name) => {
                says_its_parts("- `"@, name@);
                says_in_concatenation("- `"@ + name@, "` granted by:"@, name@);
                says_is_transitive(text, heading, name@);
            },
            None => {
                says_its_parts("- `"@, mention);
                says_in_concatenation("- `"@ + mention, "` granted by:"@, mention);
                says_is_transitive(text, heading, mention);
            },
        }
    }
}

/// Without links it is said that there are none.
pub proof fn no_links_means_no_links(roles: &[RoleLinks], sudo: bool, r: Embed)
    requires
        call_ensures(list_links, (roles, sudo), r),
        roles@.len() == 0,
    ensures
        r.description@ == "No product→role links configured"@,
{
    assert(r.description@ == r@.description);
}

proof fn granted_roles_text_says_each(granted: Seq<GrantedRole>, i: int)
    requires
        0 <= i < granted.len(),
    ensures
        says(granted_roles_text(granted), granted_role_text(granted[i])),
    decreases granted.len(),
{
    let others = granted_roles_text(granted.drop_last());
    let start = if granted.len() == 1 {
        others
    } else {
        others + "\n"@
    };
    let last = granted_role_text(granted.last());
    says_its_parts(start, last);
    if i < granted.len() - 1 {
        granted_roles_text_says_each(granted.drop_last(), i);
        says_its_parts(others, "\n"@);
        let text = granted_roles_text(granted);
        says_is_transitive(text, start, others);
        says_is_transitive(text, others, granted_role_text(granted[i]));
    }
}

/// Both the answer and the log mention each role that was granted and each user it was granted to, and say how many
/// users were missing it. The log mentions who has granted them.
pub proof fn granted_roles_are_reported(author_id: u64, granted: &[GrantedRole], r: (Embed, Embed), i: int, k: int)
    requires
        call_ensures(grant_missing_roles, (author_id, granted), r),
        0 <= i < granted@.len(),
    ensures
        mentions_role(r.0.description@, granted@[i].role_id),
        mentions_role(r.1.description@, granted@[i].role_id),
        0 <= k < granted@[i].missing_users@.len() ==> mentions_user(r.0.description@, granted@[i].missing_users@[k]),
        0 <= k < granted@[i].missing_users@.len() ==> mentions_user(r.1.description@, granted@[i].missing_users@[k]),
        says(
            r.0.description@,
            decimal(granted@[i].missing_users@.len()) + "/"@ + decimal(granted@[i].total_users as nat),
        ),
        mentions_user(r.1.description@, author_id),
{
    let answer = r.0.description@;
    let log = r.1.description@;
    assert(answer == r.0@.description);
    assert(log == r.1@.description);
    let g = granted@[i];
    let line = granted_role_text(g);
    granted_roles_text_says_each(granted@, i);
    let counts = decimal(g.missing_users@.len()) + "/"@ + decimal(g.total_users as nat);
    let a = counts + " users were missing "@;
    let b = a + role_mention(g.role_id);
    let c = b + ":"@;
    let users = user_bullets(g.missing_users@);
    assert(line == c + users);
    says_its_parts(counts, " users were missing "@);
    says_its_parts(a, role_mention(g.role_id));
    says_its_parts(b, ":"@);
    says_its_parts(c, users);
    says_is_transitive(line, c, b);
    says_is_transitive(line, b, a);
    says_is_transitive(line, a, counts);
    says_is_transitive(line, b, role_mention(g.role_id));
    says_is_transitive(answer, line, role_mention(g.role_id));
    says_is_transitive(answer, line, counts);
    let start = user_mention(author_id) + " granted missing roles:\n"@;
    says_its_parts(user_mention(author_id), " granted missing roles:\n"@);
    says_its_parts(start, answer);
    says_is_transitive(log, start, user_mention(author_id));
    says_is_transitive(log, answer, role_mention(g.role_id));
    if 0 <= k < g.missing_users@.len() {
        users_of_bullets_are_mentioned(g.missing_users@, k);
        let mention = "<@"@ + decimal(g.missing_users@[k] as nat) + ">"@;
        says_is_transitive(line, users, mention);
        says_is_transitive(answer, line, mention);
        says_is_transitive(log, answer, mention);
    }
}

/// A selection in the form is kept until it is submitted. An empty one is none.
pub proof fn selections_are_kept(form: &mut LinkForm, event: LinkFormEvent, r: LinkFormResponse)
    requires
        call_ensures(LinkForm::handle, (form, event), r),
        !(event is Submit),
    ensures
        r is Wait,
        event matches LinkFormEvent::SelectProducts(ids) ==> final(form).selected_roles == old(form).selected_roles && (
        ids@.len() > 0 ==> final(form).selected_products == Some(ids)) && (ids@.len() == 0
            ==> final(form).selected_products is None),
        event matches LinkFormEvent::SelectRoles(ids) ==> final(form).selected_products == old(form).selected_products
            && (ids@.len() > 0 ==> final(form).selected_roles == Some(ids)) && (ids@.len() == 0
            ==> final(form).selected_roles is None),
        final(form).products == old(form).products,
        final(form).assignable_roles == old(form).assignable_roles,
{
}

/// A form is applied exactly when both products and roles are selected: to all of them, as it was asked for. It starts
/// afresh then. Otherwise nothing changes.
pub proof fn complete_forms_are_applied(form: &mut LinkForm, link: bool, r: LinkFormResponse)
    requires
        call_ensures(LinkForm::handle, (form, LinkFormEvent::Submit { link }), r),
    ensures
        r is Apply <==> old(form).selected_products is Some && old(form).selected_roles is Some,
        !(r is Apply) ==> r is Incomplete && *final(form) == *old(form),
        r matches LinkFormResponse::Apply { link: l, product_ids, role_ids, .. } ==> l == link && Some(product_ids)
            == old(form).selected_products && Some(role_ids) == old(form).selected_roles
            && final(form).selected_products is None && final(form).selected_roles is None,
{
}

proof fn product_link_lines_say_each(product: Seq<char>, role_ids: Seq<u64>, k: int)
    requires
        0 <= k < role_ids.len(),
    ensures
        says(product_link_lines(product, role_ids), product + "→"@ + role_mention(role_ids[k])),
    decreases role_ids.len(),
{
    let before = product_link_lines(product, role_ids.drop_last());
    let mention = role_mention(role_ids.last());
    let all = product_link_lines(product, role_ids);
    let line = product + "→"@ + mention;
    assert(all =~= (before + "\n- "@) + line);
    if k == role_ids.len() - 1 {
        says_its_parts(before + "\n- "@, line);
    } else {
        product_link_lines_say_each(product, role_ids.drop_last(), k);
        let part = product + "→"@ + role_mention(role_ids[k]);
        says_in_concatenation(before, "\n- "@, part);
        says_in_concatenation(before + "\n- "@, line, part);
    }
}

proof fn link_lines_say_each(
    products: Seq<SelectableProduct>,
    product_ids: Seq<String>,
    role_ids: Seq<u64>,
    i: int,
    k: int,
)
    requires
        0 <= i < product_ids.len(),
        0 <= k < role_ids.len(),
    ensures
        says(
            link_lines(products, product_ids, role_ids),
            selectable_name(products, product_ids[i]@) + "→"@ + role_mention(role_ids[k]),
        ),
    decreases product_ids.len(),
{
    let before = link_lines(products, product_ids.drop_last(), role_ids);
    let last = product_link_lines(selectable_name(products, product_ids.last()@), role_ids);
    let part = selectable_name(products, product_ids[i]@) + "→"@ + role_mention(role_ids[k]);
    if i == product_ids.len() - 1 {
        product_link_lines_say_each(selectable_name(products, product_ids.last()@), role_ids, k);
    } else {
        link_lines_say_each(products, product_ids.drop_last(), role_ids, i, k);
    }
    says_in_concatenation(before, last, part);
}

/// The answer to a form shows each of its links, from each product to each role. A product that is not among those that
/// could be selected is shown by its ID.
pub proof fn applied_links_are_shown(form: &mut LinkForm, link: bool, r: LinkFormResponse, i: int, k: int)
    requires
        call_ensures(LinkForm::handle, (form, LinkFormEvent::Submit { link }), r),
        r is Apply,
        0 <= i < r->product_ids@.len(),
        0 <= k < r->role_ids@.len(),
    ensures
        mentions_role(r->Apply_answer.description@, r->role_ids@[k]),
        (forall|j: int|
            0 <= j < old(form).products@.len() ==> (#[trigger] old(form).products@[j]).product_id@
                != r->product_ids@[i]@) ==> says(
            r->Apply_answer.description@,
            r->product_ids@[i]@ + "→"@ + ("<@&"@ + decimal(r->role_ids@[k] as nat) + ">"@),
        ),
        forall|j: int|
            0 <= j < old(form).products@.len() && (#[trigger] old(form).products@[j]).product_id@
                == r->product_ids@[i]@ && (forall|m: int|
                j < m < old(form).products@.len() ==> (#[trigger] old(form).products@[m]).product_id@
                    != r->product_ids@[i]@) ==> says(
                r->Apply_answer.description@,
                ("\""@ + old(form).products@[j].name@ + "\""@) + "→"@ + ("<@&"@ + decimal(r->role_ids@[k] as nat)
                    + ">"@),
            ),
{
    let text = r->Apply_answer.description@;
    assert(text == r->Apply_answer@.description);
    let products = old(form).products@;
    let ids = r->product_ids@;
    let roles = r->role_ids@;
    let lines = link_lines(products, ids, roles);
    let name = selectable_name(products, ids[i]@);
    let line = name + "→"@ + role_mention(roles[k]);
    link_lines_say_each(products, ids, roles, i, k);
    if link {
        says_in_concatenation("The following product→role links have been created:"@, lines, line);
    } else {
        says_in_concatenation("The following product→role links have been removed:"@, lines, line);
    }
    says_its_parts(name + "→"@, role_mention(roles[k]));
    says_is_transitive(text, line, role_mention(roles[k]));
    selectable_name_is_last(products, ids[i]@);
}

proof fn selectable_name_is_last(products: Seq<SelectableProduct>, id: Seq<char>)
    ensures
        (forall|i: int| 0 <= i < products.len() ==> (#[trigger] products[i]).product_id@ != id) ==> selectable_name(
            products,
            id,
        ) == id,
        forall|i: int|
            0 <= i < products.len() && (#[trigger] products[i]).product_id@ == id && (forall|j: int|
                i < j < products.len() ==> (#[trigger] products[j]).product_id@ != id) ==> selectable_name(products, id)
                == "\""@ + products[i].name@ + "\""@,
    decreases products.len(),
{
    if products.len() > 0 {
        let init = products.drop_last();
        let n = products.len() - 1;
        selectable_name_is_last(init, id);
        assert forall|i: int| 0 <= i < init.len() implies #[trigger] init[i] == products[i] by {}
        if products.last().product_id@ != id {
            assert forall|i: int|
                0 <= i < products.len() && (#[trigger] products[i]).product_id@ == id && (forall|j: int|
                    i < j < products.len() ==> (#[trigger] products[j]).product_id@ != id) implies selectable_name(
                products,
                id,
            ) == "\""@ + products[i].name@ + "\""@ by {
                assert(init[i].product_id@ == id);
                assert forall|j: int| i < j < init.len() implies (#[trigger] init[j]).product_id@ != id by {
                    assert(products[j].product_id@ != id);
                }
            }
            if forall|i: int| 0 <= i < products.len() ==> (#[trigger] products[i]).product_id@ != id {
                assert forall|i: int| 0 <= i < init.len() implies (#[trigger] init[i]).product_id@ != id by {
                    assert(products[i].product_id@ != id);
                }
            }
        } else {
            assert(products[n].product_id@ == id);
        }
    }
}

proof fn warnings_mention_ungrantable(assignable: Seq<u64>, linked: Seq<u64>, j: int)
    requires
        0 <= j < linked.len(),
        !assignable.contains(linked[j]),
    ensures
        warnings(assignable, linked).len() > 0,
        mentions_role(warnings(assignable, linked), linked[j]),
    decreases linked.len(),
{
    reveal_strlit("\n- ");
    let others = warnings(assignable, linked.drop_last());
    let mention = role_mention(linked.last());
    let part = "<@&"@ + decimal(linked[j] as nat) + ">"@;
    if j == linked.len() - 1 {
        says_its_parts(others + "\n- "@, mention);
    } else {
        warnings_mention_ungrantable(assignable, linked.drop_last(), j);
        says_in_concatenation(others, "\n- "@, part);
        says_in_concatenation(others + "\n- "@, mention, part);
    }
}

proof fn grantable_roles_are_not_warned_of(assignable: Seq<u64>, linked: Seq<u64>)
    requires
        linked.no_duplicates(),
        forall|j: int| 0 <= j < linked.len() ==> assignable.contains(#[trigger] linked[j]),
    ensures
        warnings(assignable, linked).len() == 0,
    decreases linked.len(),
{
    if linked.len() > 0 {
        let init = linked.drop_last();
        assert forall|j: int| 0 <= j < init.len() implies assignable.contains(#[trigger] init[j]) by {
            assert(linked[j] == init[j]);
        }
        grantable_roles_are_not_warned_of(assignable, init);
        assert(assignable.contains(linked[linked.len() - 1]));
        if init.contains(linked.last()) {
            let j = choose|j: int| 0 <= j < init.len() && init[j] == linked.last();
            assert(linked[j] == linked[linked.len() - 1]);
        }
    }
}

proof fn linked_roles_start_with_the_roles(product_count: nat, role_ids: Seq<u64>, k: int)
    requires
        product_count > 0,
        0 <= k < role_ids.len(),
    ensures
        0 <= k < linked_roles(product_count, role_ids).len(),
        linked_roles(product_count, role_ids)[k] == role_ids[k],
    decreases product_count,
{
    if product_count > 1 {
        linked_roles_start_with_the_roles((product_count - 1) as nat, role_ids, k);
    } else {
        assert(linked_roles(0, role_ids) == Seq::<u64>::empty());
        assert(linked_roles(1, role_ids) =~= role_ids);
    }
}

/// When products are linked, a role that the bot cannot grant is warned of. There is no warning if a single product is
/// linked to roles that it can grant, and never when links are removed.
pub proof fn the_form_warns_of_ungrantable_roles(form: &mut LinkForm, link: bool, r: LinkFormResponse, k: int)
    requires
        call_ensures(LinkForm::handle, (form, LinkFormEvent::Submit { link }), r),
        r is Apply,
        r->product_ids@.len() > 0,
    ensures
        !link ==> r->Apply_warning is None,
        link && 0 <= k < r->role_ids@.len() && !old(form).assignable_roles@.contains(r->role_ids@[k]) ==> (
        r->Apply_warning matches Some(w) && mentions_role(w.description@, r->role_ids@[k])),
        link && r->product_ids@.len() == 1 && r->role_ids@.no_duplicates() && (forall|j: int|
            0 <= j < r->role_ids@.len() ==> old(form).assignable_roles@.contains(#[trigger] r->role_ids@[j]))
            ==> r->Apply_warning is None,
{
    let roles = r->role_ids@;
    let assignable = old(form).assignable_roles@;
    let linked = linked_roles(r->product_ids@.len(), roles);
    if link && 0 <= k < roles.len() && !assignable.contains(roles[k]) {
        linked_roles_start_with_the_roles(r->product_ids@.len(), roles, k);
        warnings_mention_ungrantable(assignable, linked, k);
        let w = r->Apply_warning->0;
        assert(w.description@ == w@.description);
        says_in_concatenation(
            "I don't currently have access to grant the following roles. Please check bot permissions."@,
            warnings(assignable, linked),
            "<@&"@ + decimal(roles[k] as nat) + ">"@,
        );
    }
    if link && r->product_ids@.len() == 1 && roles.no_duplicates() && (forall|j: int|
        0 <= j < roles.len() ==> assignable.contains(#[trigger] roles[j])) {
        assert(linked_roles(0, roles) == Seq::<u64>::empty());
        assert(linked_roles(1, roles) =~= roles);
        grantable_roles_are_not_warned_of(assignable, linked);
    }
}

/// The form uses up the roles that it has linked, and no others.
pub proof fn linked_roles_are_used_up(form: &mut LinkForm, link: bool, r: LinkFormResponse, role_id: u64)
    requires
        call_ensures(LinkForm::handle, (form, LinkFormEvent::Submit { link }), r),
        r is Apply,
        r->product_ids@.len() > 0,
    ensures
        final(form).assignable_roles@.contains(role_id) <==> old(form).assignable_roles@.contains(role_id) && !(link
            && r->role_ids@.contains(role_id)),
{
    super::util::filtered_are_those(
        old(form).assignable_roles@,
        |role_id: u64| !old(form).selected_roles->0@.contains(role_id) || old(form).selected_products->0@.len() == 0,
        role_id,
    );
}

} // verus!
