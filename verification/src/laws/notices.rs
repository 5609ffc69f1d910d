//! What users are told about their registration, and what is logged of it

use super::registration::names;
use super::texts::{
    mentions_role, mentions_user, role_bullets_mention_each, says, says_in_concatenation, says_is_transitive,
    says_its_parts, users_of_bullets_are_mentioned,
};
use crate::bot::message::{role_bullets, user_bullets, user_mention, Colour};
use crate::bot::registration::{
    licensed_product, outcome_bullets, Registration, RegistrationAction, RegistrationStage,
};
use crate::http::jinxxy::{activation_user_id, activation_user_ids, LicenseInfo};
use crate::license::{every_activator_is_seen, license_type_name};
use crate::text::decimal;
use vstd::prelude::*;

verus! {

/// Whether an outcome is the given one.
pub open spec fn has_outcome(granted: bool) -> spec_fn((u64, bool)) -> bool {
    |outcome: (u64, bool)| outcome.1 == granted
}

/// The roles with an outcome, in order.
pub open spec fn roles_with(outcomes: Seq<(u64, bool)>, granted: bool) -> Seq<u64> {
    outcomes.filter(has_outcome(granted)).map_values(|outcome: (u64, bool)| outcome.0)
}

proof fn outcome_bullets_list_roles(outcomes: Seq<(u64, bool)>, granted: bool)
    ensures
        outcome_bullets(outcomes, granted) == role_bullets(roles_with(outcomes, granted)),
    decreases outcomes.len(),
{
    reveal(Seq::filter);
    let ids = roles_with(outcomes, granted);
    if outcomes.len() > 0 {
        let init = outcomes.drop_last();
        outcome_bullets_list_roles(init, granted);
        let before = roles_with(init, granted);
        if outcomes.last().1 == granted {
            assert(ids =~= before.push(outcomes.last().0));
            assert(ids.drop_last() =~= before);
        } else {
            assert(ids =~= before);
        }
    } else {
        assert(ids =~= Seq::<u64>::empty());
    }
}

proof fn roles_with_has(outcomes: Seq<(u64, bool)>, granted: bool, i: int)
    requires
        0 <= i < outcomes.len(),
        outcomes[i].1 == granted,
    ensures
        roles_with(outcomes, granted).contains(outcomes[i].0),
{
    let keep = has_outcome(granted);
    super::util::filtered_are_those(outcomes, keep, outcomes[i]);
    assert(outcomes.contains(outcomes[i]));
    let kept = outcomes.filter(keep);
    let k = choose|k: int| 0 <= k < kept.len() && kept[k] == outcomes[i];
    assert(roles_with(outcomes, granted)[k] == outcomes[i].0);
}

proof fn bullets_mention_outcome(outcomes: Seq<(u64, bool)>, i: int)
    requires
        0 <= i < outcomes.len(),
    ensures
        mentions_role(outcome_bullets(outcomes, outcomes[i].1), outcomes[i].0),
        outcome_bullets(outcomes, outcomes[i].1).len() > 0,
{
    let g = outcomes[i].1;
    let ids = roles_with(outcomes, g);
    outcome_bullets_list_roles(outcomes, g);
    roles_with_has(outcomes, g, i);
    let k = choose|k: int| 0 <= k < ids.len() && ids[k] == outcomes[i].0;
    role_bullets_mention_each(ids, k);
    reveal_strlit("<@&");
}

proof fn no_bullets_without_outcome(outcomes: Seq<(u64, bool)>, granted: bool)
    requires
        forall|i: int| 0 <= i < outcomes.len() ==> (#[trigger] outcomes[i]).1 != granted,
    ensures
        outcome_bullets(outcomes, granted).len() == 0,
    decreases outcomes.len(),
{
    if outcomes.len() > 0 {
        let init = outcomes.drop_last();
        assert forall|i: int| 0 <= i < init.len() implies (#[trigger] init[i]).1 != granted by {
            assert(init[i] == outcomes[i]);
        }
        assert(outcomes[outcomes.len() - 1].1 != granted);
        no_bullets_without_outcome(init, granted);
    }
}

/// The product of a license is shown by its name, and by that of its version if it has one.
pub proof fn products_are_shown_with_their_version(info: LicenseInfo)
    ensures
        says(licensed_product(info), info.product_name@),
        info.product_version_info is None ==> licensed_product(info) == info.product_name@,
        info.product_version_info matches Some(version) ==> licensed_product(info) == info.product_name@ + " (version "@
            + version.product_version_name@ + ")"@,
{
    super::texts::says_itself(info.product_name@);
    if let Some(version) = info.product_version_info {
        says_its_parts(info.product_name@, " (version "@);
        says_in_concatenation(info.product_name@ + " (version "@, version.product_version_name@, info.product_name@);
        says_in_concatenation(
            info.product_name@ + " (version "@ + version.product_version_name@,
            ")"@,
            info.product_name@,
        );
    }
}

/// A user who has registered a product is told of each role that was granted, and of each that was not. It is a full
/// success exactly when all were granted.
pub proof fn users_are_told_of_their_roles(r: Registration, i: int)
    requires
        r.stage is NotifyGranted,
    ensures
        r.due_action() matches RegistrationAction::Notify { embed, .. } && {
            let outcomes = r.stage->NotifyGranted_outcomes@;
            &&& (forall|j: int| 0 <= j < outcomes.len() ==> (#[trigger] outcomes[j]).1) ==> embed.title
                == "Registration Success"@ && embed.colour == Some(Colour::DarkGreen)
            &&& (exists|j: int| 0 <= j < outcomes.len() && !(#[trigger] outcomes[j]).1) ==> embed.title
                == "Registration Partial Success"@ && embed.colour == Some(Colour::Orange)
            &&& 0 <= i < outcomes.len() ==> mentions_role(embed.description, outcomes[i].0)
            &&& says(embed.description, licensed_product(r.stage->NotifyGranted_license_info))
        },
{
    let outcomes = r.stage->NotifyGranted_outcomes@;
    let product = licensed_product(r.stage->NotifyGranted_license_info);
    let errors = outcome_bullets(outcomes, false);
    let start = "Congratulations, you are now registered as an owner of the "@ + product;
    let middle = start + " product and have been granted the following roles:"@;
    let granted = outcome_bullets(outcomes, true);
    let message = middle + granted;
    let a = message + "\n\nFailed to grant access to roles:"@;
    let b = a + errors;
    let end = "\nThe bot may lack permission to grant the above roles. Contact your server administrator for support."@;
    says_its_parts("Congratulations, you are now registered as an owner of the "@, product);
    says_in_concatenation(start, " product and have been granted the following roles:"@, product);
    says_in_concatenation(middle, granted, product);
    says_its_parts(message, "\n\nFailed to grant access to roles:"@);
    says_its_parts(middle, granted);
    says_its_parts(a, errors);
    says_its_parts(b, end);
    says_is_transitive(b, a, message);
    says_is_transitive(b + end, b, message);
    says_is_transitive(b + end, message, product);
    if forall|j: int| 0 <= j < outcomes.len() ==> (#[trigger] outcomes[j]).1 {
        no_bullets_without_outcome(outcomes, false);
    }
    if exists|j: int| 0 <= j < outcomes.len() && !(#[trigger] outcomes[j]).1 {
        let j = choose|j: int| 0 <= j < outcomes.len() && !(#[trigger] outcomes[j]).1;
        bullets_mention_outcome(outcomes, j);
    }
    if 0 <= i < outcomes.len() {
        bullets_mention_outcome(outcomes, i);
        let mention = "<@&"@ + decimal(outcomes[i].0 as nat) + ">"@;
        if outcomes[i].1 {
            says_is_transitive(message, granted, mention);
            says_is_transitive(b + end, message, mention);
        } else {
            says_is_transitive(b, errors, mention);
            says_is_transitive(b + end, b, mention);
        }
    }
}

/// The log mentions the user, the product and each role that was granted. Roles that could not be granted are logged
/// apart, exactly when there are any.
pub proof fn granted_roles_are_logged(r: Registration, i: int)
    requires
        r.stage is SendGrantedLog,
    ensures
        r.due_action() matches RegistrationAction::SendLog { channel_id, embed, second_embed } && {
            let outcomes = r.stage->SendGrantedLog_outcomes@;
            &&& channel_id == r.stage->SendGrantedLog_channel_id
            &&& mentions_user(embed.description, r.user_id)
            &&& says(embed.description, licensed_product(r.stage->SendGrantedLog_license_info))
            &&& 0 <= i < outcomes.len() && outcomes[i].1 ==> mentions_role(embed.description, outcomes[i].0)
            &&& second_embed is Some <==> exists|j: int| 0 <= j < outcomes.len() && !(#[trigger] outcomes[j]).1
            &&& second_embed matches Some(errors) ==> mentions_user(errors.description, r.user_id) && (0 <= i
                < outcomes.len() && !outcomes[i].1 ==> mentions_role(errors.description, outcomes[i].0))
        },
{
    let outcomes = r.stage->SendGrantedLog_outcomes@;
    let product = licensed_product(r.stage->SendGrantedLog_license_info);
    let user = user_mention(r.user_id);
    let granted = outcome_bullets(outcomes, true);
    let errors = outcome_bullets(outcomes, false);
    let a = user + " has registered the "@;
    let b = a + product;
    let c = b + " product and has been granted the following roles:"@;
    let log = c + granted;
    says_its_parts(user, " has registered the "@);
    says_its_parts(a, product);
    says_its_parts(b, " product and has been granted the following roles:"@);
    says_its_parts(c, granted);
    says_is_transitive(log, c, b);
    says_is_transitive(log, b, product);
    says_is_transitive(log, b, a);
    says_is_transitive(log, a, user);
    let d = "Failed to grant "@ + user;
    let e = d + " access to the following roles:"@;
    let f = e + errors;
    let g = f + "\nPlease check bot permissions."@;
    says_its_parts("Failed to grant "@, user);
    says_its_parts(d, " access to the following roles:"@);
    says_its_parts(e, errors);
    says_its_parts(f, "\nPlease check bot permissions."@);
    says_is_transitive(g, f, e);
    says_is_transitive(g, e, d);
    says_is_transitive(g, d, user);
    if exists|j: int| 0 <= j < outcomes.len() && !(#[trigger] outcomes[j]).1 {
        let j = choose|j: int| 0 <= j < outcomes.len() && !(#[trigger] outcomes[j]).1;
        bullets_mention_outcome(outcomes, j);
    } else {
        no_bullets_without_outcome(outcomes, false);
    }
    if 0 <= i < outcomes.len() {
        bullets_mention_outcome(outcomes, i);
        let mention = "<@&"@ + decimal(outcomes[i].0 as nat) + ">"@;
        if outcomes[i].1 {
            says_is_transitive(log, granted, mention);
        } else {
            says_is_transitive(g, f, errors);
            says_is_transitive(g, errors, mention);
        }
    }
}

/// Only roles that were granted are listed as granted, and only others as failed.
pub proof fn outcomes_are_not_mixed_up(outcomes: Seq<(u64, bool)>, granted: bool)
    ensures
        outcome_bullets(outcomes, granted) == role_bullets(roles_with(outcomes, granted)),
        forall|k: int|
            0 <= k < roles_with(outcomes, granted).len() ==> outcomes.contains(
                (#[trigger] roles_with(outcomes, granted)[k], granted),
            ),
{
    outcome_bullets_list_roles(outcomes, granted);
    let keep = has_outcome(granted);
    let kept = outcomes.filter(keep);
    assert forall|k: int| 0 <= k < roles_with(outcomes, granted).len() implies outcomes.contains(
        (#[trigger] roles_with(outcomes, granted)[k], granted),
    ) by {
        super::util::filtered_are_those(outcomes, keep, kept[k]);
        assert(kept.contains(kept[k]));
        assert(kept[k] == (roles_with(outcomes, granted)[k], granted));
    }
}

/// A user who has registered a product without roles is told so, and it is logged with the user and the product.
pub proof fn missing_roles_are_explained(r: Registration)
    ensures
        r.stage matches RegistrationStage::NotifyNoRoles { license_info } ==> (
        r.due_action() matches RegistrationAction::Notify { embed, .. } && says(
            embed.description,
            licensed_product(license_info),
        ) && embed.title == "Registration Partial Success"@),
        r.stage matches RegistrationStage::SendNoRolesLog { channel_id: id, license_info } ==> (
        r.due_action() matches RegistrationAction::SendLog { channel_id, embed, second_embed } && channel_id == id
            && second_embed is None && mentions_user(embed.description, r.user_id) && says(
            embed.description,
            licensed_product(license_info),
        )),
{
    if let RegistrationStage::NotifyNoRoles { license_info } = r.stage {
        let product = licensed_product(license_info);
        says_its_parts("You have registered "@, product);
        says_in_concatenation(
            "You have registered "@ + product,
            ", but there are no configured role links. Please notify the server owner and then try again after role links have been configured."@,
            product,
        );
    }
    if let RegistrationStage::SendNoRolesLog { license_info, .. } = r.stage {
        let product = licensed_product(license_info);
        let user = user_mention(r.user_id);
        let a = user + " has registered the "@;
        let b = a + product;
        let end = " product, which has no configured roles!"@;
        says_its_parts(user, " has registered the "@);
        says_its_parts(a, product);
        says_in_concatenation(a, product, user);
        says_in_concatenation(b, end, user);
        says_in_concatenation(b, end, product);
    }
}

proof fn locked_text_says_so()
    ensures
        says(
            " attempted to activate a locked license. An admin can unlock this license with the `/unlock_license` command."@,
            " attempted to activate a locked license."@,
        ),
{
    let text = " attempted to activate a locked license. An admin can unlock this license with the `/unlock_license` command."@;
    let part = " attempted to activate a locked license."@;
    reveal_strlit(
        " attempted to activate a locked license. An admin can unlock this license with the `/unlock_license` command.",
    );
    reveal_strlit(" attempted to activate a locked license.");
    assert(text.subrange(0, 0int + part.len()) =~= part);
}

/// An attempt to use a license that is locked or used is logged with the user. Unless it is locked, everybody whom its
/// activations name is mentioned.
pub proof fn rejections_are_logged_with_their_users(r: Registration, other: u64)
    requires
        r.stage is SendRejectionLog,
        r.user_id != 0,
    ensures
        r.due_action() matches RegistrationAction::SendLog { channel_id, embed, second_embed } && {
            let activations = r.stage->SendRejectionLog_activations@;
            &&& channel_id == r.stage->SendRejectionLog_channel_id
            &&& second_embed is None
            &&& mentions_user(embed.description, r.user_id)
            &&& names(activations, 0) ==> says(embed.description, " attempted to activate a locked license."@)
            &&& !names(activations, 0) && names(activations, other) ==> mentions_user(embed.description, other)
        },
{
    let activations = r.stage->SendRejectionLog_activations@;
    let ids = activation_user_ids(activations);
    let user = user_mention(r.user_id);
    let locked = " attempted to activate a locked license. An admin can unlock this license with the `/unlock_license` command."@;
    let used = " attempted to activate a license that has already been used by:"@;
    says_its_parts(user, locked);
    says_its_parts(user, used);
    says_in_concatenation(user + used, user_bullets(ids), user);
    if names(activations, 0) {
        let i = choose|i: int|
            0 <= i < activations.len() && activation_user_id((#[trigger] activations[i]).description@) == Some(0u64);
        every_activator_is_seen(activations, i, 0);
        let part = " attempted to activate a locked license."@;
        locked_text_says_so();
        says_in_concatenation(user, locked, part);
    } else {
        if ids.contains(0) {
            crate::license::only_activators_are_seen(activations, 0);
        }
        if names(activations, other) {
            let i = choose|i: int|
                0 <= i < activations.len() && activation_user_id((#[trigger] activations[i]).description@) == Some(
                    other,
                );
            every_activator_is_seen(activations, i, other);
            let k = choose|k: int| 0 <= k < ids.len() && ids[k] == other;
            users_of_bullets_are_mentioned(ids, k);
            says_in_concatenation(user + used, user_bullets(ids), "<@"@ + decimal(other as nat) + ">"@);
        }
    }
}

/// A refused user is told that the key is not valid or already in use. Whatever is no Jinxxy key is named for what it
/// looks like.
pub proof fn refusals_name_what_was_provided(r: Registration)
    requires
        r.stage is NotifyFailed,
    ensures
        r.due_action() matches RegistrationAction::Notify { embed, best_effort } && {
            &&& !best_effort
            &&& embed.title == "Jinxxy Product Registration Failed"@
            &&& embed.colour == Some(Colour::Red)
            &&& r.license_type is JinxxyShort || r.license_type is JinxxyLong ==> embed.description
                == "The provided Jinxxy license key was not valid or is already in use"@
            &&& !(r.license_type is JinxxyShort || r.license_type is JinxxyLong) ==> says(
                embed.description,
                license_type_name(r.license_type),
            )
        },
{
    let start = "The provided Jinxxy license key was not valid or is already in use.\n\n**This bot only supports Jinxxy keys**, but you appear to have provided "@;
    let name = license_type_name(r.license_type);
    let end = ". Please confirm you are providing the correct value to the correct bot. Jinxxy keys should look like `XXXX-cd071c534191` or `3642d957-c5d8-4d18-a1ae-cd071c534191`."@;
    says_its_parts(start, name);
    says_in_concatenation(start + name, end, name);
}

/// What goes wrong is told in red, and a deadlock is logged with the user.
pub proof fn failures_are_told_in_red(r: Registration)
    ensures
        r.stage is NotifyMissingKey || r.stage is NotifyMissingApiKey ==> (
        r.due_action() matches RegistrationAction::Notify { embed, best_effort } && best_effort && embed.colour == Some(
            Colour::Red,
        )),
        r.stage matches RegistrationStage::SendDeadlockLog { channel_id: id } ==> (
        r.due_action() matches RegistrationAction::SendLog { channel_id, embed, second_embed } && channel_id == id
            && second_embed is None && mentions_user(embed.description, r.user_id)
                && embed.colour == Some(Colour::Red)),
{
    says_its_parts(
        user_mention(r.user_id),
        " attempted to activate a deadlocked license. It shouldn't be possible, but multiple users have already activated this license. An admin can use the `/deactivate_license` command to fix this manually."@,
    );
}

} // verus!
