//! The registration of a license, from the submitted key to the granted roles

use crate::bot::registration::{
    is_run, leads_to, roles_follow_a_clean_list, Registration, RegistrationAction, RegistrationError,
    RegistrationEvent, RegistrationRequest, RegistrationStage,
};
use crate::http::jinxxy::{activation_user_id, activation_user_ids, LicenseActivation, LicenseInfo, LicenseKeyView};
use crate::license::{
    every_activator_is_seen, free_means_activated_by_nobody_else, is_free_for, only_activators_are_seen,
    validation_is_clean_iff_free,
};
use vstd::prelude::*;

verus! {

/// Whether none of the activations of a license names anybody but a user. The user 0 is the lock.
pub open spec fn only_names(activations: Seq<LicenseActivation>, user_id: u64) -> bool {
    forall|i: int|
        0 <= i < activations.len() ==> (activation_user_id((#[trigger] activations[i]).description@) matches Some(id)
            ==> id == user_id)
}

/// Whether some activation of a license names a user.
pub open spec fn names(activations: Seq<LicenseActivation>, user_id: u64) -> bool {
    exists|i: int|
        0 <= i < activations.len() && activation_user_id((#[trigger] activations[i]).description@) == Some(user_id)
}

/// Whether a registration goes from one state to another when it gets an answer.
pub open spec fn steps(before: Registration, event: RegistrationEvent, after: Registration) -> bool {
    before.wf() && before.answered_by(event) && call_ensures(Registration::step, (before, event), after)
}

proof fn only_names_means_free(activations: Seq<LicenseActivation>, user_id: u64)
    ensures
        only_names(activations, user_id) <==> is_free_for(user_id, activation_user_ids(activations)),
{
    free_means_activated_by_nobody_else(activations, user_id);
}

proof fn names_means_contained(activations: Seq<LicenseActivation>, user_id: u64)
    ensures
        names(activations, user_id) <==> activation_user_ids(activations).contains(user_id),
{
    if names(activations, user_id) {
        let i = choose|i: int|
            0 <= i < activations.len() && activation_user_id((#[trigger] activations[i]).description@) == Some(user_id);
        every_activator_is_seen(activations, i, user_id);
    }
    if activation_user_ids(activations).contains(user_id) {
        only_activators_are_seen(activations, user_id);
    }
}

/// A step changes nothing but how far the registration has come: it is of the same user, in the same guild, with the
/// same key.
pub proof fn a_step_keeps_the_request(before: Registration, event: RegistrationEvent, after: Registration)
    requires
        steps(before, event, after),
    ensures
        after.guild_id == before.guild_id,
        after.user_id == before.user_id,
        after.license_key == before.license_key,
        after.license_type == before.license_type,
        after.is_member == before.is_member,
{
}

/// The roles of a product are granted, all of them, as soon as they are known. Only a product without roles is one of
/// which the user is told that there are none.
pub proof fn loaded_roles_are_granted(before: Registration, role_ids: Vec<u64>, after: Registration)
    requires
        before.stage is LoadRoleGrants,
        steps(before, RegistrationEvent::RoleGrants(role_ids), after),
    ensures
        role_ids@.len() > 0 ==> after.stage == (RegistrationStage::GrantRoles {
            license_info: before.stage->LoadRoleGrants_license_info,
            role_ids,
        }),
        role_ids@.len() > 0 ==> (after.due_action() matches RegistrationAction::GrantRoles { role_ids: granted }
            && *granted == role_ids),
        role_ids@.len() == 0 ==> after.stage == (RegistrationStage::NotifyNoRoles {
            license_info: before.stage->LoadRoleGrants_license_info,
        }),
{
}

/// A form without a license key is answered at once. Any other form leads to the store of its button, and a legacy
/// button to the default store of the guild.
pub proof fn a_form_leads_to_its_store(request: RegistrationRequest, r: Registration)
    requires
        call_ensures(Registration::start, (request,), r),
        request.license_key is Some,
        r.license_key@.len() > 0,
    ensures
        r.user_id == request.user_id,
        r.is_member == request.is_member,
        request.guild_id is None ==> r.stage == RegistrationStage::Aborted(RegistrationError::NotInGuild),
        request.guild_id matches Some(guild_id) ==> {
            &&& r.guild_id == guild_id
            &&& request.jinxxy_user_id matches Some(store) ==> r.stage == (RegistrationStage::LoadApiKey {
                jinxxy_user_id: store,
            })
            &&& request.jinxxy_user_id is None ==> r.stage == RegistrationStage::LoadDefaultStore
        },
{
}

/// A store is looked up in the guild, and its API key is used for the license. Whatever may be a Jinxxy license key is
/// looked up. Only what is clearly something else is refused.
pub proof fn a_jinxxy_key_is_looked_up(
    before: Registration,
    store: Option<String>,
    api_key: Option<String>,
    found: Registration,
    keyed: Registration,
)
    requires
        before.stage is LoadDefaultStore,
        steps(before, RegistrationEvent::DefaultStore(store), found),
        store is Some ==> steps(found, RegistrationEvent::ApiKey(api_key), keyed),
    ensures
        store is None ==> found.stage == RegistrationStage::Aborted(RegistrationError::NoDefaultStore),
        store is Some ==> found.stage == (RegistrationStage::LoadApiKey { jinxxy_user_id: store->0 }),
        store is Some && api_key is None ==> keyed.stage is NotifyMissingApiKey,
        store is Some && api_key is Some && !(before.license_type is Gumroad || before.license_type is Integer
            || before.license_type is Payhip)
                ==> keyed.stage == (RegistrationStage::CheckLicense { jinxxy_user_id: store->0, api_key: api_key->0 }),
        store is Some && api_key is Some && (before.license_type is Gumroad || before.license_type is Integer
            || before.license_type is Payhip) ==> keyed.stage is NotifyFailed || keyed.stage is CountGumroadFailure,
{
}

/// Every refused Gumroad key is counted before its user is told, and no other key is.
pub proof fn gumroad_keys_are_counted(before: Registration, event: RegistrationEvent, after: Registration)
    requires
        steps(before, event, after),
        !(before.stage is CountGumroadFailure),
    ensures
        after.stage is NotifyFailed ==> !(before.license_type is Gumroad),
        after.stage is CountGumroadFailure ==> before.license_type is Gumroad,
{
}

/// A license that exists is checked: without any activation the database is asked, otherwise Jinxxy is asked for the
/// activations. A license that does not exist is refused.
pub proof fn a_license_is_checked(before: Registration, license_info: Option<LicenseInfo>, after: Registration)
    requires
        before.stage is CheckLicense,
        steps(before, RegistrationEvent::License(license_info), after),
    ensures
        license_info is None ==> after.stage is NotifyFailed || after.stage is CountGumroadFailure,
        license_info matches Some(info) ==> {
            &&& !before.is_member ==> after.stage == RegistrationStage::Aborted(RegistrationError::NotInGuild)
            &&& before.is_member && info.activations == 0 ==> after.stage == (RegistrationStage::CheckRecord {
                jinxxy_user_id: before.stage->CheckLicense_jinxxy_user_id,
                api_key: before.stage->CheckLicense_api_key,
                license_info: info,
                known_activations: None,
                own_user: false,
            })
            &&& before.is_member && info.activations != 0 ==> after.stage == (RegistrationStage::ListActivations {
                jinxxy_user_id: before.stage->CheckLicense_jinxxy_user_id,
                api_key: before.stage->CheckLicense_api_key,
                license_info: info,
            })
        },
{
}

/// A license goes on exactly when none of its activations names anybody but the user, the lock included. What was
/// listed is kept, and so is whether it names the user.
pub proof fn a_free_license_goes_on(before: Registration, activations: Vec<LicenseActivation>, after: Registration)
    requires
        before.stage is ListActivations,
        steps(before, RegistrationEvent::Activations(activations), after),
    ensures
        only_names(activations@, before.user_id) ==> after.stage == (RegistrationStage::CheckRecord {
            jinxxy_user_id: before.stage->ListActivations_jinxxy_user_id,
            api_key: before.stage->ListActivations_api_key,
            license_info: before.stage->ListActivations_license_info,
            known_activations: Some(activations),
            own_user: names(activations@, before.user_id),
        }),
        !only_names(activations@, before.user_id) ==> after.stage == (RegistrationStage::LoadRejectionLog {
            activations,
        }),
{
    only_names_means_free(activations@, before.user_id);
    names_means_contained(activations@, before.user_id);
}

/// A license that the user has not activated is activated, whatever the database says. An activation that the
/// database does not know of is put into it, and one that it knows of leads to the roles.
pub proof fn a_license_is_activated_once(before: Registration, present: bool, after: Registration)
    requires
        before.stage is CheckRecord,
        steps(before, RegistrationEvent::RecordPresent(present), after),
    ensures
        ({
            let own_user = before.stage->CheckRecord_own_user;
            let info = before.stage->CheckRecord_license_info;
            let store = before.stage->CheckRecord_jinxxy_user_id;
            &&& !own_user ==> after.stage == (RegistrationStage::CreateActivation {
                jinxxy_user_id: store,
                api_key: before.stage->CheckRecord_api_key,
                license_info: info,
            })
            &&& own_user && !present ==> after.stage is RestoreRecord && after.stage->RestoreRecord_jinxxy_user_id
                == store && after.stage->RestoreRecord_license_info == info && after.stage->RestoreRecord_activation_id
                == before.stage->CheckRecord_known_activations->0@[0].id
            &&& own_user && present ==> after.stage == (RegistrationStage::LoadRoleGrants { license_info: info })
        }),
{
}

/// A restored record leads to the roles of its license.
pub proof fn a_restored_record_leads_to_roles(before: Registration, after: Registration)
    requires
        before.stage is RestoreRecord,
        steps(before, RegistrationEvent::Done, after),
    ensures
        after.stage == (RegistrationStage::LoadRoleGrants {
            license_info: before.stage->RestoreRecord_license_info,
        }),
{
}

/// A new activation is recorded under the ID that Jinxxy gave it, and then the activations are listed again. The
/// license gets to its roles exactly when none of them names anybody but the user.
pub proof fn a_new_activation_leads_to_roles(
    before: Registration,
    activation_id: String,
    activations: Vec<LicenseActivation>,
    activated: Registration,
    recorded: Registration,
    after: Registration,
)
    requires
        before.stage is CreateActivation,
        steps(before, RegistrationEvent::Activated(activation_id), activated),
        steps(activated, RegistrationEvent::Done, recorded),
        steps(recorded, RegistrationEvent::Activations(activations), after),
    ensures
        activated.stage == (RegistrationStage::RecordActivation {
            jinxxy_user_id: before.stage->CreateActivation_jinxxy_user_id,
            api_key: before.stage->CreateActivation_api_key,
            license_info: before.stage->CreateActivation_license_info,
            activation_id,
        }),
        recorded.stage == (RegistrationStage::ListActivationsAgain {
            api_key: before.stage->CreateActivation_api_key,
            license_info: before.stage->CreateActivation_license_info,
        }),
        only_names(activations@, before.user_id) ==> after.stage == (RegistrationStage::LoadRoleGrants {
            license_info: before.stage->CreateActivation_license_info,
        }),
        !only_names(activations@, before.user_id) ==> after.stage is LoadDeadlockLog || after.stage is NotifyFailed
            || after.stage is CountGumroadFailure,
{
    only_names_means_free(activations@, before.user_id);
    let ids = activation_user_ids(activations@);
    validation_is_clean_iff_free(before.user_id, ids);
}

/// A refused license is logged if there is a log channel, with what was listed of it, and then refused.
pub proof fn a_refused_license_is_logged(
    before: Registration,
    channel: Option<u64>,
    after: Registration,
    logged: Registration,
)
    requires
        before.stage is LoadRejectionLog || before.stage is LoadDeadlockLog,
        steps(before, RegistrationEvent::LogChannel(channel), after),
        channel is Some ==> steps(after, RegistrationEvent::Done, logged),
    ensures
        channel is None ==> after.stage is NotifyFailed || after.stage is CountGumroadFailure,
        channel matches Some(channel_id) ==> {
            &&& before.stage matches RegistrationStage::LoadRejectionLog { activations } ==> after.stage == (
            RegistrationStage::SendRejectionLog { channel_id, activations })
            &&& before.stage is LoadDeadlockLog ==> after.stage == (RegistrationStage::SendDeadlockLog { channel_id })
            &&& logged.stage is NotifyFailed || logged.stage is CountGumroadFailure
        },
{
}

/// When two users have raced their way to an activation each, the deadlock is logged: that is so exactly when the
/// activations name both the user and somebody else who is not the lock.
pub proof fn a_deadlock_is_noticed(before: Registration, activations: Vec<LicenseActivation>, after: Registration)
    requires
        before.stage is ListActivationsAgain,
        steps(before, RegistrationEvent::Activations(activations), after),
    ensures
        after.stage is LoadDeadlockLog <==> names(activations@, before.user_id) && exists|id: u64|
            id != before.user_id && id != 0 && #[trigger] names(activations@, id),
{
    let ids = activation_user_ids(activations@);
    names_means_contained(activations@, before.user_id);
    assert forall|id: u64| #[trigger] names(activations@, id) <==> ids.contains(id) by {
        names_means_contained(activations@, id);
    }
    if exists|i: int| 0 <= i < ids.len() && #[trigger] ids[i] != before.user_id && ids[i] != 0 {
        let i = choose|i: int| 0 <= i < ids.len() && #[trigger] ids[i] != before.user_id && ids[i] != 0;
        assert(ids.contains(ids[i]));
        assert(names(activations@, ids[i]));
    }
    if exists|id: u64| id != before.user_id && id != 0 && #[trigger] names(activations@, id) {
        let id = choose|id: u64| id != before.user_id && id != 0 && #[trigger] names(activations@, id);
        let i = choose|i: int| 0 <= i < ids.len() && ids[i] == id;
        assert(ids[i] != before.user_id);
    }
}

/// A counted key is refused.
pub proof fn a_counted_key_is_refused(before: Registration, after: Registration)
    requires
        before.stage is CountGumroadFailure,
        steps(before, RegistrationEvent::Done, after),
    ensures
        after.stage is NotifyFailed,
{
}

/// What came of the roles is told to the user and then logged, if there is a log channel: the same outcomes, of the
/// same license.
pub proof fn outcomes_are_told_and_logged(
    before: Registration,
    outcomes: Vec<(u64, bool)>,
    channel: Option<u64>,
    granted: Registration,
    told: Registration,
    after: Registration,
)
    requires
        before.stage is GrantRoles,
        steps(before, RegistrationEvent::RolesGranted(outcomes), granted),
        steps(granted, RegistrationEvent::Done, told),
        steps(told, RegistrationEvent::LogChannel(channel), after),
    ensures
        ({
            let license_info = before.stage->GrantRoles_license_info;
            &&& granted.stage == (RegistrationStage::NotifyGranted { license_info, outcomes })
            &&& told.stage == (RegistrationStage::LoadGrantedLog { license_info, outcomes })
            &&& channel is None ==> after.stage is Finished
            &&& channel matches Some(channel_id) ==> after.stage == (RegistrationStage::SendGrantedLog {
                channel_id,
                license_info,
                outcomes,
            })
        }),
{
}

/// That a product has no roles is told to the user and then logged, if there is a log channel.
pub proof fn missing_roles_are_told_and_logged(
    before: Registration,
    channel: Option<u64>,
    told: Registration,
    after: Registration,
)
    requires
        before.stage is NotifyNoRoles,
        steps(before, RegistrationEvent::Done, told),
        steps(told, RegistrationEvent::LogChannel(channel), after),
    ensures
        ({
            let license_info = before.stage->NotifyNoRoles_license_info;
            &&& told.stage == (RegistrationStage::LoadNoRolesLog { license_info })
            &&& channel is None ==> after.stage is Finished
            &&& channel matches Some(channel_id) ==> after.stage == (RegistrationStage::SendNoRolesLog {
                channel_id,
                license_info,
            })
        }),
{
}

/// A registration ends once the last that is to be said was said, and not before.
pub proof fn only_what_was_said_ends(before: Registration, event: RegistrationEvent, after: Registration)
    requires
        steps(before, event, after),
    ensures
        after.stage is Finished <==> (before.stage is NotifyMissingKey || before.stage is NotifyMissingApiKey
            || before.stage is NotifyFailed || before.stage is SendNoRolesLog || before.stage is SendGrantedLog || ((
        before.stage is LoadNoRolesLog || before.stage is LoadGrantedLog) && event
            == RegistrationEvent::LogChannel(None))),
{
}

/// A whole registration of a license that nobody has activated: the license is activated for the user and recorded,
/// and once the activations name nobody else, all roles that are loaded are granted.
pub proof fn a_free_license_gets_its_roles(
    request: RegistrationRequest,
    license_info: LicenseInfo,
    store: String,
    api_key: String,
    present: bool,
    activation_id: String,
    activations: Vec<LicenseActivation>,
    role_ids: Vec<u64>,
    states: Seq<Registration>,
)
    requires
        request.license_key is Some,
        request.guild_id is Some,
        request.jinxxy_user_id == Some(store),
        request.is_member,
        license_info.activations == 0,
        only_names(activations@, request.user_id),
        role_ids@.len() > 0,
        states.len() == 8,
        call_ensures(Registration::start, (request,), states[0]),
        states[0].license_key@.len() > 0,
        states[0].license_type is JinxxyShort || states[0].license_type is JinxxyLong,
        steps(states[0], RegistrationEvent::ApiKey(Some(api_key)), states[1]),
        steps(states[1], RegistrationEvent::License(Some(license_info)), states[2]),
        steps(states[2], RegistrationEvent::RecordPresent(present), states[3]),
        steps(states[3], RegistrationEvent::Activated(activation_id), states[4]),
        steps(states[4], RegistrationEvent::Done, states[5]),
        steps(states[5], RegistrationEvent::Activations(activations), states[6]),
        steps(states[6], RegistrationEvent::RoleGrants(role_ids), states[7]),
    ensures
        states[3].due_action() matches RegistrationAction::CreateActivation { api_key: k, license_id, user_id }
            && *k == api_key && *license_id == license_info.license_id && user_id == request.user_id,
        states[4].due_action() matches RegistrationAction::RecordActivation {
            jinxxy_user_id,
            license_id,
            activation_id: a,
            user_id,
            product_id,
            ..
        } && *jinxxy_user_id == store && *license_id == license_info.license_id && *a == activation_id && user_id
            == request.user_id && *product_id == license_info.product_id,
        states[6].due_action() matches RegistrationAction::LoadRoleGrants { guild_id, product_version_id }
            && Some(guild_id) == request.guild_id && product_version_id.product_id@ == license_info.product_id@,
        states[7].due_action() matches RegistrationAction::GrantRoles { role_ids: granted } && *granted == role_ids,
{
    a_license_is_checked(states[1], Some(license_info), states[2]);
    a_license_is_activated_once(states[2], present, states[3]);
    a_new_activation_leads_to_roles(states[3], activation_id, activations, states[4], states[5], states[6]);
    loaded_roles_are_granted(states[6], role_ids, states[7]);
}

/// A whole registration of a license that the user alone has activated before: nothing is activated again, and all
/// roles that are loaded are granted.
pub proof fn an_own_license_gets_its_roles_again(
    request: RegistrationRequest,
    license_info: LicenseInfo,
    store: String,
    api_key: String,
    activations: Vec<LicenseActivation>,
    role_ids: Vec<u64>,
    states: Seq<Registration>,
)
    requires
        request.license_key is Some,
        request.guild_id is Some,
        request.jinxxy_user_id == Some(store),
        request.is_member,
        license_info.activations != 0,
        only_names(activations@, request.user_id),
        names(activations@, request.user_id),
        role_ids@.len() > 0,
        states.len() == 6,
        call_ensures(Registration::start, (request,), states[0]),
        states[0].license_key@.len() > 0,
        states[0].license_type is JinxxyShort || states[0].license_type is JinxxyLong,
        steps(states[0], RegistrationEvent::ApiKey(Some(api_key)), states[1]),
        steps(states[1], RegistrationEvent::License(Some(license_info)), states[2]),
        steps(states[2], RegistrationEvent::Activations(activations), states[3]),
        steps(states[3], RegistrationEvent::RecordPresent(true), states[4]),
        steps(states[4], RegistrationEvent::RoleGrants(role_ids), states[5]),
    ensures
        states[5].due_action() matches RegistrationAction::GrantRoles { role_ids: granted } && *granted == role_ids,
{
    a_license_is_checked(states[1], Some(license_info), states[2]);
    a_free_license_goes_on(states[2], activations, states[3]);
    a_license_is_activated_once(states[3], true, states[4]);
    loaded_roles_are_granted(states[4], role_ids, states[5]);
}

/// What is due is done for the guild, the user and the store of the registration, with the API key of the store and the
/// license that was found.
pub proof fn actions_are_about_the_registration(r: Registration)
    requires
        r.wf(),
    ensures
        r.stage is LoadDefaultStore ==> (r.due_action() matches RegistrationAction::LoadDefaultStore { guild_id }
            && guild_id == r.guild_id),
        r.stage matches RegistrationStage::LoadApiKey { jinxxy_user_id: store } ==> (
        r.due_action() matches RegistrationAction::LoadApiKey { guild_id, jinxxy_user_id } && guild_id == r.guild_id
            && *jinxxy_user_id == store),
        r.stage matches RegistrationStage::CheckLicense { api_key: k, .. } ==> (
        r.due_action() matches RegistrationAction::CheckLicense { api_key, license } && *api_key == k && (
        r.license_type is JinxxyLong ==> license == LicenseKeyView::Long(r.license_key@)) && (!(
        r.license_type is JinxxyLong) ==> license == LicenseKeyView::Short(r.license_key@))),
        r.stage matches RegistrationStage::ListActivations { api_key: k, license_info, .. } ==> (
        r.due_action() matches RegistrationAction::ListActivations { api_key, license_id } && *api_key == k
            && *license_id == license_info.license_id),
        r.stage matches RegistrationStage::ListActivationsAgain { api_key: k, license_info } ==> (
        r.due_action() matches RegistrationAction::ListActivations { api_key, license_id } && *api_key == k
            && *license_id == license_info.license_id),
        r.stage matches RegistrationStage::CheckRecord { jinxxy_user_id: store, license_info, .. } ==> (
        r.due_action() matches RegistrationAction::CheckRecord { jinxxy_user_id, user_id, license_id }
            && *jinxxy_user_id == store && user_id == r.user_id && *license_id == license_info.license_id),
        r.stage matches RegistrationStage::CreateActivation { api_key: k, license_info, .. } ==> (
        r.due_action() matches RegistrationAction::CreateActivation { api_key, license_id, user_id } && *api_key == k
            && *license_id == license_info.license_id && user_id == r.user_id),
        r.stage is CountGumroadFailure ==> (r.due_action() matches RegistrationAction::CountGumroadFailure { guild_id }
            && guild_id == r.guild_id),
        r.stage is LoadRejectionLog || r.stage is LoadDeadlockLog || r.stage is LoadNoRolesLog
            || r.stage is LoadGrantedLog ==> (r.due_action() matches RegistrationAction::LoadLogChannel { guild_id }
            && guild_id == r.guild_id),
        r.stage matches RegistrationStage::LoadRoleGrants { license_info } ==> (
        r.due_action() matches RegistrationAction::LoadRoleGrants { guild_id, product_version_id } && guild_id
            == r.guild_id && product_version_id.product_id@ == license_info.product_id@ && (
        license_info.product_version_info is None <==> product_version_id.product_version_id is None) && (
        license_info.product_version_info matches Some(info) ==> product_version_id.product_version_id->0@
            == info.product_version_id@)),
        r.stage matches RegistrationStage::GrantRoles { role_ids, .. } ==> (
        r.due_action() matches RegistrationAction::GrantRoles { role_ids: granted } && *granted == role_ids),
        r.stage is Finished ==> r.due_action() is Finish,
        r.stage matches RegistrationStage::Aborted(error) ==> (r.due_action() matches RegistrationAction::Abort(e) && e
            == error),
{
}

/// An activation is recorded as one of the user, for the license and the product version that were found.
pub proof fn records_are_complete(r: Registration)
    requires
        r.wf(),
    ensures
        r.stage matches RegistrationStage::RestoreRecord { jinxxy_user_id: store, license_info, activation_id: id } ==> (
        r.due_action() matches RegistrationAction::RecordActivation {
            jinxxy_user_id,
            license_id,
            activation_id,
            user_id,
            product_id,
            version_id,
        } && *jinxxy_user_id == store && *license_id == license_info.license_id && *activation_id == id && user_id
            == r.user_id && *product_id == license_info.product_id && (version_id is None
            <==> license_info.product_version_info is None) && (license_info.product_version_info matches Some(info)
            ==> *version_id->0 == info.product_version_id)),
        r.stage matches RegistrationStage::RecordActivation {
            jinxxy_user_id: store,
            license_info,
            activation_id: id,
            ..
        } ==> (r.due_action() matches RegistrationAction::RecordActivation {
            jinxxy_user_id,
            license_id,
            activation_id,
            user_id,
            product_id,
            version_id,
        } && *jinxxy_user_id == store && *license_id == license_info.license_id && *activation_id == id && user_id
            == r.user_id && *product_id == license_info.product_id && (version_id is None
            <==> license_info.product_version_info is None) && (license_info.product_version_info matches Some(info)
            ==> *version_id->0 == info.product_version_id)),
{
}

/// Whatever a registration has gone through, as soon as roles are loaded for it they are granted, all of them: it was
/// preceded by a list of activations that named nobody but the user, and what is due is to grant these roles. Without
/// roles the user is told that there are none.
pub proof fn a_run_grants_the_roles_that_it_loads(
    request: RegistrationRequest,
    states: Seq<Registration>,
    events: Seq<RegistrationEvent>,
    role_ids: Vec<u64>,
)
    requires
        is_run(request, states, events),
        events.len() > 0,
        events.last() == RegistrationEvent::RoleGrants(role_ids),
    ensures
        states.last().user_id == request.user_id,
        role_ids@.len() > 0 ==> (states.last().due_action() matches RegistrationAction::GrantRoles { role_ids: granted }
            && *granted == role_ids),
        role_ids@.len() == 0 ==> states.last().stage is NotifyNoRoles,
        exists|j: int|
            0 <= j < events.len() && (#[trigger] events[j] matches RegistrationEvent::Activations(activations)
                && only_names(activations@, request.user_id)) && forall|k: int|
                j < k < events.len() ==> !(#[trigger] events[k] is Activations),
{
    reveal(leads_to);
    let before = states.drop_last().last();
    assert(leads_to(before, events.last(), states.last()));
    assert(before.stage is LoadRoleGrants);
    roles_follow_a_clean_list(request, states, events);
    run_keeps_user(request, states, events);
    let j = choose|j: int|
        0 <= j < events.len() && (#[trigger] events[j] matches RegistrationEvent::Activations(activations)
            && is_free_for(request.user_id, activation_user_ids(activations@))) && forall|k: int|
            j < k < events.len() ==> !(#[trigger] events[k] is Activations);
    only_names_means_free(events[j]->Activations_0@, request.user_id);
}

proof fn run_keeps_user(request: RegistrationRequest, states: Seq<Registration>, events: Seq<RegistrationEvent>)
    requires
        is_run(request, states, events),
    ensures
        states.last().user_id == request.user_id,
    decreases events.len(),
{
    if events.len() > 0 {
        run_keeps_user(request, states.drop_last(), events.drop_last());
        reveal(leads_to);
    }
}

/// A whole registration of a license that the user alone has activated before, but that the database does not know of:
/// it is put into the database, under the ID of the first activation, and all roles that are loaded are granted.
pub proof fn a_forgotten_license_gets_its_roles_again(
    before: Registration,
    activations: Vec<LicenseActivation>,
    role_ids: Vec<u64>,
    states: Seq<Registration>,
)
    requires
        before.stage is ListActivations,
        only_names(activations@, before.user_id),
        names(activations@, before.user_id),
        role_ids@.len() > 0,
        states.len() == 4,
        steps(before, RegistrationEvent::Activations(activations), states[0]),
        steps(states[0], RegistrationEvent::RecordPresent(false), states[1]),
        steps(states[1], RegistrationEvent::Done, states[2]),
        steps(states[2], RegistrationEvent::RoleGrants(role_ids), states[3]),
    ensures
        states[1].due_action() matches RegistrationAction::RecordActivation {
            jinxxy_user_id,
            license_id,
            activation_id,
            user_id,
            product_id,
            ..
        } && *jinxxy_user_id == before.stage->ListActivations_jinxxy_user_id && *license_id
            == before.stage->ListActivations_license_info.license_id && *activation_id == activations@[0].id && user_id
            == before.user_id && *product_id == before.stage->ListActivations_license_info.product_id,
        states[3].due_action() matches RegistrationAction::GrantRoles { role_ids: granted } && *granted == role_ids,
{
    a_free_license_goes_on(before, activations, states[0]);
    a_license_is_activated_once(states[0], false, states[1]);
    a_restored_record_leads_to_roles(states[1], states[2]);
    loaded_roles_are_granted(states[2], role_ids, states[3]);
}

} // verus!
