//! The registration of a license: what happens between a user submitting a license key and that user
//! being granted the roles of the licensed product.
//!
//! A registration is a state machine. Its stage says which [`RegistrationAction`] is due; the answer to that
//! action is the [`RegistrationEvent`] that brings it to its next stage.

use super::event_handler::LICENSE_KEY_ID;
use super::message::{
    list_users, mention_role, mention_user, role_mention, user_bullets, user_mention, Colour, Embed, EmbedView,
};
use crate::http::jinxxy::{
    activation_user_id, activation_user_ids, LicenseActivation, LicenseInfo, LicenseKey, LicenseKeyView, ProductVersionId,
};
use crate::license::{
    every_activator_is_seen, identify_license, is_free_for, license_type_name, license_type_of, untrusted_license_key,
    validate_jinxxy_license_activation, validation, validation_is_clean_iff_free, LicenseType,
};
use crate::text::{str_equals, trim, trimmed};
use vstd::prelude::*;

verus! {

/// A submitted registration form
#[derive(Debug)]
pub struct RegistrationRequest {
    /// The text in the license key field, if there was one
    pub license_key: Option<String>,
    /// The guild in which the form was submitted
    pub guild_id: Option<u64>,
    /// The store that the register button belongs to. Legacy buttons belong to the default store of the guild.
    pub jinxxy_user_id: Option<String>,
    /// The user who submitted the form
    pub user_id: u64,
    /// Whether the user was seen as a member of the guild
    pub is_member: bool,
}

/// A text field of a submitted form
#[derive(Debug)]
pub struct InputField {
    pub custom_id: String,
    pub value: Option<String>,
}

/// Whether a field of a form holds a license key: it is the field for it, and there is more in it than whitespace.
pub open spec fn holds_license_key(field: InputField) -> bool {
    field.custom_id@ == LICENSE_KEY_ID@ && field.value is Some && trimmed(field.value->0@).len() > 0
}

/// The license key in a submitted form, without the whitespace around it: that of the first field that holds one
pub fn find_license_key<'a>(fields: &'a [InputField]) -> (r: Option<&'a str>)
    ensures
        r is None <==> forall|i: int| 0 <= i < fields@.len() ==> !holds_license_key(#[trigger] fields@[i]),
        r matches Some(license_key) ==> exists|i: int|
            0 <= i < fields@.len() && holds_license_key(#[trigger] fields@[i]) && license_key@ == trimmed(
                fields@[i].value->0@,
            ) && forall|j: int| 0 <= j < i ==> !holds_license_key(#[trigger] fields@[j]),
{
    for i in 0..fields.len()
        invariant
            forall|j: int| 0 <= j < i ==> !holds_license_key(#[trigger] fields@[j]),
    {
        if str_equals(fields[i].custom_id.as_str(), LICENSE_KEY_ID) {
            if let Some(value) = &fields[i].value {
                let license_key = trim(value.as_str());
                if !license_key.is_empty() {
                    proof {
                        assert(holds_license_key(fields@[i as int]));
                    }
                    return Some(license_key);
                }
            }
        }
    }
    None
}

/// What a registration is waiting for, and what it has learned so far
#[derive(Debug)]
pub enum RegistrationStage {
    /// Tell the user that there was no license key
    NotifyMissingKey,
    /// Ask for the default store of the guild
    LoadDefaultStore,
    /// Ask for the API key of the store
    LoadApiKey { jinxxy_user_id: String },
    /// Tell the user that the store has no API key
    NotifyMissingApiKey,
    /// Ask Jinxxy for the license
    CheckLicense { jinxxy_user_id: String, api_key: String },
    /// Ask Jinxxy for the activations of the license
    ListActivations { jinxxy_user_id: String, api_key: String, license_info: LicenseInfo },
    /// Somebody else has used the license, or it is locked: ask for the log channel
    LoadRejectionLog { activations: Vec<LicenseActivation> },
    /// Log the attempt to use the license
    SendRejectionLog { channel_id: u64, activations: Vec<LicenseActivation> },
    /// The license is free for the user: ask if the database knows of an activation
    CheckRecord {
        jinxxy_user_id: String,
        api_key: String,
        license_info: LicenseInfo,
        known_activations: Option<Vec<LicenseActivation>>,
        own_user: bool,
    },
    /// Put an activation that only Jinxxy knew of into the database
    RestoreRecord { jinxxy_user_id: String, license_info: LicenseInfo, activation_id: String },
    /// Activate the license
    CreateActivation { jinxxy_user_id: String, api_key: String, license_info: LicenseInfo },
    /// Put the new activation into the database
    RecordActivation { jinxxy_user_id: String, api_key: String, license_info: LicenseInfo, activation_id: String },
    /// Check that nobody else has activated the license at the same time
    ListActivationsAgain { api_key: String, license_info: LicenseInfo },
    /// Somebody else has activated the license at the same time: ask for the log channel
    LoadDeadlockLog,
    /// Log that the license is now of no use to anyone
    SendDeadlockLog { channel_id: u64 },
    /// Count a Gumroad key that was rejected
    CountGumroadFailure,
    /// Tell the user that the registration has failed
    NotifyFailed,
    /// Ask for the roles of the product
    LoadRoleGrants { license_info: LicenseInfo },
    /// Tell the user that the product has no roles
    NotifyNoRoles { license_info: LicenseInfo },
    /// The product has no roles: ask for the log channel
    LoadNoRolesLog { license_info: LicenseInfo },
    /// Log that the product has no roles
    SendNoRolesLog { channel_id: u64, license_info: LicenseInfo },
    /// Grant the roles
    GrantRoles { license_info: LicenseInfo, role_ids: Vec<u64> },
    /// Tell the user which roles were granted
    NotifyGranted { license_info: LicenseInfo, outcomes: Vec<(u64, bool)> },
    /// The roles were granted: ask for the log channel
    LoadGrantedLog { license_info: LicenseInfo, outcomes: Vec<(u64, bool)> },
    /// Log which roles were granted
    SendGrantedLog { channel_id: u64, license_info: LicenseInfo, outcomes: Vec<(u64, bool)> },
    /// The end of the registration
    Finished,
    /// The end of a registration that cannot go on
    Aborted(RegistrationError),
}

/// Why a registration cannot go on
#[derive(Debug, Copy, Clone, PartialEq, Eq, Structural)]
pub enum RegistrationError {
    /// The form was not submitted in a guild
    NotInGuild,
    /// The form came from a legacy register button, and the guild has no default store
    NoDefaultStore,
}

impl RegistrationError {
    /// The text of this error
    pub fn describe(&self) -> (r: String)
        ensures
            r@ == registration_error_text(*self),
    {
        match self {
            RegistrationError::NotInGuild => "expected to be in a guild".to_owned(),
            RegistrationError::NoDefaultStore => "legacy register button did not have a default store set".to_owned(),
        }
    }
}

pub open spec fn registration_error_text(error: RegistrationError) -> Seq<char> {
    match error {
        RegistrationError::NotInGuild => "expected to be in a guild"@,
        RegistrationError::NoDefaultStore => "legacy register button did not have a default store set"@,
    }
}

/// What has to be done for a registration to go on. `E` is how an embed is represented, and `K` a license key.
#[derive(Debug)]
pub enum RegistrationAction<'a, E, K> {
    /// Load the default store of the guild. Answered by [`RegistrationEvent::DefaultStore`].
    LoadDefaultStore { guild_id: u64 },
    /// Load the API key of a store in the guild. Answered by [`RegistrationEvent::ApiKey`].
    LoadApiKey { guild_id: u64, jinxxy_user_id: &'a String },
    /// Look a license up at Jinxxy, with the name of its version. Answered by [`RegistrationEvent::License`].
    CheckLicense { api_key: &'a String, license: K },
    /// List the activations of a license. Answered by [`RegistrationEvent::Activations`].
    ListActivations { api_key: &'a String, license_id: &'a String },
    /// Check if the database knows of an activation. Answered by [`RegistrationEvent::RecordPresent`].
    CheckRecord { jinxxy_user_id: &'a String, user_id: u64, license_id: &'a String },
    /// Activate a license. Answered by [`RegistrationEvent::Activated`].
    CreateActivation { api_key: &'a String, license_id: &'a String, user_id: u64 },
    /// Put an activation into the database. Answered by [`RegistrationEvent::Done`].
    RecordActivation {
        jinxxy_user_id: &'a String,
        license_id: &'a String,
        activation_id: &'a String,
        user_id: u64,
        product_id: &'a String,
        version_id: Option<&'a String>,
    },
    /// Count a rejected Gumroad key for the guild. Answered by [`RegistrationEvent::Done`].
    CountGumroadFailure { guild_id: u64 },
    /// Load the log channel of the guild. Answered by [`RegistrationEvent::LogChannel`].
    LoadLogChannel { guild_id: u64 },
    /// Post to a channel. What goes wrong is only logged. Answered by [`RegistrationEvent::Done`].
    SendLog { channel_id: u64, embed: E, second_embed: Option<E> },
    /// Load the roles that a product version gives in the guild. Answered by [`RegistrationEvent::RoleGrants`].
    LoadRoleGrants { guild_id: u64, product_version_id: ProductVersionId },
    /// Grant roles to the user. Answered by [`RegistrationEvent::RolesGranted`].
    GrantRoles { role_ids: &'a Vec<u64> },
    /// Answer the user. If `best_effort` is set then what goes wrong is only logged. Answered by
    /// [`RegistrationEvent::Done`].
    Notify { embed: E, best_effort: bool },
    /// Nothing more to do
    Finish,
    /// Report an error to the user
    Abort(RegistrationError),
}

impl<'a> RegistrationAction<'a, Embed, LicenseKey<'a>> {
    /// This action, with what its embeds and license keys stand for in their place
    pub open spec fn shown(self) -> RegistrationAction<'a, EmbedView, LicenseKeyView> {
        match self {
            RegistrationAction::LoadDefaultStore { guild_id } => RegistrationAction::LoadDefaultStore { guild_id },
            RegistrationAction::LoadApiKey { guild_id, jinxxy_user_id } => RegistrationAction::LoadApiKey {
                guild_id,
                jinxxy_user_id,
            },
            RegistrationAction::CheckLicense { api_key, license } => RegistrationAction::CheckLicense {
                api_key,
                license: license@,
            },
            RegistrationAction::ListActivations { api_key, license_id } => RegistrationAction::ListActivations {
                api_key,
                license_id,
            },
            RegistrationAction::CheckRecord { jinxxy_user_id, user_id, license_id } => RegistrationAction::CheckRecord {
                jinxxy_user_id,
                user_id,
                license_id,
            },
            RegistrationAction::CreateActivation { api_key, license_id, user_id } =>
                RegistrationAction::CreateActivation { api_key, license_id, user_id },
            RegistrationAction::RecordActivation {
                jinxxy_user_id,
                license_id,
                activation_id,
                user_id,
                product_id,
                version_id,
            } => RegistrationAction::RecordActivation {
                jinxxy_user_id,
                license_id,
                activation_id,
                user_id,
                product_id,
                version_id,
            },
            RegistrationAction::CountGumroadFailure { guild_id } => RegistrationAction::CountGumroadFailure {
                guild_id,
            },
            RegistrationAction::LoadLogChannel { guild_id } => RegistrationAction::LoadLogChannel { guild_id },
            RegistrationAction::SendLog { channel_id, embed, second_embed } => RegistrationAction::SendLog {
                channel_id,
                embed: embed@,
                second_embed: match second_embed {
                    Some(embed) => Some(embed@),
                    None => None,
                },
            },
            RegistrationAction::LoadRoleGrants { guild_id, product_version_id } => RegistrationAction::LoadRoleGrants {
                guild_id,
                product_version_id,
            },
            RegistrationAction::GrantRoles { role_ids } => RegistrationAction::GrantRoles { role_ids },
            RegistrationAction::Notify { embed, best_effort } => RegistrationAction::Notify {
                embed: embed@,
                best_effort,
            },
            RegistrationAction::Finish => RegistrationAction::Finish,
            RegistrationAction::Abort(error) => RegistrationAction::Abort(error),
        }
    }
}

/// The answer to a [`RegistrationAction`]
#[derive(Debug)]
pub enum RegistrationEvent {
    /// The default store of the guild, if it has one
    DefaultStore(Option<String>),
    /// The API key of the store, if it is linked to the guild
    ApiKey(Option<String>),
    /// The license, if there is one with that key
    License(Option<LicenseInfo>),
    /// All activations of the license
    Activations(Vec<LicenseActivation>),
    /// Whether the database knows of an activation of the license by the user
    RecordPresent(bool),
    /// The ID of the new activation
    Activated(String),
    /// The log channel of the guild, if it has one
    LogChannel(Option<u64>),
    /// The roles that the product version gives
    RoleGrants(Vec<u64>),
    /// The roles, each with whether it could be granted
    RolesGranted(Vec<(u64, bool)>),
    /// It is done
    Done,
}

/// The registration of a license by a user
#[derive(Debug)]
pub struct Registration {
    pub guild_id: u64,
    pub user_id: u64,
    /// The license key as the user provided it, without the whitespace around it
    pub license_key: String,
    /// The type that the license key looks like
    pub license_type: LicenseType,
    pub is_member: bool,
    pub stage: RegistrationStage,
}

/// Whether outcomes belong to roles: one for each of them, in order.
pub open spec fn outcomes_of(role_ids: Seq<u64>, outcomes: Seq<(u64, bool)>) -> bool {
    outcomes.len() == role_ids.len() && forall|i: int|
        0 <= i < role_ids.len() ==> (#[trigger] outcomes[i]).0 == role_ids[i]
}

/// The action that puts an activation into the database.
pub open spec fn record_of<'a>(
    user_id: u64,
    jinxxy_user_id: &'a String,
    license_info: &'a LicenseInfo,
    activation_id: &'a String,
) -> RegistrationAction<'a, EmbedView, LicenseKeyView> {
    RegistrationAction::RecordActivation {
        jinxxy_user_id,
        license_id: &license_info.license_id,
        activation_id,
        user_id,
        product_id: &license_info.product_id,
        version_id: match &license_info.product_version_info {
            Some(info) => Some(&info.product_version_id),
            None => None,
        },
    }
}

/// The stage of a registration that has been refused: a rejected Gumroad key is counted first.
pub open spec fn refused(license_type: LicenseType) -> RegistrationStage {
    if license_type is Gumroad {
        RegistrationStage::CountGumroadFailure
    } else {
        RegistrationStage::NotifyFailed
    }
}

impl Registration {
    /// What always holds of a registration: the type of the license key is what its text looks like, and a
    /// registration gets past the check of the activations only with a license that is free for the user.
    pub open spec fn wf(self) -> bool {
        &&& self.license_type == license_type_of(self.license_key@)
        &&& match self.stage {
            RegistrationStage::CheckLicense { .. } => untrusted_license_key(
                self.license_type,
                self.license_key@,
            ) is Some,
            RegistrationStage::CheckRecord { known_activations, own_user, .. } => match known_activations {
                Some(activations) => {
                    &&& is_free_for(self.user_id, activation_user_ids(activations@))
                    &&& own_user == activation_user_ids(activations@).contains(self.user_id)
                },
                None => !own_user,
            },
            RegistrationStage::SendRejectionLog { activations, .. } => !is_free_for(
                self.user_id,
                activation_user_ids(activations@),
            ),
            RegistrationStage::LoadRejectionLog { activations } => !is_free_for(
                self.user_id,
                activation_user_ids(activations@),
            ),
            RegistrationStage::GrantRoles { role_ids, .. } => role_ids@.len() > 0,
            _ => true,
        }
    }

    /// Whether an event is an answer to what is due.
    pub open spec fn answered_by(self, event: RegistrationEvent) -> bool {
        match self.stage {
            RegistrationStage::LoadDefaultStore => event is DefaultStore,
            RegistrationStage::LoadApiKey { .. } => event is ApiKey,
            RegistrationStage::CheckLicense { .. } => event is License,
            RegistrationStage::ListActivations { .. } | RegistrationStage::ListActivationsAgain { .. } =>
                event is Activations,
            RegistrationStage::LoadRejectionLog { .. } | RegistrationStage::LoadDeadlockLog
            | RegistrationStage::LoadNoRolesLog { .. } | RegistrationStage::LoadGrantedLog { .. } =>
                event is LogChannel,
            RegistrationStage::CheckRecord { .. } => event is RecordPresent,
            RegistrationStage::CreateActivation { .. } => event is Activated,
            RegistrationStage::LoadRoleGrants { .. } => event is RoleGrants,
            RegistrationStage::GrantRoles { role_ids, .. } => event matches RegistrationEvent::RolesGranted(outcomes)
                && outcomes_of(role_ids@, outcomes@),
            RegistrationStage::Finished | RegistrationStage::Aborted(_) => false,
            _ => event is Done,
        }
    }

    /// The stage that an event leads to.
    pub open spec fn next_stage(self, event: RegistrationEvent) -> RegistrationStage {
        match (self.stage, event) {
            (RegistrationStage::LoadDefaultStore, RegistrationEvent::DefaultStore(store)) => match store {
                Some(jinxxy_user_id) => RegistrationStage::LoadApiKey { jinxxy_user_id },
                None => RegistrationStage::Aborted(RegistrationError::NoDefaultStore),
            },
            (RegistrationStage::LoadApiKey { jinxxy_user_id }, RegistrationEvent::ApiKey(api_key)) => match api_key {
                None => RegistrationStage::NotifyMissingApiKey,
                // what is clearly not a Jinxxy license is not even looked up
                Some(api_key) => if untrusted_license_key(self.license_type, self.license_key@) is None {
                    refused(self.license_type)
                } else {
                    RegistrationStage::CheckLicense { jinxxy_user_id, api_key }
                },
            },
            (
                RegistrationStage::CheckLicense { jinxxy_user_id, api_key },
                RegistrationEvent::License(license_info),
            ) => match license_info {
                None => refused(self.license_type),
                Some(license_info) => if !self.is_member {
                    RegistrationStage::Aborted(RegistrationError::NotInGuild)
                } else if license_info.activations == 0 {
                    RegistrationStage::CheckRecord {
                        jinxxy_user_id,
                        api_key,
                        license_info,
                        known_activations: None,
                        own_user: false,
                    }
                } else {
                    RegistrationStage::ListActivations { jinxxy_user_id, api_key, license_info }
                },
            },
            (
                RegistrationStage::ListActivations { jinxxy_user_id, api_key, license_info },
                RegistrationEvent::Activations(activations),
            ) => {
                let user_ids = activation_user_ids(activations@);
                if is_free_for(self.user_id, user_ids) {
                    RegistrationStage::CheckRecord {
                        jinxxy_user_id,
                        api_key,
                        license_info,
                        known_activations: Some(activations),
                        own_user: user_ids.contains(self.user_id),
                    }
                } else {
                    RegistrationStage::LoadRejectionLog { activations }
                }
            },
            (RegistrationStage::LoadRejectionLog { activations }, RegistrationEvent::LogChannel(channel)) =>
                match channel {
                    Some(channel_id) => RegistrationStage::SendRejectionLog { channel_id, activations },
                    None => refused(self.license_type),
                },
            (RegistrationStage::SendRejectionLog { .. }, RegistrationEvent::Done) => refused(self.license_type),
            (
                RegistrationStage::CheckRecord { jinxxy_user_id, api_key, license_info, known_activations, own_user },
                RegistrationEvent::RecordPresent(present),
            ) => if !own_user {
                RegistrationStage::CreateActivation { jinxxy_user_id, api_key, license_info }
            } else if !present {
                RegistrationStage::RestoreRecord {
                    jinxxy_user_id,
                    license_info,
                    activation_id: known_activations->0@[0].id,
                }
            } else {
                RegistrationStage::LoadRoleGrants { license_info }
            },
            (RegistrationStage::RestoreRecord { license_info, .. }, RegistrationEvent::Done) =>
                RegistrationStage::LoadRoleGrants { license_info },
            (
                RegistrationStage::CreateActivation { jinxxy_user_id, api_key, license_info },
                RegistrationEvent::Activated(activation_id),
            ) => RegistrationStage::RecordActivation { jinxxy_user_id, api_key, license_info, activation_id },
            (RegistrationStage::RecordActivation { api_key, license_info, .. }, RegistrationEvent::Done) =>
                RegistrationStage::ListActivationsAgain { api_key, license_info },
            (
                RegistrationStage::ListActivationsAgain { license_info, .. },
                RegistrationEvent::Activations(activations),
            ) => {
                let v = validation(self.user_id, activation_user_ids(activations@));
                if v.own_user && v.other_user {
                    RegistrationStage::LoadDeadlockLog
                } else if is_free_for(self.user_id, activation_user_ids(activations@)) {
                    RegistrationStage::LoadRoleGrants { license_info }
                } else {
                    refused(self.license_type)
                }
            },
            (RegistrationStage::LoadDeadlockLog, RegistrationEvent::LogChannel(channel)) => match channel {
                Some(channel_id) => RegistrationStage::SendDeadlockLog { channel_id },
                None => refused(self.license_type),
            },
            (RegistrationStage::SendDeadlockLog { .. }, RegistrationEvent::Done) => refused(self.license_type),
            (RegistrationStage::CountGumroadFailure, RegistrationEvent::Done) => RegistrationStage::NotifyFailed,
            (RegistrationStage::LoadRoleGrants { license_info }, RegistrationEvent::RoleGrants(role_ids)) =>
                if role_ids@.len() == 0 {
                    RegistrationStage::NotifyNoRoles { license_info }
                } else {
                    RegistrationStage::GrantRoles { license_info, role_ids }
                },
            (RegistrationStage::NotifyNoRoles { license_info }, RegistrationEvent::Done) =>
                RegistrationStage::LoadNoRolesLog { license_info },
            (RegistrationStage::LoadNoRolesLog { license_info }, RegistrationEvent::LogChannel(channel)) =>
                match channel {
                    Some(channel_id) => RegistrationStage::SendNoRolesLog { channel_id, license_info },
                    None => RegistrationStage::Finished,
                },
            (RegistrationStage::GrantRoles { license_info, .. }, RegistrationEvent::RolesGranted(outcomes)) =>
                RegistrationStage::NotifyGranted { license_info, outcomes },
            (RegistrationStage::NotifyGranted { license_info, outcomes }, RegistrationEvent::Done) =>
                RegistrationStage::LoadGrantedLog { license_info, outcomes },
            (RegistrationStage::LoadGrantedLog { license_info, outcomes }, RegistrationEvent::LogChannel(channel)) =>
                match channel {
                    Some(channel_id) => RegistrationStage::SendGrantedLog { channel_id, license_info, outcomes },
                    None => RegistrationStage::Finished,
                },
            _ => RegistrationStage::Finished,
        }
    }
}

/// The name of a licensed product, with its version if it has one.
pub open spec fn licensed_product(license_info: LicenseInfo) -> Seq<char> {
    match license_info.product_version_info {
        Some(info) => license_info.product_name@ + " (version "@ + info.product_version_name@ + ")"@,
        None => license_info.product_name@,
    }
}

fn licensed_product_name(license_info: &LicenseInfo) -> (r: String)
    ensures
        r@ == licensed_product(*license_info),
{
    match &license_info.product_version_info {
        Some(info) => license_info.product_name.clone().concat(" (version ").concat(
            info.product_version_name.as_str(),
        ).concat(")"),
        None => license_info.product_name.clone(),
    }
}

/// What a user is told whose registration was refused. It depends on the license key that the user provided
/// and on nothing else, so that it gives nothing away about the license.
pub open spec fn refusal(license_type: LicenseType) -> EmbedView {
    EmbedView {
        title: "Jinxxy Product Registration Failed"@,
        description: if license_type is JinxxyShort || license_type is JinxxyLong {
            "The provided Jinxxy license key was not valid or is already in use"@
        } else {
            "The provided Jinxxy license key was not valid or is already in use.\n\n**This bot only supports Jinxxy keys**, but you appear to have provided "@
                + license_type_name(license_type)
                + ". Please confirm you are providing the correct value to the correct bot. Jinxxy keys should look like `XXXX-cd071c534191` or `3642d957-c5d8-4d18-a1ae-cd071c534191`."@
        },
        colour: Some(Colour::Red),
    }
}

fn refusal_embed(license_type: LicenseType) -> (r: Embed)
    ensures
        r@ == refusal(license_type),
{
    let description = if license_type.is_jinxxy_license() {
        "The provided Jinxxy license key was not valid or is already in use".to_owned()
    } else {
        "The provided Jinxxy license key was not valid or is already in use.\n\n**This bot only supports Jinxxy keys**, but you appear to have provided ".to_owned().concat(
            license_type.describe().as_str(),
        ).concat(
            ". Please confirm you are providing the correct value to the correct bot. Jinxxy keys should look like `XXXX-cd071c534191` or `3642d957-c5d8-4d18-a1ae-cd071c534191`.",
        )
    };
    Embed::new("Jinxxy Product Registration Failed", description, Some(Colour::Red))
}

/// What is logged when a user tries to register a license that is locked, or that others have used.
pub open spec fn rejection_log(user_id: u64, user_ids: Seq<u64>) -> EmbedView {
    EmbedView {
        title: "Activation Attempt Failed"@,
        description: if validation(user_id, user_ids).locked {
            user_mention(user_id)
                + " attempted to activate a locked license. An admin can unlock this license with the `/unlock_license` command."@
        } else {
            user_mention(user_id) + " attempted to activate a license that has already been used by:"@ + user_bullets(
                user_ids,
            )
        },
        colour: Some(Colour::Orange),
    }
}

fn rejection_log_embed(user_id: u64, activations: &[LicenseActivation]) -> (r: Embed)
    ensures
        r@ == rejection_log(user_id, activation_user_ids(activations@)),
{
    let description = if validate_jinxxy_license_activation(user_id, activations).locked {
        mention_user(user_id).concat(
            " attempted to activate a locked license. An admin can unlock this license with the `/unlock_license` command.",
        )
    } else {
        mention_user(user_id).concat(" attempted to activate a license that has already been used by:").concat(
            list_users(LicenseActivation::user_ids(activations).as_slice()).as_str(),
        )
    };
    Embed::new("Activation Attempt Failed", description, Some(Colour::Orange))
}

/// The roles that could be granted, or those that could not, as a bulleted list.
pub open spec fn outcome_bullets(outcomes: Seq<(u64, bool)>, granted: bool) -> Seq<char>
    decreases outcomes.len(),
{
    if outcomes.len() == 0 {
        Seq::empty()
    } else if outcomes.last().1 == granted {
        outcome_bullets(outcomes.drop_last(), granted) + "\n- "@ + role_mention(outcomes.last().0)
    } else {
        outcome_bullets(outcomes.drop_last(), granted)
    }
}

fn list_outcomes(outcomes: &[(u64, bool)], granted: bool) -> (r: String)
    ensures
        r@ == outcome_bullets(outcomes@, granted),
{
    let mut list = String::new();
    for i in 0..outcomes.len()
        invariant
            list@ == outcome_bullets(outcomes@.take(i as int), granted),
    {
        proof {
            assert(outcomes@.take(i + 1).drop_last() =~= outcomes@.take(i as int));
        }
        if outcomes[i].1 == granted {
            list = list.concat("\n- ").concat(mention_role(outcomes[i].0).as_str());
        }
    }
    proof {
        assert(outcomes@.take(outcomes@.len() as int) =~= outcomes@);
    }
    list
}

/// What a user is told who has registered a product that has roles.
pub open spec fn granted_notice(product: Seq<char>, outcomes: Seq<(u64, bool)>) -> EmbedView {
    let errors = outcome_bullets(outcomes, false);
    let message = "Congratulations, you are now registered as an owner of the "@ + product
        + " product and have been granted the following roles:"@ + outcome_bullets(outcomes, true);
    if errors.len() == 0 {
        EmbedView { title: "Registration Success"@, description: message, colour: Some(Colour::DarkGreen) }
    } else {
        EmbedView {
            title: "Registration Partial Success"@,
            description: message + "\n\nFailed to grant access to roles:"@ + errors
                + "\nThe bot may lack permission to grant the above roles. Contact your server administrator for support."@,
            colour: Some(Colour::Orange),
        }
    }
}

fn granted_notice_embed(license_info: &LicenseInfo, outcomes: &[(u64, bool)]) -> (r: Embed)
    ensures
        r@ == granted_notice(licensed_product(*license_info), outcomes@),
{
    let errors = list_outcomes(outcomes, false);
    let message = "Congratulations, you are now registered as an owner of the ".to_owned().concat(
        licensed_product_name(license_info).as_str(),
    ).concat(" product and have been granted the following roles:").concat(list_outcomes(outcomes, true).as_str());
    if errors.as_str().is_empty() {
        Embed::new("Registration Success", message, Some(Colour::DarkGreen))
    } else {
        Embed::new(
            "Registration Partial Success",
            message.concat("\n\nFailed to grant access to roles:").concat(errors.as_str()).concat(
                "\nThe bot may lack permission to grant the above roles. Contact your server administrator for support.",
            ),
            Some(Colour::Orange),
        )
    }
}

/// What is logged when a user has registered a product that has roles.
pub open spec fn granted_log(user_id: u64, product: Seq<char>, outcomes: Seq<(u64, bool)>) -> EmbedView {
    EmbedView {
        title: "License Activation"@,
        description: user_mention(user_id) + " has registered the "@ + product
            + " product and has been granted the following roles:"@ + outcome_bullets(outcomes, true),
        colour: None,
    }
}

/// What is logged when some of the roles could not be granted.
pub open spec fn role_error_log(user_id: u64, outcomes: Seq<(u64, bool)>) -> Option<EmbedView> {
    let errors = outcome_bullets(outcomes, false);
    if errors.len() == 0 {
        None
    } else {
        Some(
            EmbedView {
                title: "Role Grant Error"@,
                description: "Failed to grant "@ + user_mention(user_id) + " access to the following roles:"@ + errors
                    + "\nPlease check bot permissions."@,
                colour: Some(Colour::Red),
            },
        )
    }
}

fn granted_log_embed(user_id: u64, license_info: &LicenseInfo, outcomes: &[(u64, bool)]) -> (r: Embed)
    ensures
        r@ == granted_log(user_id, licensed_product(*license_info), outcomes@),
{
    Embed::new(
        "License Activation",
        mention_user(user_id).concat(" has registered the ").concat(licensed_product_name(license_info).as_str()).concat(
            " product and has been granted the following roles:",
        ).concat(list_outcomes(outcomes, true).as_str()),
        None,
    )
}

fn role_error_log_embed(user_id: u64, outcomes: &[(u64, bool)]) -> (r: Option<Embed>)
    ensures
        r is Some <==> role_error_log(user_id, outcomes@) is Some,
        r matches Some(embed) ==> role_error_log(user_id, outcomes@) == Some(embed@),
{
    let errors = list_outcomes(outcomes, false);
    if errors.as_str().is_empty() {
        None
    } else {
        Some(
            Embed::new(
                "Role Grant Error",
                "Failed to grant ".to_owned().concat(mention_user(user_id).as_str()).concat(
                    " access to the following roles:",
                ).concat(errors.as_str()).concat("\nPlease check bot permissions."),
                Some(Colour::Red),
            ),
        )
    }
}

impl Registration {
    /// What a registration starts with: the license key without the whitespace around it, unless that is
    /// all there is.
    pub open spec fn first_stage(request: RegistrationRequest) -> RegistrationStage {
        if request.license_key is None || trimmed(request.license_key->0@).len() == 0 {
            RegistrationStage::NotifyMissingKey
        } else if request.guild_id is None {
            RegistrationStage::Aborted(RegistrationError::NotInGuild)
        } else {
            match request.jinxxy_user_id {
                Some(jinxxy_user_id) => RegistrationStage::LoadApiKey { jinxxy_user_id },
                None => RegistrationStage::LoadDefaultStore,
            }
        }
    }

    /// Start the registration that a form asks for
    pub fn start(request: RegistrationRequest) -> (r: Registration)
        ensures
            r.wf(),
            r.stage == Registration::first_stage(request),
            r.user_id == request.user_id,
            r.is_member == request.is_member,
            request.guild_id matches Some(guild_id) ==> r.guild_id == guild_id,
            request.license_key matches Some(license_key) ==> r.license_key@ == trimmed(license_key@),
    {
        let license_key = match &request.license_key {
            Some(license_key) => trim(license_key.as_str()).to_owned(),
            None => String::new(),
        };
        let license_type = identify_license(license_key.as_str());
        let stage = if license_key.as_str().is_empty() {
            RegistrationStage::NotifyMissingKey
        } else if request.guild_id.is_none() {
            RegistrationStage::Aborted(RegistrationError::NotInGuild)
        } else {
            match request.jinxxy_user_id {
                Some(jinxxy_user_id) => RegistrationStage::LoadApiKey { jinxxy_user_id },
                None => RegistrationStage::LoadDefaultStore,
            }
        };
        let guild_id: u64 = match request.guild_id {
            Some(guild_id) => guild_id,
            None => 0,
        };
        Registration {
            guild_id,
            user_id: request.user_id,
            license_key,
            license_type,
            is_member: request.is_member,
            stage,
        }
    }

    /// The action that is due.
    pub open spec fn due_action(&self) -> RegistrationAction<'_, EmbedView, LicenseKeyView> {
        match &self.stage {
            RegistrationStage::NotifyMissingKey => RegistrationAction::Notify {
                embed: EmbedView {
                    title: "Registration Failure"@,
                    description: "You must provide a license key"@,
                    colour: Some(Colour::Red),
                },
                best_effort: true,
            },
            RegistrationStage::LoadDefaultStore => RegistrationAction::LoadDefaultStore { guild_id: self.guild_id },
            RegistrationStage::LoadApiKey { jinxxy_user_id } => RegistrationAction::LoadApiKey {
                guild_id: self.guild_id,
                jinxxy_user_id,
            },
            RegistrationStage::NotifyMissingApiKey => RegistrationAction::Notify {
                embed: EmbedView {
                    title: "Jinx Misconfiguration"@,
                    description: "Jinxxy API key is not set: please contact the server administrator for support."@,
                    colour: Some(Colour::Red),
                },
                best_effort: true,
            },
            RegistrationStage::CheckLicense { api_key, .. } => RegistrationAction::CheckLicense {
                api_key,
                license: untrusted_license_key(self.license_type, self.license_key@)->0,
            },
            RegistrationStage::ListActivations { api_key, license_info, .. } => RegistrationAction::ListActivations {
                api_key,
                license_id: &license_info.license_id,
            },
            RegistrationStage::LoadRejectionLog { .. } | RegistrationStage::LoadDeadlockLog
            | RegistrationStage::LoadNoRolesLog { .. } | RegistrationStage::LoadGrantedLog { .. } =>
                RegistrationAction::LoadLogChannel { guild_id: self.guild_id },
            RegistrationStage::SendRejectionLog { channel_id, activations } => RegistrationAction::SendLog {
                channel_id: *channel_id,
                embed: rejection_log(self.user_id, activation_user_ids(activations@)),
                second_embed: None,
            },
            RegistrationStage::CheckRecord { jinxxy_user_id, license_info, .. } => RegistrationAction::CheckRecord {
                jinxxy_user_id,
                user_id: self.user_id,
                license_id: &license_info.license_id,
            },
            RegistrationStage::RestoreRecord { jinxxy_user_id, license_info, activation_id } =>
                record_of(self.user_id, jinxxy_user_id, license_info, activation_id),
            RegistrationStage::CreateActivation { api_key, license_info, .. } => RegistrationAction::CreateActivation {
                api_key,
                license_id: &license_info.license_id,
                user_id: self.user_id,
            },
            RegistrationStage::RecordActivation { jinxxy_user_id, license_info, activation_id, .. } =>
                record_of(self.user_id, jinxxy_user_id, license_info, activation_id),
            RegistrationStage::ListActivationsAgain { api_key, license_info } => RegistrationAction::ListActivations {
                api_key,
                license_id: &license_info.license_id,
            },
            RegistrationStage::SendDeadlockLog { channel_id } => RegistrationAction::SendLog {
                channel_id: *channel_id,
                embed: EmbedView {
                    title: "Activation Error"@,
                    description: user_mention(self.user_id)
                        + " attempted to activate a deadlocked license. It shouldn't be possible, but multiple users have already activated this license. An admin can use the `/deactivate_license` command to fix this manually."@,
                    colour: Some(Colour::Red),
                },
                second_embed: None,
            },
            RegistrationStage::CountGumroadFailure => RegistrationAction::CountGumroadFailure {
                guild_id: self.guild_id,
            },
            RegistrationStage::NotifyFailed => RegistrationAction::Notify {
                embed: refusal(self.license_type),
                best_effort: false,
            },
            RegistrationStage::LoadRoleGrants { license_info } => RegistrationAction::LoadRoleGrants {
                guild_id: self.guild_id,
                product_version_id: license_info.spec_product_version_id(),
            },
            RegistrationStage::NotifyNoRoles { license_info } => RegistrationAction::Notify {
                embed: EmbedView {
                    title: "Registration Partial Success"@,
                    description: "You have registered "@ + licensed_product(*license_info)
                        + ", but there are no configured role links. Please notify the server owner and then try again after role links have been configured."@,
                    colour: Some(Colour::Gold),
                },
                best_effort: true,
            },
            RegistrationStage::SendNoRolesLog { channel_id, license_info } => RegistrationAction::SendLog {
                channel_id: *channel_id,
                embed: EmbedView {
                    title: "License Activation"@,
                    description: user_mention(self.user_id) + " has registered the "@ + licensed_product(*license_info)
                        + " product, which has no configured roles!"@,
                    colour: Some(Colour::Gold),
                },
                second_embed: None,
            },
            RegistrationStage::GrantRoles { role_ids, .. } => RegistrationAction::GrantRoles { role_ids },
            RegistrationStage::NotifyGranted { license_info, outcomes } => RegistrationAction::Notify {
                embed: granted_notice(licensed_product(*license_info), outcomes@),
                best_effort: true,
            },
            RegistrationStage::SendGrantedLog { channel_id, license_info, outcomes } => RegistrationAction::SendLog {
                channel_id: *channel_id,
                embed: granted_log(self.user_id, licensed_product(*license_info), outcomes@),
                second_embed: role_error_log(self.user_id, outcomes@),
            },
            RegistrationStage::Finished => RegistrationAction::Finish,
            RegistrationStage::Aborted(error) => RegistrationAction::Abort(*error),
        }
    }

    /// The action that is due
    pub fn action(&self) -> (r: RegistrationAction<'_, Embed, LicenseKey<'_>>)
        requires
            self.wf(),
        ensures
            r.shown() == self.due_action(),
    {
        match &self.stage {
            RegistrationStage::NotifyMissingKey => RegistrationAction::Notify {
                embed: Embed::new(
                    "Registration Failure",
                    "You must provide a license key".to_owned(),
                    Some(Colour::Red),
                ),
                best_effort: true,
            },
            RegistrationStage::LoadDefaultStore => RegistrationAction::LoadDefaultStore { guild_id: self.guild_id },
            RegistrationStage::LoadApiKey { jinxxy_user_id } => RegistrationAction::LoadApiKey {
                guild_id: self.guild_id,
                jinxxy_user_id,
            },
            RegistrationStage::NotifyMissingApiKey => RegistrationAction::Notify {
                embed: Embed::new(
                    "Jinx Misconfiguration",
                    "Jinxxy API key is not set: please contact the server administrator for support.".to_owned(),
                    Some(Colour::Red),
                ),
                best_effort: true,
            },
            RegistrationStage::CheckLicense { api_key, .. } => {
                let license = self.license_type.create_untrusted_jinxxy_license(self.license_key.as_str());
                RegistrationAction::CheckLicense { api_key, license: license.unwrap() }
            }
            RegistrationStage::ListActivations { api_key, license_info, .. } => RegistrationAction::ListActivations {
                api_key,
                license_id: &license_info.license_id,
            },
            RegistrationStage::LoadRejectionLog { .. } | RegistrationStage::LoadDeadlockLog
            | RegistrationStage::LoadNoRolesLog { .. } | RegistrationStage::LoadGrantedLog { .. } =>
                RegistrationAction::LoadLogChannel { guild_id: self.guild_id },
            RegistrationStage::SendRejectionLog { channel_id, activations } => RegistrationAction::SendLog {
                channel_id: *channel_id,
                embed: rejection_log_embed(self.user_id, activations.as_slice()),
                second_embed: None,
            },
            RegistrationStage::CheckRecord { jinxxy_user_id, license_info, .. } => RegistrationAction::CheckRecord {
                jinxxy_user_id,
                user_id: self.user_id,
                license_id: &license_info.license_id,
            },
            RegistrationStage::RestoreRecord { jinxxy_user_id, license_info, activation_id } => self.record_action(
                jinxxy_user_id,
                license_info,
                activation_id,
            ),
            RegistrationStage::CreateActivation { api_key, license_info, .. } => RegistrationAction::CreateActivation {
                api_key,
                license_id: &license_info.license_id,
                user_id: self.user_id,
            },
            RegistrationStage::RecordActivation { jinxxy_user_id, license_info, activation_id, .. } =>
                self.record_action(jinxxy_user_id, license_info, activation_id),
            RegistrationStage::ListActivationsAgain { api_key, license_info } => RegistrationAction::ListActivations {
                api_key,
                license_id: &license_info.license_id,
            },
            RegistrationStage::SendDeadlockLog { channel_id } => RegistrationAction::SendLog {
                channel_id: *channel_id,
                embed: Embed::new(
                    "Activation Error",
                    mention_user(self.user_id).concat(
                        " attempted to activate a deadlocked license. It shouldn't be possible, but multiple users have already activated this license. An admin can use the `/deactivate_license` command to fix this manually.",
                    ),
                    Some(Colour::Red),
                ),
                second_embed: None,
            },
            RegistrationStage::CountGumroadFailure => RegistrationAction::CountGumroadFailure {
                guild_id: self.guild_id,
            },
            RegistrationStage::NotifyFailed => RegistrationAction::Notify {
                embed: refusal_embed(self.license_type),
                best_effort: false,
            },
            RegistrationStage::LoadRoleGrants { license_info } => RegistrationAction::LoadRoleGrants {
                guild_id: self.guild_id,
                product_version_id: license_info.new_product_version_id(),
            },
            RegistrationStage::NotifyNoRoles { license_info } => RegistrationAction::Notify {
                embed: Embed::new(
                    "Registration Partial Success",
                    "You have registered ".to_owned().concat(licensed_product_name(license_info).as_str()).concat(
                        ", but there are no configured role links. Please notify the server owner and then try again after role links have been configured.",
                    ),
                    Some(Colour::Gold),
                ),
                best_effort: true,
            },
            RegistrationStage::SendNoRolesLog { channel_id, license_info } => RegistrationAction::SendLog {
                channel_id: *channel_id,
                embed: Embed::new(
                    "License Activation",
                    mention_user(self.user_id).concat(" has registered the ").concat(
                        licensed_product_name(license_info).as_str(),
                    ).concat(" product, which has no configured roles!"),
                    Some(Colour::Gold),
                ),
                second_embed: None,
            },
            RegistrationStage::GrantRoles { role_ids, .. } => RegistrationAction::GrantRoles { role_ids },
            RegistrationStage::NotifyGranted { license_info, outcomes } => RegistrationAction::Notify {
                embed: granted_notice_embed(license_info, outcomes.as_slice()),
                best_effort: true,
            },
            RegistrationStage::SendGrantedLog { channel_id, license_info, outcomes } => RegistrationAction::SendLog {
                channel_id: *channel_id,
                embed: granted_log_embed(self.user_id, license_info, outcomes.as_slice()),
                second_embed: role_error_log_embed(self.user_id, outcomes.as_slice()),
            },
            RegistrationStage::Finished => RegistrationAction::Finish,
            RegistrationStage::Aborted(error) => RegistrationAction::Abort(*error),
        }
    }

    fn record_action<'a>(
        &self,
        jinxxy_user_id: &'a String,
        license_info: &'a LicenseInfo,
        activation_id: &'a String,
    ) -> (r: RegistrationAction<'a, Embed, LicenseKey<'a>>)
        ensures
            r.shown() == record_of(self.user_id, jinxxy_user_id, license_info, activation_id),
    {
        let version_id = match &license_info.product_version_info {
            Some(info) => Some(&info.product_version_id),
            None => None,
        };
        RegistrationAction::RecordActivation {
            jinxxy_user_id,
            license_id: &license_info.license_id,
            activation_id,
            user_id: self.user_id,
            product_id: &license_info.product_id,
            version_id,
        }
    }

    fn refuse(license_type: LicenseType) -> (r: RegistrationStage)
        ensures
            r == refused(license_type),
    {
        match license_type {
            LicenseType::Gumroad => RegistrationStage::CountGumroadFailure,
            _ => RegistrationStage::NotifyFailed,
        }
    }

    /// Go on with the answer to the action that was due
    pub fn step(self, event: RegistrationEvent) -> (r: Registration)
        requires
            self.wf(),
            self.answered_by(event),
        ensures
            r.wf(),
            r == (Registration { stage: self.next_stage(event), ..self }),
    {
        let ghost before = self;
        let Registration { guild_id, user_id, license_key, license_type, is_member, stage } = self;
        let stage = match (stage, event) {
            (RegistrationStage::LoadDefaultStore, RegistrationEvent::DefaultStore(store)) => match store {
                Some(jinxxy_user_id) => RegistrationStage::LoadApiKey { jinxxy_user_id },
                None => RegistrationStage::Aborted(RegistrationError::NoDefaultStore),
            },
            (RegistrationStage::LoadApiKey { jinxxy_user_id }, RegistrationEvent::ApiKey(api_key)) => match api_key {
                None => RegistrationStage::NotifyMissingApiKey,
                Some(api_key) => if license_type.create_untrusted_jinxxy_license(license_key.as_str()).is_none() {
                    Registration::refuse(license_type)
                } else {
                    RegistrationStage::CheckLicense { jinxxy_user_id, api_key }
                },
            },
            (
                RegistrationStage::CheckLicense { jinxxy_user_id, api_key },
                RegistrationEvent::License(license_info),
            ) => match license_info {
                None => Registration::refuse(license_type),
                Some(license_info) => if !is_member {
                    RegistrationStage::Aborted(RegistrationError::NotInGuild)
                } else if license_info.activations == 0 {
                    // we already know that there are no activations, so there is no need to list them
                    RegistrationStage::CheckRecord {
                        jinxxy_user_id,
                        api_key,
                        license_info,
                        known_activations: None,
                        own_user: false,
                    }
                } else {
                    RegistrationStage::ListActivations { jinxxy_user_id, api_key, license_info }
                },
            },
            (
                RegistrationStage::ListActivations { jinxxy_user_id, api_key, license_info },
                RegistrationEvent::Activations(activations),
            ) => {
                let validation = validate_jinxxy_license_activation(user_id, activations.as_slice());
                proof {
                    validation_is_clean_iff_free(user_id, activation_user_ids(activations@));
                }
                if validation.other_user || validation.locked {
                    RegistrationStage::LoadRejectionLog { activations }
                } else {
                    RegistrationStage::CheckRecord {
                        jinxxy_user_id,
                        api_key,
                        license_info,
                        known_activations: Some(activations),
                        own_user: validation.own_user,
                    }
                }
            }
            (RegistrationStage::LoadRejectionLog { activations }, RegistrationEvent::LogChannel(channel)) => {
                match channel {
                    Some(channel_id) => RegistrationStage::SendRejectionLog { channel_id, activations },
                    None => Registration::refuse(license_type),
                }
            }
            (RegistrationStage::SendRejectionLog { .. }, RegistrationEvent::Done) => Registration::refuse(license_type),
            (
                RegistrationStage::CheckRecord { jinxxy_user_id, api_key, license_info, known_activations, own_user },
                RegistrationEvent::RecordPresent(present),
            ) => if !own_user {
                RegistrationStage::CreateActivation { jinxxy_user_id, api_key, license_info }
            } else if !present {
                let activations = known_activations.unwrap();
                proof {
                    if activations@.len() == 0 {
                        assert(!activation_user_ids(activations@).contains(user_id));
                    }
                }
                RegistrationStage::RestoreRecord {
                    jinxxy_user_id,
                    license_info,
                    activation_id: activations[0].id.clone(),
                }
            } else {
                RegistrationStage::LoadRoleGrants { license_info }
            },
            (RegistrationStage::RestoreRecord { license_info, .. }, RegistrationEvent::Done) => {
                RegistrationStage::LoadRoleGrants { license_info }
            }
            (
                RegistrationStage::CreateActivation { jinxxy_user_id, api_key, license_info },
                RegistrationEvent::Activated(activation_id),
            ) => RegistrationStage::RecordActivation { jinxxy_user_id, api_key, license_info, activation_id },
            (RegistrationStage::RecordActivation { api_key, license_info, .. }, RegistrationEvent::Done) => {
                RegistrationStage::ListActivationsAgain { api_key, license_info }
            }
            (
                RegistrationStage::ListActivationsAgain { license_info, .. },
                RegistrationEvent::Activations(activations),
            ) => {
                let validation = validate_jinxxy_license_activation(user_id, activations.as_slice());
                proof {
                    validation_is_clean_iff_free(user_id, activation_user_ids(activations@));
                }
                if validation.deadlocked() {
                    // two different people just raced their way to an activation each
                    RegistrationStage::LoadDeadlockLog
                } else if validation.other_user || validation.locked {
                    Registration::refuse(license_type)
                } else {
                    RegistrationStage::LoadRoleGrants { license_info }
                }
            }
            (RegistrationStage::LoadDeadlockLog, RegistrationEvent::LogChannel(channel)) => match channel {
                Some(channel_id) => RegistrationStage::SendDeadlockLog { channel_id },
                None => Registration::refuse(license_type),
            },
            (RegistrationStage::SendDeadlockLog { .. }, RegistrationEvent::Done) => Registration::refuse(license_type),
            (RegistrationStage::CountGumroadFailure, RegistrationEvent::Done) => RegistrationStage::NotifyFailed,
            (RegistrationStage::LoadRoleGrants { license_info }, RegistrationEvent::RoleGrants(role_ids)) => {
                if role_ids.len() == 0 {
                    RegistrationStage::NotifyNoRoles { license_info }
                } else {
                    RegistrationStage::GrantRoles { license_info, role_ids }
                }
            }
            (RegistrationStage::NotifyNoRoles { license_info }, RegistrationEvent::Done) => {
                RegistrationStage::LoadNoRolesLog { license_info }
            }
            (RegistrationStage::LoadNoRolesLog { license_info }, RegistrationEvent::LogChannel(channel)) => {
                match channel {
                    Some(channel_id) => RegistrationStage::SendNoRolesLog { channel_id, license_info },
                    None => RegistrationStage::Finished,
                }
            }
            (RegistrationStage::GrantRoles { license_info, .. }, RegistrationEvent::RolesGranted(outcomes)) => {
                RegistrationStage::NotifyGranted { license_info, outcomes }
            }
            (RegistrationStage::NotifyGranted { license_info, outcomes }, RegistrationEvent::Done) => {
                RegistrationStage::LoadGrantedLog { license_info, outcomes }
            }
            (RegistrationStage::LoadGrantedLog { license_info, outcomes }, RegistrationEvent::LogChannel(channel)) => {
                match channel {
                    Some(channel_id) => RegistrationStage::SendGrantedLog { channel_id, license_info, outcomes },
                    None => RegistrationStage::Finished,
                }
            }
            _ => RegistrationStage::Finished,
        };
        Registration { guild_id, user_id, license_key, license_type, is_member, stage }
    }
}

/// Roles are only ever asked for, let alone granted, when the activations that Jinxxy listed last were all of
/// the registering user: no other user had activated the license, and it was not locked. A license that the
/// user had not activated before is listed once more behind its activation.
pub proof fn only_a_free_license_gets_to_its_roles(r: Registration, event: RegistrationEvent)
    requires
        r.wf(),
        r.answered_by(event),
        r.next_stage(event) is LoadRoleGrants,
    ensures
        ({
            ||| r.stage is RestoreRecord
            ||| r.stage matches RegistrationStage::CheckRecord { known_activations: Some(activations), .. }
                && activation_user_ids(activations@).contains(r.user_id)
                && is_free_for(r.user_id, activation_user_ids(activations@))
            ||| r.stage is ListActivationsAgain && (event matches RegistrationEvent::Activations(activations)
                && is_free_for(r.user_id, activation_user_ids(activations@)))
        }),
{
}

/// A record is only restored for a license that the user, and nobody else, had activated.
pub proof fn only_an_activated_license_is_restored(r: Registration, event: RegistrationEvent)
    requires
        r.wf(),
        r.answered_by(event),
        r.next_stage(event) is RestoreRecord,
    ensures
        r.stage matches RegistrationStage::CheckRecord { known_activations: Some(activations), .. }
            && activation_user_ids(activations@).contains(r.user_id) && is_free_for(
            r.user_id,
            activation_user_ids(activations@),
        ),
{
}

/// A license that somebody else has activated, or that is locked, never gets to its roles: both lists of
/// activations that a registration decides by send it to its refusal.
pub proof fn a_used_or_locked_license_is_refused(r: Registration, activations: Vec<LicenseActivation>, i: int, other: u64)
    requires
        r.wf(),
        0 <= i < activations@.len(),
        activation_user_id(activations@[i].description@) == Some(other),
        other != r.user_id,
    ensures
        r.stage is ListActivations ==> r.next_stage(RegistrationEvent::Activations(activations)) is LoadRejectionLog,
        r.stage is ListActivationsAgain ==> ({
            let next = r.next_stage(RegistrationEvent::Activations(activations));
            next is LoadDeadlockLog || next is CountGumroadFailure || next is NotifyFailed
        }),
{
    let ids = activation_user_ids(activations@);
    every_activator_is_seen(activations@, i, other);
    let k = choose|k: int| 0 <= k < ids.len() && ids[k] == other;
    assert(ids[k] != r.user_id);
}

/// Whether an answer brings a registration from one state to another.
#[verifier::opaque]
pub open spec fn leads_to(before: Registration, event: RegistrationEvent, after: Registration) -> bool {
    before.answered_by(event) && after == (Registration { stage: before.next_stage(event), ..before })
}

/// Whether a registration goes through these states, from its start on, when it gets these answers.
pub open spec fn is_run(request: RegistrationRequest, states: Seq<Registration>, events: Seq<RegistrationEvent>) -> bool
    decreases events.len(),
{
    &&& states.len() == events.len() + 1
    &&& states.last().wf()
    &&& if events.len() == 0 {
        states.last().stage == Registration::first_stage(request) && states.last().user_id == request.user_id
    } else {
        is_run(request, states.drop_last(), events.drop_last()) && leads_to(
            states.drop_last().last(),
            events.last(),
            states.last(),
        )
    }
}

/// Whether the last list of activations among the answers has activations of a user only.
pub open spec fn last_list_is_clean(user_id: u64, events: Seq<RegistrationEvent>) -> bool {
    exists|j: int|
        0 <= j < events.len() && (#[trigger] events[j] matches RegistrationEvent::Activations(activations)
            && is_free_for(user_id, activation_user_ids(activations@))) && forall|k: int|
            j < k < events.len() ==> !(#[trigger] events[k] is Activations)
}

/// Whether a stage is one that only a registered license gets to.
pub open spec fn is_registered(stage: RegistrationStage) -> bool {
    stage is LoadRoleGrants || stage is NotifyNoRoles || stage is LoadNoRolesLog || stage is SendNoRolesLog
        || stage is GrantRoles || stage is NotifyGranted || stage is LoadGrantedLog || stage is SendGrantedLog
}

/// However a registration comes to grant roles, Jinxxy has listed the activations of the license before, and the
/// last list had activations of the registering user only: nobody else had activated the license, and it was not
/// locked.
pub proof fn roles_follow_a_clean_list(
    request: RegistrationRequest,
    states: Seq<Registration>,
    events: Seq<RegistrationEvent>,
)
    requires
        is_run(request, states, events),
        is_registered(states.last().stage),
    ensures
        last_list_is_clean(request.user_id, events),
{
    runs_are_clean(request, states, events);
    a_run_keeps_its_user(request, states, events);
}

/// A registration is of the same user all along.
proof fn a_run_keeps_its_user(request: RegistrationRequest, states: Seq<Registration>, events: Seq<RegistrationEvent>)
    requires
        is_run(request, states, events),
    ensures
        states.last().user_id == request.user_id,
    decreases events.len(),
{
    if events.len() > 0 {
        a_run_keeps_its_user(request, states.drop_last(), events.drop_last());
        reveal(leads_to);
    }
}

/// Whether a stage is one that only a license with a clean list of activations gets to.
spec fn is_cleared(stage: RegistrationStage) -> bool {
    ||| is_registered(stage)
    ||| stage is RestoreRecord
    ||| stage matches RegistrationStage::CheckRecord { known_activations: Some(_), .. }
}

/// A step clears a license only with a clean list of activations.
proof fn a_step_keeps_clean(before: Registration, event: RegistrationEvent, after: Registration)
    requires
        before.wf(),
        leads_to(before, event, after),
        is_cleared(after.stage),
    ensures
        event matches RegistrationEvent::Activations(activations) ==> is_free_for(
            after.user_id,
            activation_user_ids(activations@),
        ),
        !(event is Activations) ==> is_cleared(before.stage),
        before.user_id == after.user_id,
{
    reveal(leads_to);
}

/// All runs to a cleared stage have seen a clean list of activations.
proof fn runs_are_clean(request: RegistrationRequest, states: Seq<Registration>, events: Seq<RegistrationEvent>)
    requires
        is_run(request, states, events),
        is_cleared(states.last().stage),
    ensures
        last_list_is_clean(states.last().user_id, events),
    decreases events.len(),
{
    if events.len() > 0 {
        reveal_with_fuel(is_run, 2);
        let n = events.len() - 1;
        let earlier = events.drop_last();
        let user_id = states.last().user_id;
        a_step_keeps_clean(states.drop_last().last(), events.last(), states.last());
        if events.last() is Activations {
            assert(events[n] is Activations);
        } else {
            runs_are_clean(request, states.drop_last(), earlier);
            let j = choose|j: int|
                0 <= j < earlier.len() && (#[trigger] earlier[j] matches RegistrationEvent::Activations(activations)
                    && is_free_for(user_id, activation_user_ids(activations@))) && forall|k: int|
                    j < k < earlier.len() ==> !(#[trigger] earlier[k] is Activations);
            assert(events[j] == earlier[j]);
            assert forall|k: int| j < k < events.len() implies !(#[trigger] events[k] is Activations) by {
                if k < n {
                    assert(earlier[k] == events[k]);
                }
            }
        }
    }
}

/// Whether a stage is one on the way to a refusal.
pub open spec fn is_refusal(stage: RegistrationStage) -> bool {
    stage is LoadRejectionLog || stage is SendRejectionLog || stage is LoadDeadlockLog || stage is SendDeadlockLog
        || stage is CountGumroadFailure || stage is NotifyFailed
}

/// A refusal is final: whatever follows, it ends with the user being told so.
pub proof fn a_refusal_is_final(r: Registration, event: RegistrationEvent)
    requires
        r.wf(),
        r.answered_by(event),
        is_refusal(r.stage),
    ensures
        is_refusal(r.next_stage(event)) || (r.stage is NotifyFailed && r.next_stage(event) is Finished),
{
}

/// A license that the user had not activated before is activated, put into the database and then checked again,
/// before anything else happens.
pub proof fn a_new_activation_is_checked_again(r: Registration, created: RegistrationEvent, recorded: RegistrationEvent)
    requires
        r.wf(),
        r.stage is CreateActivation,
        r.answered_by(created),
        recorded is Done,
    ensures
        r.next_stage(created) is RecordActivation,
        (Registration { stage: r.next_stage(created), ..r }).next_stage(recorded) is ListActivationsAgain,
{
}

/// What a refused user is told depends on nothing but the license key that was provided.
pub proof fn refusal_depends_on_the_key_alone(a: Registration, b: Registration)
    requires
        a.wf(),
        b.wf(),
        a.license_key@ == b.license_key@,
        a.stage is NotifyFailed,
        b.stage is NotifyFailed,
    ensures
        a.due_action() == b.due_action(),
{
}

/// A license is never looked up by an ID.
pub proof fn a_license_is_never_looked_up_by_id(r: Registration)
    requires
        r.wf(),
    ensures
        r.due_action() matches RegistrationAction::CheckLicense { license, .. } ==> !(license is Id),
{
}

/// How many steps a registration has ahead of it at most.
pub open spec fn steps_left(stage: RegistrationStage) -> nat {
    match stage {
        RegistrationStage::LoadDefaultStore => 14,
        RegistrationStage::LoadApiKey { .. } => 13,
        RegistrationStage::CheckLicense { .. } => 12,
        RegistrationStage::ListActivations { .. } => 11,
        RegistrationStage::CheckRecord { .. } => 10,
        RegistrationStage::CreateActivation { .. } => 9,
        RegistrationStage::RecordActivation { .. } => 8,
        RegistrationStage::ListActivationsAgain { .. } => 7,
        RegistrationStage::RestoreRecord { .. } => 6,
        RegistrationStage::LoadRoleGrants { .. } => 5,
        RegistrationStage::GrantRoles { .. } => 4,
        RegistrationStage::NotifyGranted { .. } | RegistrationStage::NotifyNoRoles { .. } => 3,
        RegistrationStage::LoadRejectionLog { .. } | RegistrationStage::LoadDeadlockLog => 4,
        RegistrationStage::SendRejectionLog { .. } | RegistrationStage::SendDeadlockLog { .. } => 3,
        RegistrationStage::CountGumroadFailure => 2,
        RegistrationStage::LoadNoRolesLog { .. } | RegistrationStage::LoadGrantedLog { .. } => 2,
        RegistrationStage::SendNoRolesLog { .. } | RegistrationStage::SendGrantedLog { .. } => 1,
        RegistrationStage::NotifyFailed | RegistrationStage::NotifyMissingKey
        | RegistrationStage::NotifyMissingApiKey => 1,
        RegistrationStage::Finished | RegistrationStage::Aborted(_) => 0,
    }
}

/// Every registration comes to an end: each step leaves fewer steps ahead, and only an ended registration
/// waits for nothing.
pub proof fn registration_ends(r: Registration, event: RegistrationEvent)
    requires
        r.wf(),
        r.answered_by(event),
    ensures
        steps_left(r.next_stage(event)) < steps_left(r.stage),
        steps_left(r.stage) == 0 <==> (r.stage is Finished || r.stage is Aborted),
{
}

} // verus!
