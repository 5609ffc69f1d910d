//! The roles that licenses give

use crate::db::roles::{is_granted, role_grants, roles_to_restore, RecordedActivation};
use crate::db::{db_version, ProductRoleLink, ProductVersionRoleLink};
use crate::http::jinxxy::ProductVersionId;
use vstd::prelude::*;

verus! {

/// A license gives the wildcard role, whatever it is for.
pub proof fn the_wildcard_role_is_granted(
    role_id: u64,
    products: &[ProductRoleLink],
    versions: &[ProductVersionRoleLink],
    id: &ProductVersionId,
    roles: Vec<u64>,
)
    requires
        call_ensures(role_grants, (Some(role_id), products, versions, id), roles),
    ensures
        roles@.contains(role_id),
{
}

/// A license gives every role that its product is linked to, whether it is for a version of the product or not.
pub proof fn roles_of_the_product_are_granted(
    blanket_role_id: Option<u64>,
    products: &[ProductRoleLink],
    versions: &[ProductVersionRoleLink],
    id: &ProductVersionId,
    roles: Vec<u64>,
    i: int,
)
    requires
        call_ensures(role_grants, (blanket_role_id, products, versions, id), roles),
        0 <= i < products@.len(),
        products@[i].product_id@ == id.product_id@,
    ensures
        roles@.contains(products@[i].role_id),
{
    assert(is_granted(blanket_role_id, products@, versions@, id@, products@[i].role_id));
}

/// A license gives every role that its version of the product is linked to.
pub proof fn roles_of_the_version_are_granted(
    blanket_role_id: Option<u64>,
    products: &[ProductRoleLink],
    versions: &[ProductVersionRoleLink],
    id: &ProductVersionId,
    roles: Vec<u64>,
    i: int,
)
    requires
        call_ensures(role_grants, (blanket_role_id, products, versions, id), roles),
        0 <= i < versions@.len(),
        versions@[i].product_version_id.product_id@ == id.product_id@,
        versions@[i].product_version_id.product_version_id is None <==> id.product_version_id is None,
        versions@[i].product_version_id.product_version_id matches Some(version) ==> version@
            == id.product_version_id->0@,
    ensures
        roles@.contains(versions@[i].role_id),
{
    assert(db_version(versions@[i].product_version_id@) == db_version(id@));
    assert(is_granted(blanket_role_id, products@, versions@, id@, versions@[i].role_id));
}

/// A license gives no role but the wildcard role and those that its product is linked to, or a version of it. A role
/// of another version than that of the license is not given.
pub proof fn no_other_roles_are_granted(
    blanket_role_id: Option<u64>,
    products: &[ProductRoleLink],
    versions: &[ProductVersionRoleLink],
    id: &ProductVersionId,
    roles: Vec<u64>,
    role_id: u64,
)
    requires
        call_ensures(role_grants, (blanket_role_id, products, versions, id), roles),
        blanket_role_id != Some(role_id),
        forall|i: int|
            0 <= i < products@.len() && (#[trigger] products@[i]).role_id == role_id ==> products@[i].product_id@
                != id.product_id@,
        forall|i: int|
            0 <= i < versions@.len() && (#[trigger] versions@[i]).role_id == role_id
                ==> versions@[i].product_version_id.product_id@ != id.product_id@ || (
            versions@[i].product_version_id.product_version_id matches Some(a) && id.product_version_id matches Some(b)
                && a@ != b@),
    ensures
        !roles@.contains(role_id),
{
    if is_granted(blanket_role_id, products@, versions@, id@, role_id) {
    }
}

/// Each role is granted once, in ascending order.
pub proof fn roles_are_granted_once(
    blanket_role_id: Option<u64>,
    products: &[ProductRoleLink],
    versions: &[ProductVersionRoleLink],
    id: &ProductVersionId,
    roles: Vec<u64>,
)
    requires
        call_ensures(role_grants, (blanket_role_id, products, versions, id), roles),
    ensures
        forall|i: int, j: int| 0 <= i < j < roles@.len() ==> #[trigger] roles@[i] < #[trigger] roles@[j],
{
}

/// Whether some lock is on the license of an activation. A lock is an activation by the user 0.
pub open spec fn lock_is_on(activations: Seq<RecordedActivation>, activation: RecordedActivation) -> bool {
    exists|k: int|
        0 <= k < activations.len() && (#[trigger] activations[k]).activator_user_id == 0 && activations[k].license_id@
            == activation.license_id@ && activations[k].jinxxy_user_id@ == activation.jinxxy_user_id@
}

/// A user who rejoins gets back every role that each of their licenses gives, unless a lock is on it: what is granted
/// for a product version, or for a product without versions, is among what is restored.
pub proof fn a_rejoin_restores_all_grants(
    user_id: u64,
    activations: &[RecordedActivation],
    blanket_role_id: Option<u64>,
    products: &[ProductRoleLink],
    versions: &[ProductVersionRoleLink],
    restored: Vec<u64>,
    i: int,
    id: ProductVersionId,
    granted: Vec<u64>,
    role_id: u64,
)
    requires
        call_ensures(roles_to_restore, (user_id, activations, blanket_role_id, products, versions), restored),
        0 <= i < activations@.len(),
        activations@[i].activator_user_id == user_id,
        !lock_is_on(activations@, activations@[i]),
        activations@[i].product_version_id == Some(id),
        call_ensures(role_grants, (blanket_role_id, products, versions, &id), granted),
        granted@.contains(role_id),
    ensures
        restored@.contains(role_id),
{
    assert(crate::db::roles::counts_for(user_id, activations@, activations@[i]));
    assert(crate::db::roles::activation_gives(activations@[i], blanket_role_id, products@, versions@, role_id));
}

/// A user who rejoins gets back the wildcard role for any license without a lock, even if its product was not
/// recorded.
pub proof fn a_rejoin_restores_the_wildcard_role(
    user_id: u64,
    activations: &[RecordedActivation],
    role_id: u64,
    products: &[ProductRoleLink],
    versions: &[ProductVersionRoleLink],
    restored: Vec<u64>,
    i: int,
)
    requires
        call_ensures(roles_to_restore, (user_id, activations, Some(role_id), products, versions), restored),
        0 <= i < activations@.len(),
        activations@[i].activator_user_id == user_id,
        !lock_is_on(activations@, activations@[i]),
    ensures
        restored@.contains(role_id),
{
    assert(crate::db::roles::counts_for(user_id, activations@, activations@[i]));
    assert(crate::db::roles::activation_gives(activations@[i], Some(role_id), products@, versions@, role_id));
}

/// A user who rejoins gets back nothing that none of their licenses without a lock gives.
pub proof fn a_rejoin_restores_nothing_else(
    user_id: u64,
    activations: &[RecordedActivation],
    blanket_role_id: Option<u64>,
    products: &[ProductRoleLink],
    versions: &[ProductVersionRoleLink],
    restored: Vec<u64>,
    role_id: u64,
)
    requires
        call_ensures(roles_to_restore, (user_id, activations, blanket_role_id, products, versions), restored),
        restored@.contains(role_id),
    ensures
        exists|i: int|
            0 <= i < activations@.len() && (#[trigger] activations@[i]).activator_user_id == user_id && !lock_is_on(
                activations@,
                activations@[i],
            ) && (blanket_role_id == Some(role_id) || (activations@[i].product_version_id matches Some(id) && forall|
                granted: Vec<u64>,
            | #[trigger]
                call_ensures(role_grants, (blanket_role_id, products, versions, &id), granted) ==> granted@.contains(
                    role_id,
                ))),
{
    let a = activations@;
    let i = choose|i: int|
        0 <= i < a.len() && crate::db::roles::counts_for(user_id, a, #[trigger] a[i])
            && crate::db::roles::activation_gives(a[i], blanket_role_id, products@, versions@, role_id);
    assert(a[i].activator_user_id == user_id);
    if lock_is_on(a, a[i]) {
        let k = choose|k: int|
            0 <= k < a.len() && (#[trigger] a[k]).activator_user_id == 0 && a[k].license_id@ == a[i].license_id@
                && a[k].jinxxy_user_id@ == a[i].jinxxy_user_id@;
        assert(a[k].activator_user_id == 0);
    }
}

} // verus!
