//! The roles that a license gives.

use super::{
    db_version, product_sources, role_sources, version_sources, LinkSource, ProductRoleLink, ProductVersionRoleLink,
};
use crate::http::jinxxy::{ProductVersionId, ProductVersionIdView};
use crate::license::LOCKING_USER_ID;
use crate::text::str_equals;
use vstd::prelude::*;

verus! {

/// Whether a link is one of a product to a role.
pub open spec fn links_product(link: ProductRoleLink, product_id: Seq<char>, role_id: u64) -> bool {
    link.role_id == role_id && link.product_id@ == product_id
}

/// Whether a link is one of a product version to a role. In the database no version is the same as an empty one.
pub open spec fn links_version(link: ProductVersionRoleLink, id: ProductVersionIdView, role_id: u64) -> bool {
    link.role_id == role_id && link.product_version_id@.product_id == id.product_id && db_version(
        link.product_version_id@,
    ) == db_version(id)
}

/// Whether a license for a product version gives a role: the wildcard role, or one that is linked to the product or to
/// this version of it.
pub open spec fn is_granted(
    blanket_role_id: Option<u64>,
    products: Seq<ProductRoleLink>,
    versions: Seq<ProductVersionRoleLink>,
    id: ProductVersionIdView,
    role_id: u64,
) -> bool {
    ||| blanket_role_id == Some(role_id)
    ||| exists|i: int| 0 <= i < products.len() && links_product(#[trigger] products[i], id.product_id, role_id)
    ||| exists|i: int| 0 <= i < versions.len() && links_version(#[trigger] versions[i], id, role_id)
}

/// Whether numbers are in ascending order, each of them once.
pub open spec fn is_ascending(numbers: Seq<u64>) -> bool {
    forall|i: int, j: int| 0 <= i < j < numbers.len() ==> #[trigger] numbers[i] < #[trigger] numbers[j]
}

/// Put a number among others
fn insert_ascending(numbers: &mut Vec<u64>, number: u64)
    requires
        is_ascending(old(numbers)@),
    ensures
        is_ascending(final(numbers)@),
        forall|n: u64| #[trigger] final(numbers)@.contains(n) <==> (old(numbers)@.contains(n) || n == number),
{
    let ghost before = numbers@;
    let mut position: usize = 0;
    while position < numbers.len() && numbers[position] < number
        invariant
            numbers@ == before,
            position <= before.len(),
            forall|i: int| 0 <= i < position ==> #[trigger] before[i] < number,
        decreases before.len() - position,
    {
        position = position + 1;
    }
    if position < numbers.len() && numbers[position] == number {
        proof {
            assert(before[position as int] == number);
        }
        return;
    }
    numbers.insert(position, number);
    proof {
        let p = position as int;
        let after = numbers@;
        assert forall|i: int| 0 <= i < after.len() && i != p implies #[trigger] after[i] == before[if i < p {
            i
        } else {
            i - 1
        }] by {}
        assert forall|i: int, j: int| 0 <= i < j < after.len() implies #[trigger] after[i] < #[trigger] after[j] by {
            if j > p && p < before.len() {
                assert(before[p] > number);
                if j - 1 > p {
                    assert(before[p] < before[j - 1]);
                }
            }
        }
        assert forall|n: u64| #[trigger] after.contains(n) <==> (before.contains(n) || n == number) by {
            if after.contains(n) && n != number {
                let i = choose|i: int| 0 <= i < after.len() && after[i] == n;
                assert(before[if i < p {
                    i
                } else {
                    i - 1
                }] == n);
            }
            if before.contains(n) {
                let i = choose|i: int| 0 <= i < before.len() && before[i] == n;
                assert(after[if i < p {
                    i
                } else {
                    i + 1
                }] == n);
            }
            if n == number {
                assert(after[p] == n);
            }
        }
    }
}

/// Get role grants for a product version. This includes blanket grants.
pub fn role_grants(
    blanket_role_id: Option<u64>,
    products: &[ProductRoleLink],
    versions: &[ProductVersionRoleLink],
    product_version_id: &ProductVersionId,
) -> (r: Vec<u64>)
    ensures
        is_ascending(r@),
        forall|role_id: u64| #[trigger]
            r@.contains(role_id) <==> is_granted(
                blanket_role_id,
                products@,
                versions@,
                product_version_id@,
                role_id,
            ),
{
    let ghost id = product_version_id@;
    let ghost no_versions = Seq::<ProductVersionRoleLink>::empty();
    let (product_id, version_id) = product_version_id.as_db_values();
    let mut roles: Vec<u64> = Vec::new();
    if let Some(role_id) = blanket_role_id {
        roles.push(role_id);
        proof {
            assert(roles@[0] == role_id);
        }
    }
    for i in 0..products.len()
        invariant
            id == product_version_id@,
            product_id@ == id.product_id,
            no_versions == Seq::<ProductVersionRoleLink>::empty(),
            is_ascending(roles@),
            forall|role_id: u64| #[trigger]
                roles@.contains(role_id) <==> is_granted(
                    blanket_role_id,
                    products@.take(i as int),
                    no_versions,
                    id,
                    role_id,
                ),
    {
        let ghost before = products@.take(i as int);
        let ghost after = products@.take(i + 1);
        let ghost roles_before = roles@;
        if str_equals(products[i].product_id.as_str(), product_id) {
            insert_ascending(&mut roles, products[i].role_id);
        }
        proof {
            assert(after =~= before.push(products@[i as int]));
            assert forall|role_id: u64| #[trigger] roles@.contains(role_id) <==> is_granted(
                blanket_role_id,
                after,
                no_versions,
                id,
                role_id,
            ) by {
                more_products(blanket_role_id, before, products@[i as int], no_versions, id, role_id);
                assert(roles_before.contains(role_id) <==> is_granted(
                    blanket_role_id,
                    before,
                    no_versions,
                    id,
                    role_id,
                ));
            }
        }
    }
    proof {
        assert(products@.take(products@.len() as int) =~= products@);
        assert(versions@.take(0) =~= no_versions);
    }
    for i in 0..versions.len()
        invariant
            id == product_version_id@,
            product_id@ == id.product_id,
            version_id@ == db_version(id),
            is_ascending(roles@),
            forall|role_id: u64| #[trigger]
                roles@.contains(role_id) <==> is_granted(
                    blanket_role_id,
                    products@,
                    versions@.take(i as int),
                    id,
                    role_id,
                ),
    {
        let ghost before = versions@.take(i as int);
        let ghost after = versions@.take(i + 1);
        let ghost roles_before = roles@;
        let (linked_product_id, linked_version_id) = versions[i].product_version_id.as_db_values();
        if str_equals(linked_product_id, product_id) && str_equals(linked_version_id, version_id) {
            insert_ascending(&mut roles, versions[i].role_id);
        }
        proof {
            assert(after =~= before.push(versions@[i as int]));
            assert forall|role_id: u64| #[trigger] roles@.contains(role_id) <==> is_granted(
                blanket_role_id,
                products@,
                after,
                id,
                role_id,
            ) by {
                more_versions(blanket_role_id, products@, before, versions@[i as int], id, role_id);
                assert(roles_before.contains(role_id) <==> is_granted(
                    blanket_role_id,
                    products@,
                    before,
                    id,
                    role_id,
                ));
            }
        }
    }
    proof {
        assert(versions@.take(versions@.len() as int) =~= versions@);
    }
    roles
}

proof fn more_products(
    blanket_role_id: Option<u64>,
    products: Seq<ProductRoleLink>,
    link: ProductRoleLink,
    versions: Seq<ProductVersionRoleLink>,
    id: ProductVersionIdView,
    role_id: u64,
)
    ensures
        is_granted(blanket_role_id, products.push(link), versions, id, role_id) <==> (is_granted(
            blanket_role_id,
            products,
            versions,
            id,
            role_id,
        ) || links_product(link, id.product_id, role_id)),
{
    let more = products.push(link);
    assert(more[products.len() as int] == link);
    assert forall|i: int| 0 <= i < products.len() implies #[trigger] more[i] == products[i] by {}
    if exists|i: int| 0 <= i < products.len() && links_product(#[trigger] products[i], id.product_id, role_id) {
        let i = choose|i: int| 0 <= i < products.len() && links_product(#[trigger] products[i], id.product_id, role_id);
        assert(links_product(more[i], id.product_id, role_id));
    }
}

proof fn more_versions(
    blanket_role_id: Option<u64>,
    products: Seq<ProductRoleLink>,
    versions: Seq<ProductVersionRoleLink>,
    link: ProductVersionRoleLink,
    id: ProductVersionIdView,
    role_id: u64,
)
    ensures
        is_granted(blanket_role_id, products, versions.push(link), id, role_id) <==> (is_granted(
            blanket_role_id,
            products,
            versions,
            id,
            role_id,
        ) || links_version(link, id, role_id)),
{
    let more = versions.push(link);
    assert(more[versions.len() as int] == link);
    assert forall|i: int| 0 <= i < versions.len() implies #[trigger] more[i] == versions[i] by {}
    if exists|i: int| 0 <= i < versions.len() && links_version(#[trigger] versions[i], id, role_id) {
        let i = choose|i: int| 0 <= i < versions.len() && links_version(#[trigger] versions[i], id, role_id);
        assert(links_version(more[i], id, role_id));
    }
}

/// Whether something that gives a role gives it for a product version.
pub open spec fn gives_for(source: LinkSource, id: ProductVersionIdView) -> bool {
    match source {
        LinkSource::GlobalBlanket => true,
        LinkSource::ProductBlanket { product_id, .. } => product_id@ == id.product_id,
        LinkSource::ProductVersion { product_version_id, .. } => product_version_id@.product_id == id.product_id
            && db_version(product_version_id@) == db_version(id),
    }
}

/// Whether some of the things that give a role give it for a product version.
pub open spec fn some_gives_for(sources: Seq<LinkSource>, id: ProductVersionIdView) -> bool {
    exists|i: int| 0 <= i < sources.len() && gives_for(#[trigger] sources[i], id)
}

proof fn some_gives_for_of_push(sources: Seq<LinkSource>, source: LinkSource, id: ProductVersionIdView)
    ensures
        some_gives_for(sources.push(source), id) <==> some_gives_for(sources, id) || gives_for(source, id),
{
    let more = sources.push(source);
    assert(more[sources.len() as int] == source);
    assert forall|i: int| 0 <= i < sources.len() implies #[trigger] more[i] == sources[i] by {}
    if some_gives_for(sources, id) {
        let i = choose|i: int| 0 <= i < sources.len() && gives_for(#[trigger] sources[i], id);
        assert(gives_for(more[i], id));
    }
}

proof fn some_gives_for_of_concatenation(a: Seq<LinkSource>, b: Seq<LinkSource>, id: ProductVersionIdView)
    ensures
        some_gives_for(a + b, id) <==> some_gives_for(a, id) || some_gives_for(b, id),
    decreases b.len(),
{
    if b.len() == 0 {
        assert(a + b =~= a);
    } else {
        some_gives_for_of_concatenation(a, b.drop_last(), id);
        assert(a + b =~= (a + b.drop_last()).push(b.last()));
        assert(b =~= b.drop_last().push(b.last()));
        some_gives_for_of_push(a + b.drop_last(), b.last(), id);
        some_gives_for_of_push(b.drop_last(), b.last(), id);
    }
}

proof fn product_sources_give(products: Seq<ProductRoleLink>, id: ProductVersionIdView, role_id: u64)
    ensures
        some_gives_for(product_sources(products, role_id), id) <==> exists|i: int|
            0 <= i < products.len() && links_product(#[trigger] products[i], id.product_id, role_id),
    decreases products.len(),
{
    if products.len() > 0 {
        let init = products.drop_last();
        let link = products.last();
        product_sources_give(init, id, role_id);
        assert(products =~= init.push(link));
        more_products(None, init, link, Seq::empty(), id, role_id);
        if link.role_id == role_id {
            some_gives_for_of_push(
                product_sources(init, role_id),
                LinkSource::ProductBlanket { jinxxy_user_id: link.jinxxy_user_id, product_id: link.product_id },
                id,
            );
        }
        assert(is_granted(None, products, Seq::empty(), id, role_id) <==> exists|i: int|
            0 <= i < products.len() && links_product(#[trigger] products[i], id.product_id, role_id));
        assert(is_granted(None, init, Seq::empty(), id, role_id) <==> exists|i: int|
            0 <= i < init.len() && links_product(#[trigger] init[i], id.product_id, role_id));
    }
}

proof fn version_sources_give(versions: Seq<ProductVersionRoleLink>, id: ProductVersionIdView, role_id: u64)
    ensures
        some_gives_for(version_sources(versions, role_id), id) <==> exists|i: int|
            0 <= i < versions.len() && links_version(#[trigger] versions[i], id, role_id),
    decreases versions.len(),
{
    if versions.len() > 0 {
        let init = versions.drop_last();
        let link = versions.last();
        version_sources_give(init, id, role_id);
        assert(versions =~= init.push(link));
        more_versions(None, Seq::empty(), init, link, id, role_id);
        if link.role_id == role_id {
            some_gives_for_of_push(
                version_sources(init, role_id),
                LinkSource::ProductVersion {
                    jinxxy_user_id: link.jinxxy_user_id,
                    product_version_id: link.product_version_id,
                },
                id,
            );
        }
        assert(is_granted(None, Seq::empty(), versions, id, role_id) <==> exists|i: int|
            0 <= i < versions.len() && links_version(#[trigger] versions[i], id, role_id));
        assert(is_granted(None, Seq::empty(), init, id, role_id) <==> exists|i: int|
            0 <= i < init.len() && links_version(#[trigger] init[i], id, role_id));
    }
}

/// The list of links tells the truth: a license gives a role exactly when something that the role is listed with
/// gives it for the product version of the license.
pub proof fn roles_are_granted_as_listed(
    blanket_role_id: Option<u64>,
    products: Seq<ProductRoleLink>,
    versions: Seq<ProductVersionRoleLink>,
    id: ProductVersionIdView,
    role_id: u64,
)
    ensures
        is_granted(blanket_role_id, products, versions, id, role_id) <==> some_gives_for(
            role_sources(blanket_role_id, products, versions, role_id),
            id,
        ),
{
    let blanket = if blanket_role_id == Some(role_id) {
        seq![LinkSource::GlobalBlanket]
    } else {
        Seq::empty()
    };
    if blanket_role_id == Some(role_id) {
        assert(gives_for(blanket[0], id));
    }
    some_gives_for_of_concatenation(blanket, product_sources(products, role_id), id);
    some_gives_for_of_concatenation(
        blanket + product_sources(products, role_id),
        version_sources(versions, role_id),
        id,
    );
    product_sources_give(products, id, role_id);
    version_sources_give(versions, id, role_id);
}

/// An activation of a license, as it was recorded
#[derive(Debug)]
pub struct RecordedActivation {
    pub jinxxy_user_id: String,
    pub license_id: String,
    pub activator_user_id: u64,
    /// What the license is for, if that was recorded
    pub product_version_id: Option<ProductVersionId>,
}

/// Whether a license of a store has a lock.
pub open spec fn has_lock(activations: Seq<RecordedActivation>, jinxxy_user_id: Seq<char>, license_id: Seq<char>) -> bool {
    exists|i: int|
        0 <= i < activations.len() && (#[trigger] activations[i]).activator_user_id == LOCKING_USER_ID
            && activations[i].jinxxy_user_id@ == jinxxy_user_id && activations[i].license_id@ == license_id
}

/// Whether an activation is one of a user, for a license without a lock.
pub open spec fn counts_for(user_id: u64, activations: Seq<RecordedActivation>, activation: RecordedActivation) -> bool {
    activation.activator_user_id == user_id && !has_lock(
        activations,
        activation.jinxxy_user_id@,
        activation.license_id@,
    )
}

/// Whether an activated license gives a role. Of a license for an unknown product only the wildcard role is known.
pub open spec fn activation_gives(
    activation: RecordedActivation,
    blanket_role_id: Option<u64>,
    products: Seq<ProductRoleLink>,
    versions: Seq<ProductVersionRoleLink>,
    role_id: u64,
) -> bool {
    match activation.product_version_id {
        Some(id) => is_granted(blanket_role_id, products, versions, id@, role_id),
        None => blanket_role_id == Some(role_id),
    }
}

/// Whether some of the first few activations count for a user and give a role.
pub open spec fn is_restored_by(
    count: int,
    user_id: u64,
    activations: Seq<RecordedActivation>,
    blanket_role_id: Option<u64>,
    products: Seq<ProductRoleLink>,
    versions: Seq<ProductVersionRoleLink>,
    role_id: u64,
) -> bool {
    exists|i: int|
        0 <= i < count && counts_for(user_id, activations, #[trigger] activations[i]) && activation_gives(
            activations[i],
            blanket_role_id,
            products,
            versions,
            role_id,
        )
}

/// Whether a user who comes back gets a role back: some license without a lock that the user has activated gives it.
pub open spec fn is_restored(
    user_id: u64,
    activations: Seq<RecordedActivation>,
    blanket_role_id: Option<u64>,
    products: Seq<ProductRoleLink>,
    versions: Seq<ProductVersionRoleLink>,
    role_id: u64,
) -> bool {
    is_restored_by(activations.len() as int, user_id, activations, blanket_role_id, products, versions, role_id)
}

fn is_locked(activations: &[RecordedActivation], jinxxy_user_id: &str, license_id: &str) -> (r: bool)
    ensures
        r == has_lock(activations@, jinxxy_user_id@, license_id@),
{
    for i in 0..activations.len()
        invariant
            forall|j: int|
                0 <= j < i ==> !((#[trigger] activations@[j]).activator_user_id == LOCKING_USER_ID
                    && activations@[j].jinxxy_user_id@ == jinxxy_user_id@ && activations@[j].license_id@ == license_id@),
    {
        let activation = &activations[i];
        if activation.activator_user_id == LOCKING_USER_ID && str_equals(
            activation.jinxxy_user_id.as_str(),
            jinxxy_user_id,
        ) && str_equals(activation.license_id.as_str(), license_id) {
            return true;
        }
    }
    false
}

/// Get the roles of an activated license
fn activation_grants(
    activation: &RecordedActivation,
    blanket_role_id: Option<u64>,
    products: &[ProductRoleLink],
    versions: &[ProductVersionRoleLink],
) -> (r: Vec<u64>)
    ensures
        forall|role_id: u64| #[trigger]
            r@.contains(role_id) <==> activation_gives(*activation, blanket_role_id, products@, versions@, role_id),
{
    match &activation.product_version_id {
        Some(id) => role_grants(blanket_role_id, products, versions, id),
        None => {
            let mut roles: Vec<u64> = Vec::new();
            if let Some(role_id) = blanket_role_id {
                roles.push(role_id);
                proof {
                    assert(roles@[0] == role_id);
                }
            }
            roles
        },
    }
}

/// Get the roles that a user gets back who has left a guild and rejoins it, given all activations that were recorded
/// for the guild's stores and the guild's links
pub fn roles_to_restore(
    user_id: u64,
    activations: &[RecordedActivation],
    blanket_role_id: Option<u64>,
    products: &[ProductRoleLink],
    versions: &[ProductVersionRoleLink],
) -> (r: Vec<u64>)
    ensures
        is_ascending(r@),
        forall|role_id: u64| #[trigger]
            r@.contains(role_id) <==> is_restored(
                user_id,
                activations@,
                blanket_role_id,
                products@,
                versions@,
                role_id,
            ),
{
    let mut roles: Vec<u64> = Vec::new();
    for i in 0..activations.len()
        invariant
            is_ascending(roles@),
            forall|role_id: u64| #[trigger]
                roles@.contains(role_id) <==> is_restored_by(
                    i as int,
                    user_id,
                    activations@,
                    blanket_role_id,
                    products@,
                    versions@,
                    role_id,
                ),
    {
        let activation = &activations[i];
        let ghost before = roles@;
        let mut granted: Vec<u64> = Vec::new();
        if activation.activator_user_id == user_id && !is_locked(
            activations,
            activation.jinxxy_user_id.as_str(),
            activation.license_id.as_str(),
        ) {
            granted = activation_grants(activation, blanket_role_id, products, versions);
        }
        for j in 0..granted.len()
            invariant
                is_ascending(roles@),
                forall|role_id: u64| #[trigger]
                    roles@.contains(role_id) <==> (before.contains(role_id) || granted@.take(j as int).contains(
                        role_id,
                    )),
        {
            let ghost inner = roles@;
            insert_ascending(&mut roles, granted[j]);
            proof {
                let shorter = granted@.take(j as int);
                let longer = granted@.take(j + 1);
                assert(longer =~= shorter.push(granted@[j as int]));
                assert forall|role_id: u64| #[trigger] roles@.contains(role_id) <==> (before.contains(role_id)
                    || longer.contains(role_id)) by {
                    assert(inner.contains(role_id) <==> before.contains(role_id) || shorter.contains(role_id));
                    if longer.contains(role_id) && role_id != granted@[j as int] {
                        let k = choose|k: int| 0 <= k < longer.len() && longer[k] == role_id;
                        assert(shorter[k] == role_id);
                    }
                    if shorter.contains(role_id) {
                        let k = choose|k: int| 0 <= k < shorter.len() && shorter[k] == role_id;
                        assert(longer[k] == role_id);
                    }
                    assert(longer[j as int] == granted@[j as int]);
                }
            }
        }
        proof {
            assert(granted@.take(granted@.len() as int) =~= granted@);
            assert forall|role_id: u64| #[trigger] roles@.contains(role_id) <==> is_restored_by(
                i + 1,
                user_id,
                activations@,
                blanket_role_id,
                products@,
                versions@,
                role_id,
            ) by {
                let a = activations@;
                assert(before.contains(role_id) <==> is_restored_by(
                    i as int,
                    user_id,
                    a,
                    blanket_role_id,
                    products@,
                    versions@,
                    role_id,
                ));
                assert(granted@.contains(role_id) <==> counts_for(user_id, a, a[i as int]) && activation_gives(
                    a[i as int],
                    blanket_role_id,
                    products@,
                    versions@,
                    role_id,
                ));
            }
        }
    }
    roles
}

/// A user who comes back gets back every role that a license without a lock gave on its registration.
pub proof fn a_rejoin_restores_what_was_granted(
    user_id: u64,
    activations: Seq<RecordedActivation>,
    blanket_role_id: Option<u64>,
    products: Seq<ProductRoleLink>,
    versions: Seq<ProductVersionRoleLink>,
    i: int,
    role_id: u64,
)
    requires
        0 <= i < activations.len(),
        counts_for(user_id, activations, activations[i]),
        activations[i].product_version_id matches Some(id) && is_granted(
            blanket_role_id,
            products,
            versions,
            id@,
            role_id,
        ),
    ensures
        is_restored(user_id, activations, blanket_role_id, products, versions, role_id),
{
}

/// A user who comes back gets no role back, not even the wildcard role, if a lock is on every license that the user
/// has activated.
pub proof fn a_rejoin_restores_nothing_locked(
    user_id: u64,
    activations: Seq<RecordedActivation>,
    blanket_role_id: Option<u64>,
    products: Seq<ProductRoleLink>,
    versions: Seq<ProductVersionRoleLink>,
    role_id: u64,
)
    requires
        forall|i: int|
            0 <= i < activations.len() && (#[trigger] activations[i]).activator_user_id == user_id ==> has_lock(
                activations,
                activations[i].jinxxy_user_id@,
                activations[i].license_id@,
            ),
    ensures
        !is_restored(user_id, activations, blanket_role_id, products, versions, role_id),
{
}

} // verus!
