//! The form to link products to roles by selection

use crate::bot::message::{mention_role, role_mention, Colour, Embed, EmbedView};
use crate::bot::util::contains_id;
use vstd::prelude::*;

verus! {

/// Discord's limit on the number of values that can be selected
pub const MAX_SELECT_VALUES: u8 = 25;

/// The number of products that can be selected at once: all of them, up to the limit
pub fn product_select_max(product_count: usize) -> (r: u8)
    ensures
        r == (if product_count > MAX_SELECT_VALUES {
            MAX_SELECT_VALUES as int
        } else {
            product_count as int
        }),
{
    if product_count > MAX_SELECT_VALUES as usize {
        MAX_SELECT_VALUES
    } else {
        product_count as u8
    }
}

/// A product that can be selected
#[derive(Debug)]
pub struct SelectableProduct {
    pub product_id: String,
    pub name: String,
}

/// What is selected in the form, and what the form knows
#[derive(Debug)]
pub struct LinkForm {
    pub products: Vec<SelectableProduct>,
    /// The roles that the bot can grant and that have not been linked through this form yet
    pub assignable_roles: Vec<u64>,
    pub selected_products: Option<Vec<String>>,
    pub selected_roles: Option<Vec<u64>>,
}

/// What happens to the form
#[derive(Debug)]
pub enum LinkFormEvent {
    /// Products were selected
    SelectProducts(Vec<String>),
    /// Roles were selected
    SelectRoles(Vec<u64>),
    /// The selected products were asked to be linked to the selected roles, or unlinked from them
    Submit { link: bool },
}

/// What is done about it
#[derive(Debug)]
pub enum LinkFormResponse {
    /// Nothing
    Wait,
    /// Say that something has to be selected first
    Incomplete(Embed),
    /// Link or unlink each of the products and each of the roles, and say so
    Apply { link: bool, product_ids: Vec<String>, role_ids: Vec<u64>, answer: Embed, warning: Option<Embed> },
}

/// How a product is shown: by the name of the last of the products with its ID, or else by the ID.
pub open spec fn selectable_name(products: Seq<SelectableProduct>, product_id: Seq<char>) -> Seq<char>
    decreases products.len(),
{
    if products.len() == 0 {
        product_id
    } else if products.last().product_id@ == product_id {
        "\""@ + products.last().name@ + "\""@
    } else {
        selectable_name(products.drop_last(), product_id)
    }
}

fn show_product(products: &[SelectableProduct], product_id: &String) -> (r: String)
    ensures
        r@ == selectable_name(products@, product_id@),
{
    let mut i: usize = products.len();
    proof {
        assert(products@.take(i as int) =~= products@);
    }
    while i > 0
        invariant
            i <= products@.len(),
            selectable_name(products@, product_id@) == selectable_name(products@.take(i as int), product_id@),
        decreases i,
    {
        proof {
            assert(products@.take(i as int).drop_last() =~= products@.take(i - 1));
            assert(products@.take(i as int).last() == products@[i - 1]);
        }
        if products[i - 1].product_id == *product_id {
            return "\"".to_owned().concat(products[i - 1].name.as_str()).concat("\"");
        }
        i = i - 1;
    }
    product_id.clone()
}

/// The links of a product to roles, each on a line of its own.
pub open spec fn product_link_lines(product: Seq<char>, role_ids: Seq<u64>) -> Seq<char>
    decreases role_ids.len(),
{
    if role_ids.len() == 0 {
        Seq::empty()
    } else {
        product_link_lines(product, role_ids.drop_last()) + "\n- "@ + product + "→"@ + role_mention(role_ids.last())
    }
}

/// The links of products to roles, each on a line of its own.
pub open spec fn link_lines(products: Seq<SelectableProduct>, product_ids: Seq<String>, role_ids: Seq<u64>) -> Seq<char>
    decreases product_ids.len(),
{
    if product_ids.len() == 0 {
        Seq::empty()
    } else {
        link_lines(products, product_ids.drop_last(), role_ids) + product_link_lines(
            selectable_name(products, product_ids.last()@),
            role_ids,
        )
    }
}

fn list_product_links(product: &String, role_ids: &[u64]) -> (r: String)
    ensures
        r@ == product_link_lines(product@, role_ids@),
{
    let mut lines = String::new();
    for i in 0..role_ids.len()
        invariant
            lines@ == product_link_lines(product@, role_ids@.take(i as int)),
    {
        proof {
            assert(role_ids@.take(i + 1).drop_last() =~= role_ids@.take(i as int));
        }
        lines = lines.concat("\n- ").concat(product.as_str()).concat("→").concat(mention_role(role_ids[i]).as_str());
    }
    proof {
        assert(role_ids@.take(role_ids@.len() as int) =~= role_ids@);
    }
    lines
}

fn list_links(products: &[SelectableProduct], product_ids: &[String], role_ids: &[u64]) -> (r: String)
    ensures
        r@ == link_lines(products@, product_ids@, role_ids@),
{
    let mut lines = String::new();
    for i in 0..product_ids.len()
        invariant
            lines@ == link_lines(products@, product_ids@.take(i as int), role_ids@),
    {
        proof {
            assert(product_ids@.take(i + 1).drop_last() =~= product_ids@.take(i as int));
            assert(product_ids@.take(i + 1).last() == product_ids@[i as int]);
        }
        let product = show_product(products, &product_ids[i]);
        lines = lines.concat(list_product_links(&product, role_ids).as_str());
    }
    proof {
        assert(product_ids@.take(product_ids@.len() as int) =~= product_ids@);
    }
    lines
}

/// The roles that a number of products are linked to, one product after the other.
pub open spec fn linked_roles(product_count: nat, role_ids: Seq<u64>) -> Seq<u64>
    decreases product_count,
{
    if product_count == 0 {
        Seq::empty()
    } else {
        linked_roles((product_count - 1) as nat, role_ids) + role_ids
    }
}

/// The warnings about links that are made to roles in turn, given the roles that the bot can grant and that were
/// not linked before: any other role is warned about.
pub open spec fn warnings(assignable_roles: Seq<u64>, linked: Seq<u64>) -> Seq<char>
    decreases linked.len(),
{
    if linked.len() == 0 {
        Seq::empty()
    } else {
        let others = warnings(assignable_roles, linked.drop_last());
        let role_id = linked.last();
        if assignable_roles.contains(role_id) && !linked.drop_last().contains(role_id) {
            others
        } else {
            others + "\n- "@ + role_mention(role_id)
        }
    }
}

impl LinkForm {
    /// A form in which nothing is selected
    pub fn new(products: Vec<SelectableProduct>, assignable_roles: Vec<u64>) -> (r: LinkForm)
        ensures
            r.products == products,
            r.assignable_roles == assignable_roles,
            r.selected_products is None,
            r.selected_roles is None,
    {
        LinkForm { products, assignable_roles, selected_products: None, selected_roles: None }
    }

    /// The answer to a form in which something is missing.
    pub open spec fn incomplete_answer() -> EmbedView {
        EmbedView {
            title: "Product Link Failed"@,
            description: "Please try again, and select both a product and a role to link."@,
            colour: Some(Colour::Red),
        }
    }

    /// The answer to a form by which products were linked or unlinked.
    pub open spec fn applied_answer(self, link: bool) -> EmbedView {
        EmbedView {
            title: if link {
                "Product Link Successful"@
            } else {
                "Product Unlink Successful"@
            },
            description: (if link {
                "The following product→role links have been created:"@
            } else {
                "The following product→role links have been removed:"@
            }) + link_lines(self.products@, self.selected_products->0@, self.selected_roles->0@),
            colour: Some(Colour::DarkGreen),
        }
    }

    /// The warnings about the links that are about to be made.
    pub open spec fn link_warnings(self) -> Seq<char> {
        warnings(
            self.assignable_roles@,
            linked_roles(self.selected_products->0@.len(), self.selected_roles->0@),
        )
    }

    /// Deal with what happens to the form. An empty selection is none, and a form that was submitted with both
    /// products and roles starts afresh.
    pub fn handle(&mut self, event: LinkFormEvent) -> (r: LinkFormResponse)
        ensures
            final(self).products == old(self).products,
            event matches LinkFormEvent::SelectProducts(product_ids) ==> {
                &&& r is Wait
                &&& final(self).selected_products == (if product_ids@.len() == 0 {
                    None
                } else {
                    Some(product_ids)
                })
                &&& final(self).selected_roles == old(self).selected_roles
                &&& final(self).assignable_roles == old(self).assignable_roles
            },
            event matches LinkFormEvent::SelectRoles(role_ids) ==> {
                &&& r is Wait
                &&& final(self).selected_roles == (if role_ids@.len() == 0 {
                    None
                } else {
                    Some(role_ids)
                })
                &&& final(self).selected_products == old(self).selected_products
                &&& final(self).assignable_roles == old(self).assignable_roles
            },
            event matches LinkFormEvent::Submit { link } ==> {
                let complete = old(self).selected_products is Some && old(self).selected_roles is Some;
                &&& r is Apply <==> complete
                &&& r is Incomplete <==> !complete
                &&& r matches LinkFormResponse::Incomplete(answer) ==> answer@ == LinkForm::incomplete_answer()
                    && *final(self) == *old(self)
                &&& r matches LinkFormResponse::Apply { link: l, product_ids, role_ids, answer, warning } ==> {
                    &&& l == link
                    &&& product_ids == old(self).selected_products->0
                    &&& role_ids == old(self).selected_roles->0
                    &&& answer@ == old(self).applied_answer(link)
                    &&& warning is Some <==> link && old(self).link_warnings().len() > 0
                    &&& warning matches Some(w) ==> w@ == (EmbedView {
                        title: "Warning"@,
                        description: "I don't currently have access to grant the following roles. Please check bot permissions."@
                            + old(self).link_warnings(),
                        colour: Some(Colour::Orange),
                    })
                    &&& final(self).selected_products is None
                    &&& final(self).selected_roles is None
                    &&& !link ==> final(self).assignable_roles == old(self).assignable_roles
                    &&& link ==> final(self).assignable_roles@ == old(self).assignable_roles@.filter(
                        |role_id: u64| !old(self).selected_roles->0@.contains(role_id)
                            || old(self).selected_products->0@.len() == 0,
                    )
                }
            },
    {
        match event {
            LinkFormEvent::SelectProducts(product_ids) => {
                self.selected_products =
                if product_ids.len() == 0 {
                    None
                } else {
                    Some(product_ids)
                };
                LinkFormResponse::Wait
            }
            LinkFormEvent::SelectRoles(role_ids) => {
                self.selected_roles =
                if role_ids.len() == 0 {
                    None
                } else {
                    Some(role_ids)
                };
                LinkFormResponse::Wait
            }
            LinkFormEvent::Submit { link } => {
                if self.selected_products.is_none() || self.selected_roles.is_none() {
                    return LinkFormResponse::Incomplete(
                        Embed::new(
                            "Product Link Failed",
                            "Please try again, and select both a product and a role to link.".to_owned(),
                            Some(Colour::Red),
                        ),
                    );
                }
                let product_ids = self.selected_products.take().unwrap();
                let role_ids = self.selected_roles.take().unwrap();
                let lines = list_links(self.products.as_slice(), product_ids.as_slice(), role_ids.as_slice());
                let answer = if link {
                    Embed::new(
                        "Product Link Successful",
                        "The following product→role links have been created:".to_owned().concat(lines.as_str()),
                        Some(Colour::DarkGreen),
                    )
                } else {
                    Embed::new(
                        "Product Unlink Successful",
                        "The following product→role links have been removed:".to_owned().concat(lines.as_str()),
                        Some(Colour::DarkGreen),
                    )
                };
                // if we're in link mode, then generate warnings
                let warning = if link {
                    let warning_lines = list_warnings(
                        self.assignable_roles.as_slice(),
                        product_ids.len(),
                        role_ids.as_slice(),
                    );
                    let mut remaining: Vec<u64> = Vec::new();
                    std::mem::swap(&mut remaining, &mut self.assignable_roles);
                    self.assignable_roles = without_roles(remaining, role_ids.as_slice(), product_ids.len() == 0);
                    if warning_lines.as_str().is_empty() {
                        None
                    } else {
                        Some(
                            Embed::new(
                                "Warning",
                                "I don't currently have access to grant the following roles. Please check bot permissions.".to_owned().concat(
                                    warning_lines.as_str(),
                                ),
                                Some(Colour::Orange),
                            ),
                        )
                    }
                } else {
                    None
                };
                LinkFormResponse::Apply { link, product_ids, role_ids, answer, warning }
            }
        }
    }
}

fn without_roles(assignable_roles: Vec<u64>, role_ids: &[u64], keep_all: bool) -> (r: Vec<u64>)
    ensures
        r@ == assignable_roles@.filter(|role_id: u64| !role_ids@.contains(role_id) || keep_all),
{
    let ghost keep = |role_id: u64| !role_ids@.contains(role_id) || keep_all;
    let mut kept: Vec<u64> = Vec::new();
    proof {
        reveal(Seq::filter);
        assert(assignable_roles@.take(0) =~= Seq::<u64>::empty());
    }
    for i in 0..assignable_roles.len()
        invariant
            keep == (|role_id: u64| !role_ids@.contains(role_id) || keep_all),
            kept@ == assignable_roles@.take(i as int).filter(keep),
    {
        proof {
            reveal(Seq::filter);
            assert(assignable_roles@.take(i + 1).drop_last() =~= assignable_roles@.take(i as int));
        }
        if keep_all || !contains_id(role_ids, assignable_roles[i]) {
            kept.push(assignable_roles[i]);
        }
    }
    proof {
        assert(assignable_roles@.take(assignable_roles@.len() as int) =~= assignable_roles@);
    }
    kept
}

fn list_warnings(assignable_roles: &[u64], product_count: usize, role_ids: &[u64]) -> (r: String)
    ensures
        r@ == warnings(assignable_roles@, linked_roles(product_count as nat, role_ids@)),
{
    let mut lines = String::new();
    let mut linked: Vec<u64> = Vec::new();
    let mut product: usize = 0;
    while product < product_count
        invariant
            product <= product_count,
            linked@ == linked_roles(product as nat, role_ids@),
            lines@ == warnings(assignable_roles@, linked@),
        decreases product_count - product,
    {
        let ghost before = linked@;
        for i in 0..role_ids.len()
            invariant
                linked@ == before + role_ids@.take(i as int),
                lines@ == warnings(assignable_roles@, linked@),
        {
            let role_id: u64 = role_ids[i];
            let ghost shorter = linked@;
            if !(contains_id(assignable_roles, role_id) && !contains_id(linked.as_slice(), role_id)) {
                lines = lines.concat("\n- ").concat(mention_role(role_id).as_str());
            }
            linked.push(role_id);
            proof {
                assert(linked@.drop_last() =~= shorter);
                assert(before + role_ids@.take(i + 1) =~= (before + role_ids@.take(i as int)).push(role_id));
            }
        }
        proof {
            assert(role_ids@.take(role_ids@.len() as int) =~= role_ids@);
        }
        product = product + 1;
    }
    lines
}

} // verus!
