//! The partial-fulfillment intent logic: an order to sell one token for
//! another that may be filled partially, in which case a leftover resource
//! must return the unsold remainder and the fill must keep the order's
//! price ratio, checked without division by cross-multiplication.

use vstd::prelude::*;
use crate::field::{lemma_as_int_injective, FieldElement};
use crate::gadgets::{
    conditional_equal, f_mul, f_sub, lemma_conditional_equal_one, lemma_conditional_equal_zero,
    ratio_cross_check,
};
use crate::hash::{poseidon2, poseidon2_of};

verus! {

/// The variables of one resource that an intent logic constrains: its
/// application logic, label, quantity, nullifier public key and dynamic
/// value.
#[derive(Clone, Copy, Debug, PartialEq, Eq, Structural)]
pub struct ResourceVariables {
    pub logic: FieldElement,
    pub label: FieldElement,
    pub quantity: u64,
    pub npk: FieldElement,
    pub value: FieldElement,
}

impl ResourceVariables {
    /// Well-formed: every element is canonical.
    pub open spec fn wf(self) -> bool {
        self.logic.wf() && self.label.wf() && self.npk.wf() && self.value.wf()
    }
}

/// The label of a partial-fulfillment intent resource: what is sold, what
/// is bought, at what quantities, and who receives the proceeds.
#[derive(Clone, Copy, Debug, PartialEq, Eq, Structural)]
pub struct PartialFulfillmentIntentLabel {
    pub token_resource_logic_vk: FieldElement,
    pub sold_token: FieldElement,
    pub sold_token_quantity: u64,
    pub bought_token: FieldElement,
    pub bought_token_quantity: u64,
    pub receiver_npk: FieldElement,
    pub receiver_value: FieldElement,
}

/// The Poseidon encoding of a label, folding its seven values in order.
pub open spec fn spec_label_encoding(l: PartialFulfillmentIntentLabel) -> int {
    poseidon2_of(
        poseidon2_of(
            poseidon2_of(
                poseidon2_of(
                    poseidon2_of(
                        poseidon2_of(l.sold_token.as_int(), l.sold_token_quantity as int),
                        l.bought_token.as_int(),
                    ),
                    l.bought_token_quantity as int,
                ),
                l.token_resource_logic_vk.as_int(),
            ),
            l.receiver_npk.as_int(),
        ),
        l.receiver_value.as_int(),
    )
}

/// Checks enforced when the intent resource is being consumed: the first
/// output resource must be the bought token, owned by the intent's
/// receiver.
pub open spec fn spec_is_input_resource_checks(
    l: PartialFulfillmentIntentLabel,
    is_input_resource: bool,
    bought: ResourceVariables,
) -> bool {
    is_input_resource ==> {
        &&& l.token_resource_logic_vk == bought.logic
        &&& l.bought_token == bought.label
        &&& l.receiver_npk == bought.npk
        &&& l.receiver_value == bought.value
    }
}

/// Checks enforced when the intent resource is being created: the first
/// input resource must be the sold token at the full offered quantity.
pub open spec fn spec_is_output_resource_checks(
    l: PartialFulfillmentIntentLabel,
    is_output_resource: bool,
    sold: ResourceVariables,
) -> bool {
    is_output_resource ==> {
        &&& l.token_resource_logic_vk == sold.logic
        &&& l.sold_token == sold.label
        &&& l.sold_token_quantity == sold.quantity
    }
}

/// Checks enforced when the fill is partial (the intent is consumed and the
/// bought quantity falls short): a leftover resource of the sold token must
/// go back to the receiver, and the fill must keep the order's ratio, as
/// the in-field cross-multiplied equation.
pub open spec fn spec_is_partial_fulfillment_checks(
    l: PartialFulfillmentIntentLabel,
    is_input_resource: bool,
    bought: ResourceVariables,
    returned: ResourceVariables,
) -> bool {
    (is_input_resource && l.bought_token_quantity != bought.quantity) ==> {
        &&& l.token_resource_logic_vk == returned.logic
        &&& l.sold_token == returned.label
        &&& l.receiver_npk == returned.npk
        &&& l.receiver_value == returned.value
        &&& f_mul(
            l.bought_token_quantity as int,
            f_sub(l.sold_token_quantity as int, returned.quantity as int),
        ) == f_mul(l.sold_token_quantity as int, bought.quantity as int)
    }
}

/// All constraints the intent logic imposes, for one owned-resource side.
pub open spec fn spec_label_constraints(
    l: PartialFulfillmentIntentLabel,
    is_input_resource: bool,
    sold: ResourceVariables,
    bought: ResourceVariables,
    returned: ResourceVariables,
) -> bool {
    &&& spec_is_input_resource_checks(l, is_input_resource, bought)
    &&& spec_is_output_resource_checks(l, !is_input_resource, sold)
    &&& spec_is_partial_fulfillment_checks(l, is_input_resource, bought, returned)
}

impl PartialFulfillmentIntentLabel {
    /// Well-formed: every element is canonical.
    pub open spec fn wf(self) -> bool {
        &&& self.token_resource_logic_vk.wf()
        &&& self.sold_token.wf()
        &&& self.bought_token.wf()
        &&& self.receiver_npk.wf()
        &&& self.receiver_value.wf()
    }

    /// Encodes the label into a single field element by folding its seven
    /// values through the Poseidon compression.
    pub fn encode(&self) -> (r: FieldElement)
        requires
            self.wf(),
        ensures
            r.wf(),
            r.as_int() == spec_label_encoding(*self),
    {
        let sold_quantity = FieldElement::from_u64(self.sold_token_quantity);
        let bought_quantity = FieldElement::from_u64(self.bought_token_quantity);
        let h1 = poseidon2(&self.sold_token, &sold_quantity);
        let h2 = poseidon2(&h1, &self.bought_token);
        let h3 = poseidon2(&h2, &bought_quantity);
        let h4 = poseidon2(&h3, &self.token_resource_logic_vk);
        let h5 = poseidon2(&h4, &self.receiver_npk);
        poseidon2(&h5, &self.receiver_value)
    }

    /// Decides the checks owed when the intent resource is consumed.
    pub fn is_input_resource_checks(&self, is_input_resource: bool, bought: &ResourceVariables) -> (r: bool)
        ensures
            r == spec_is_input_resource_checks(*self, is_input_resource, *bought),
    {
        !is_input_resource
            || (self.token_resource_logic_vk == bought.logic
                && self.bought_token == bought.label
                && self.receiver_npk == bought.npk
                && self.receiver_value == bought.value)
    }

    /// Decides the checks owed when the intent resource is created.
    pub fn is_output_resource_checks(&self, is_output_resource: bool, sold: &ResourceVariables) -> (r: bool)
        ensures
            r == spec_is_output_resource_checks(*self, is_output_resource, *sold),
    {
        !is_output_resource
            || (self.token_resource_logic_vk == sold.logic
                && self.sold_token == sold.label
                && self.sold_token_quantity == sold.quantity)
    }

    /// Decides the checks owed when the fill is partial: the leftover
    /// resource's identity and the cross-multiplied ratio equation.
    pub fn is_partial_fulfillment_checks(
        &self,
        is_input_resource: bool,
        bought: &ResourceVariables,
        returned: &ResourceVariables,
    ) -> (r: bool)
        ensures
            r == spec_is_partial_fulfillment_checks(*self, is_input_resource, *bought, *returned),
    {
        if is_input_resource && self.bought_token_quantity != bought.quantity {
            self.token_resource_logic_vk == returned.logic
                && self.sold_token == returned.label
                && self.receiver_npk == returned.npk
                && self.receiver_value == returned.value
                && ratio_cross_check(
                    self.sold_token_quantity,
                    self.bought_token_quantity,
                    bought.quantity,
                    returned.quantity,
                )
        } else {
            true
        }
    }

    /// Decides every constraint the intent logic imposes.
    pub fn check_transparently(
        &self,
        is_input_resource: bool,
        sold: &ResourceVariables,
        bought: &ResourceVariables,
        returned: &ResourceVariables,
    ) -> (r: bool)
        ensures
            r == spec_label_constraints(*self, is_input_resource, *sold, *bought, *returned),
    {
        self.is_input_resource_checks(is_input_resource, bought)
            && self.is_output_resource_checks(!is_input_resource, sold)
            && self.is_partial_fulfillment_checks(is_input_resource, bought, returned)
    }
}

/// The consumed-resource checks are exactly the circuit's four
/// conditional-equality constraints, gated by the consumed flag embedded as
/// zero or one.
pub proof fn lemma_is_input_checks_are_conditional_equalities(
    l: PartialFulfillmentIntentLabel,
    is_input_resource: bool,
    bought: ResourceVariables,
)
    requires
        l.wf(),
        bought.wf(),
    ensures
        is_input_resource ==> (spec_is_input_resource_checks(l, is_input_resource, bought) <==> {
            &&& conditional_equal(1, l.token_resource_logic_vk.as_int(), bought.logic.as_int())
            &&& conditional_equal(1, l.bought_token.as_int(), bought.label.as_int())
            &&& conditional_equal(1, l.receiver_npk.as_int(), bought.npk.as_int())
            &&& conditional_equal(1, l.receiver_value.as_int(), bought.value.as_int())
        }),
        !is_input_resource ==> spec_is_input_resource_checks(l, is_input_resource, bought)
            && conditional_equal(0, l.token_resource_logic_vk.as_int(), bought.logic.as_int()),
{
    if is_input_resource {
        lemma_conditional_equal_one(l.token_resource_logic_vk.as_int(), bought.logic.as_int());
        lemma_conditional_equal_one(l.bought_token.as_int(), bought.label.as_int());
        lemma_conditional_equal_one(l.receiver_npk.as_int(), bought.npk.as_int());
        lemma_conditional_equal_one(l.receiver_value.as_int(), bought.value.as_int());
        lemma_as_int_injective(l.token_resource_logic_vk, bought.logic);
        lemma_as_int_injective(l.bought_token, bought.label);
        lemma_as_int_injective(l.receiver_npk, bought.npk);
        lemma_as_int_injective(l.receiver_value, bought.value);
    } else {
        lemma_conditional_equal_zero(
            l.token_resource_logic_vk.as_int(),
            bought.logic.as_int(),
        );
    }
}

} // verus!
