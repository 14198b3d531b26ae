//! The fixed public-input contract every resource logic honors: reserved
//! slots for the owned-resource id, the two nullifiers and the two
//! commitments, followed by application outputs and deterministic padding
//! filling the fixed capacity.

use vstd::prelude::*;
use crate::field::{FieldElement, spec_from_words_reduced};
use crate::resource::RandomSeed;

verus! {

/// Fixed total width of a resource logic's public-input vector.
pub const RESOURCE_LOGIC_NUM_PUBLIC_INPUTS: usize = 20;

/// Slot of the owned-resource id.
pub const OWNED_RESOURCE_ID_IDX: usize = 0;
/// Slot of the first nullifier.
pub const NULLIFIER_ONE_IDX: usize = 1;
/// Slot of the second nullifier.
pub const NULLIFIER_TWO_IDX: usize = 2;
/// Slot of the first output resource commitment.
pub const OUTPUT_CM_ONE_IDX: usize = 3;
/// Slot of the second output resource commitment.
pub const OUTPUT_CM_TWO_IDX: usize = 4;
/// Number of reserved slots preceding application outputs.
pub const NUM_MANDATORY_PUBLIC_INPUTS: usize = 5;

/// The padding element derived from a seed for a given slot.
pub open spec fn spec_padding_element(seed: RandomSeed, i: int) -> FieldElement {
    spec_from_words_reduced(seed.w0 ^ (i as u64), seed.w1, seed.w2, seed.w3)
}

/// The padding that fills the slots from `used_len` up to the capacity.
pub open spec fn spec_padding(seed: RandomSeed, used_len: int) -> Seq<FieldElement> {
    Seq::new(
        (RESOURCE_LOGIC_NUM_PUBLIC_INPUTS - used_len) as nat,
        |j: int| spec_padding_element(seed, used_len + j),
    )
}

/// A complete public-input vector: the five reserved slots, then padding.
pub open spec fn spec_public_inputs(
    owned_resource_id: FieldElement,
    nf1: FieldElement,
    nf2: FieldElement,
    cm1: FieldElement,
    cm2: FieldElement,
    seed: RandomSeed,
) -> Seq<FieldElement> {
    Seq::new(
        RESOURCE_LOGIC_NUM_PUBLIC_INPUTS as nat,
        |i: int| {
            if i == OWNED_RESOURCE_ID_IDX {
                owned_resource_id
            } else if i == NULLIFIER_ONE_IDX {
                nf1
            } else if i == NULLIFIER_TWO_IDX {
                nf2
            } else if i == OUTPUT_CM_ONE_IDX {
                cm1
            } else if i == OUTPUT_CM_TWO_IDX {
                cm2
            } else {
                spec_padding_element(seed, i)
            }
        },
    )
}

/// The fixed-width ordered sequence of field elements a resource logic
/// exposes for verification.
#[derive(Clone, Debug)]
pub struct ResourceLogicPublicInputs {
    inner: Vec<FieldElement>,
}

impl View for ResourceLogicPublicInputs {
    type V = Seq<FieldElement>;

    closed spec fn view(&self) -> Seq<FieldElement> {
        self.inner@
    }
}

impl ResourceLogicPublicInputs {
    /// Well-formed: exactly the fixed capacity, every element canonical.
    pub open spec fn wf(self) -> bool {
        &&& self@.len() == RESOURCE_LOGIC_NUM_PUBLIC_INPUTS
        &&& forall|i: int| 0 <= i < self@.len() ==> #[trigger] self@[i].wf()
    }

    /// Wraps a vector that already fills the fixed capacity.
    pub fn from_vec(inner: Vec<FieldElement>) -> (r: ResourceLogicPublicInputs)
        requires
            inner@.len() == RESOURCE_LOGIC_NUM_PUBLIC_INPUTS,
            forall|i: int| 0 <= i < inner@.len() ==> #[trigger] inner@[i].wf(),
        ensures
            r@ == inner@,
            r.wf(),
    {
        ResourceLogicPublicInputs { inner }
    }

    /// Reads one slot.
    pub fn get_from_index(&self, idx: usize) -> (r: FieldElement)
        requires
            idx < RESOURCE_LOGIC_NUM_PUBLIC_INPUTS,
            self.wf(),
        ensures
            r == self@[idx as int],
    {
        self.inner[idx]
    }

    /// Copies the slots out as a vector.
    pub fn to_vec(&self) -> (r: Vec<FieldElement>)
        requires
            self.wf(),
        ensures
            r@ == self@,
    {
        let mut out: Vec<FieldElement> = Vec::new();
        let mut i: usize = 0;
        while i < self.inner.len()
            invariant
                i <= self.inner@.len(),
                out@ == self.inner@.take(i as int),
            decreases self.inner@.len() - i,
        {
            out.push(self.inner[i]);
            proof {
                assert(out@ == self.inner@.take(i as int + 1));
            }
            i = i + 1;
        }
        proof {
            assert(self.inner@.take(self.inner@.len() as int) == self.inner@);
        }
        out
    }

    /// Fills every slot from `used_len` up to the fixed capacity with
    /// values derived deterministically from the seed; the used prefix and
    /// the padding together always occupy exactly the fixed capacity.
    pub fn get_public_input_padding(used_len: usize, seed: &RandomSeed) -> (r: Vec<FieldElement>)
        requires
            used_len <= RESOURCE_LOGIC_NUM_PUBLIC_INPUTS,
        ensures
            r@ == spec_padding(*seed, used_len as int),
            used_len + r@.len() == RESOURCE_LOGIC_NUM_PUBLIC_INPUTS,
            forall|j: int| 0 <= j < r@.len() ==> #[trigger] r@[j].wf(),
    {
        let mut out: Vec<FieldElement> = Vec::new();
        let mut i: usize = used_len;
        while i < RESOURCE_LOGIC_NUM_PUBLIC_INPUTS
            invariant
                used_len <= i <= RESOURCE_LOGIC_NUM_PUBLIC_INPUTS,
                out@.len() == i - used_len,
                forall|j: int| 0 <= j < out@.len()
                    ==> #[trigger] out@[j] == spec_padding_element(*seed, used_len + j),
                forall|j: int| 0 <= j < out@.len() ==> #[trigger] out@[j].wf(),
            decreases RESOURCE_LOGIC_NUM_PUBLIC_INPUTS - i,
        {
            let element = FieldElement::from_words_reduced(
                seed.w0 ^ (i as u64),
                seed.w1,
                seed.w2,
                seed.w3,
            );
            out.push(element);
            i = i + 1;
        }
        proof {
            assert(out@ =~= spec_padding(*seed, used_len as int));
        }
        out
    }
}

/// Builds the full public-input vector of a logic whose application outputs
/// are empty: the five reserved slots, then padding.
pub fn build_public_inputs(
    owned_resource_id: FieldElement,
    nf1: FieldElement,
    nf2: FieldElement,
    cm1: FieldElement,
    cm2: FieldElement,
    seed: &RandomSeed,
) -> (r: ResourceLogicPublicInputs)
    requires
        owned_resource_id.wf(),
        nf1.wf(),
        nf2.wf(),
        cm1.wf(),
        cm2.wf(),
    ensures
        r.wf(),
        r@ == spec_public_inputs(owned_resource_id, nf1, nf2, cm1, cm2, *seed),
{
    let mut inner: Vec<FieldElement> = Vec::new();
    inner.push(owned_resource_id);
    inner.push(nf1);
    inner.push(nf2);
    inner.push(cm1);
    inner.push(cm2);
    let mut padding = ResourceLogicPublicInputs::get_public_input_padding(
        NUM_MANDATORY_PUBLIC_INPUTS,
        seed,
    );
    inner.append(&mut padding);
    proof {
        assert(inner@ =~= spec_public_inputs(owned_resource_id, nf1, nf2, cm1, cm2, *seed));
    }
    ResourceLogicPublicInputs::from_vec(inner)
}

/// Padding round trip: the used prefix and the padding fill the fixed
/// capacity exactly; equal seeds give identical padding; seeds whose first
/// words differ give different padding.
pub proof fn lemma_padding_round_trip(seed1: RandomSeed, seed2: RandomSeed, used_len: int)
    requires
        0 <= used_len <= RESOURCE_LOGIC_NUM_PUBLIC_INPUTS,
    ensures
        used_len + spec_padding(seed1, used_len).len() == RESOURCE_LOGIC_NUM_PUBLIC_INPUTS,
        seed1 == seed2 ==> spec_padding(seed1, used_len) == spec_padding(seed2, used_len),
        seed1.w0 != seed2.w0 && used_len < RESOURCE_LOGIC_NUM_PUBLIC_INPUTS
            ==> spec_padding(seed1, used_len) != spec_padding(seed2, used_len),
{
    if seed1.w0 != seed2.w0 && used_len < RESOURCE_LOGIC_NUM_PUBLIC_INPUTS {
        let u = used_len as u64;
        let a = seed1.w0;
        let b = seed2.w0;
        assert(a ^ u != b ^ u) by (bit_vector)
            requires a != b;
        assert(spec_padding(seed1, used_len)[0] != spec_padding(seed2, used_len)[0]);
    }
}

} // verus!
