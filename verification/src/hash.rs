//! The fixed-arity Poseidon compression function used to derive resource
//! commitments, nullifiers and encoded application state.

use vstd::prelude::*;
use crate::field::FieldElement;
use ff::PrimeField;
use halo2_gadgets::poseidon::primitives::{ConstantLength, P128Pow5T3};

verus! {

/// The Poseidon compression of two Pallas base-field values; the digest is a
/// function of the two inputs alone.
pub uninterp spec fn poseidon2_of(a: int, b: int) -> int;

/// Relies on `halo2_gadgets::poseidon::primitives::Hash::hash`, the
/// arity-two Poseidon instance `P128Pow5T3` over the Pallas base field: the
/// digest is deterministic in the two inputs, and `to_repr` returns its
/// canonical (fully reduced) little-endian encoding.
#[verifier::external_body]
pub fn poseidon2(a: &FieldElement, b: &FieldElement) -> (r: FieldElement)
    requires
        a.wf(),
        b.wf(),
    ensures
        r.wf(),
        r.as_int() == poseidon2_of(a.as_int(), b.as_int()),
{
    let x = pasta_curves::Fp::from_raw([a.l0, a.l1, a.l2, a.l3]);
    let y = pasta_curves::Fp::from_raw([b.l0, b.l1, b.l2, b.l3]);
    let h = halo2_gadgets::poseidon::primitives::Hash::<pasta_curves::Fp, P128Pow5T3, ConstantLength<2>, 3, 2>::init()
        .hash([x, y])
        .to_repr();
    FieldElement {
        l0: u64::from_le_bytes(h[0..8].try_into().unwrap()),
        l1: u64::from_le_bytes(h[8..16].try_into().unwrap()),
        l2: u64::from_le_bytes(h[16..24].try_into().unwrap()),
        l3: u64::from_le_bytes(h[24..32].try_into().unwrap()),
    }
}

} // verus!
