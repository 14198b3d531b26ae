//! Canonical representation of elements of the Pallas base field.
//!
//! An element is held as four little-endian 64-bit limbs whose combined
//! value is below the field modulus, so that two well-formed elements are
//! equal as field elements exactly when their limbs are equal.

use vstd::prelude::*;
use vstd::arithmetic::div_mod::lemma_fundamental_div_mod_converse;

verus! {

/// Low limb of the Pallas base-field modulus.
pub const MODULUS_L0: u64 = 0x992d30ed00000001;
/// Second limb of the Pallas base-field modulus.
pub const MODULUS_L1: u64 = 0x224698fc094cf91b;
/// Third limb of the Pallas base-field modulus.
pub const MODULUS_L2: u64 = 0x0000000000000000;
/// High limb of the Pallas base-field modulus.
pub const MODULUS_L3: u64 = 0x4000000000000000;

/// The Pallas base-field modulus.
pub open spec fn modulus() -> int {
    0x40000000000000000000000000000000224698fc094cf91b992d30ed00000001int
}

/// Mask clearing the top two bits of a high limb, leaving a value below the
/// modulus.
pub const HIGH_LIMB_MASK: u64 = 0x3fffffffffffffff;

/// The element obtained from four words by masking the high limb.
pub open spec fn spec_from_words_reduced(w0: u64, w1: u64, w2: u64, w3: u64) -> FieldElement {
    FieldElement { l0: w0, l1: w1, l2: w2, l3: w3 & HIGH_LIMB_MASK }
}

/// An element of the Pallas base field in canonical (fully reduced)
/// little-endian limb form.
#[derive(Clone, Copy, Debug, PartialEq, Eq, Structural)]
pub struct FieldElement {
    pub l0: u64,
    pub l1: u64,
    pub l2: u64,
    pub l3: u64,
}

impl FieldElement {
    /// The integer this element canonically represents.
    pub open spec fn as_int(self) -> int {
        self.l0 as int
            + (self.l1 as int) * 0x10000000000000000
            + (self.l2 as int) * 0x100000000000000000000000000000000int
            + (self.l3 as int) * 0x1000000000000000000000000000000000000000000000000int
    }

    /// Well-formed: the limbs are the canonical encoding, i.e. below the modulus.
    pub open spec fn wf(self) -> bool {
        self.as_int() < modulus()
    }

    /// The zero element.
    pub fn zero() -> (r: FieldElement)
        ensures
            r.wf(),
            r.as_int() == 0,
    {
        FieldElement { l0: 0, l1: 0, l2: 0, l3: 0 }
    }

    /// Embeds a 64-bit integer into the field.
    pub fn from_u64(x: u64) -> (r: FieldElement)
        ensures
            r.wf(),
            r.as_int() == x,
    {
        FieldElement { l0: x, l1: 0, l2: 0, l3: 0 }
    }

    /// Builds an element from limbs, accepting only the canonical encoding.
    pub fn from_limbs(l0: u64, l1: u64, l2: u64, l3: u64) -> (r: Option<FieldElement>)
        ensures
            (FieldElement { l0, l1, l2, l3 }).wf() <==> r is Some,
            r is Some ==> r->0 == (FieldElement { l0, l1, l2, l3 }),
    {
        let e = FieldElement { l0, l1, l2, l3 };
        if e.is_canonical() {
            Some(e)
        } else {
            None
        }
    }

    /// Builds an element from four arbitrary words, clearing the top two
    /// bits of the high limb so that the value is below the modulus.
    pub fn from_words_reduced(w0: u64, w1: u64, w2: u64, w3: u64) -> (r: FieldElement)
        ensures
            r == spec_from_words_reduced(w0, w1, w2, w3),
            r.wf(),
    {
        let l3 = w3 & HIGH_LIMB_MASK;
        proof {
            assert(w3 & 0x3fffffffffffffffu64 <= 0x3fffffffffffffffu64) by (bit_vector);
        }
        FieldElement { l0: w0, l1: w1, l2: w2, l3 }
    }

    /// Decides whether the limbs encode a value below the modulus.
    pub fn is_canonical(&self) -> (r: bool)
        ensures
            r == self.wf(),
    {
        let r = self.l3 < MODULUS_L3
            || (self.l3 == MODULUS_L3
                && (self.l2 < MODULUS_L2
                    || (self.l2 == MODULUS_L2
                        && (self.l1 < MODULUS_L1
                            || (self.l1 == MODULUS_L1 && self.l0 < MODULUS_L0)))));
        proof {
            lemma_limb_order(*self);
        }
        r
    }
}

/// Two elements represent the same integer exactly when their limbs are
/// equal: the base-2^64 decomposition is unique.
pub proof fn lemma_as_int_injective(a: FieldElement, b: FieldElement)
    ensures
        (a.as_int() == b.as_int()) <==> (a == b),
{
    if a.as_int() == b.as_int() {
        let base = 0x10000000000000000int;
        let qa2 = a.l2 + a.l3 * base;
        let qa1 = a.l1 + qa2 * base;
        let qb2 = b.l2 + b.l3 * base;
        let qb1 = b.l1 + qb2 * base;
        lemma_fundamental_div_mod_converse(a.as_int(), base, qa1, a.l0 as int);
        lemma_fundamental_div_mod_converse(b.as_int(), base, qb1, b.l0 as int);
        lemma_fundamental_div_mod_converse(qa1, base, qa2, a.l1 as int);
        lemma_fundamental_div_mod_converse(qb1, base, qb2, b.l1 as int);
        lemma_fundamental_div_mod_converse(qa2, base, a.l3 as int, a.l2 as int);
        lemma_fundamental_div_mod_converse(qb2, base, b.l3 as int, b.l2 as int);
    }
}

/// Lexicographic comparison of limbs agrees with comparison of values.
proof fn lemma_limb_order(e: FieldElement)
    ensures
        (e.as_int() < modulus()) <==> (e.l3 < MODULUS_L3
            || (e.l3 == MODULUS_L3
                && (e.l2 < MODULUS_L2
                    || (e.l2 == MODULUS_L2
                        && (e.l1 < MODULUS_L1
                            || (e.l1 == MODULUS_L1 && e.l0 < MODULUS_L0)))))),
{
}

} // verus!
