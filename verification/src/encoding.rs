//! The byte format of bytecode instances: little-endian 64-bit words,
//! 32-byte canonical field-element chunks and 32-byte seeds, with verified
//! readers and writers.

use vstd::prelude::*;
use crate::field::FieldElement;
use crate::resource::RandomSeed;

verus! {

/// The 64-bit word little-endian encoded at `off`.
pub open spec fn spec_word_at(bytes: Seq<u8>, off: int) -> u64 {
    (bytes[off] as u64)
        | (bytes[off + 1] as u64) << 8
        | (bytes[off + 2] as u64) << 16
        | (bytes[off + 3] as u64) << 24
        | (bytes[off + 4] as u64) << 32
        | (bytes[off + 5] as u64) << 40
        | (bytes[off + 6] as u64) << 48
        | (bytes[off + 7] as u64) << 56
}

/// The field-element limbs encoded in the 32 bytes at `off`.
pub open spec fn spec_element_at(bytes: Seq<u8>, off: int) -> FieldElement {
    FieldElement {
        l0: spec_word_at(bytes, off),
        l1: spec_word_at(bytes, off + 8),
        l2: spec_word_at(bytes, off + 16),
        l3: spec_word_at(bytes, off + 24),
    }
}

/// The seed encoded in the 32 bytes at `off`.
pub open spec fn spec_seed_at(bytes: Seq<u8>, off: int) -> RandomSeed {
    RandomSeed {
        w0: spec_word_at(bytes, off),
        w1: spec_word_at(bytes, off + 8),
        w2: spec_word_at(bytes, off + 16),
        w3: spec_word_at(bytes, off + 24),
    }
}

/// Reads the little-endian word at `off`.
pub fn word_at(bytes: &Vec<u8>, off: usize) -> (r: u64)
    requires
        off + 8 <= bytes@.len(),
    ensures
        r == spec_word_at(bytes@, off as int),
{
    let n = bytes.len();
    (bytes[off] as u64)
        | (bytes[off + 1] as u64) << 8u64
        | (bytes[off + 2] as u64) << 16u64
        | (bytes[off + 3] as u64) << 24u64
        | (bytes[off + 4] as u64) << 32u64
        | (bytes[off + 5] as u64) << 40u64
        | (bytes[off + 6] as u64) << 48u64
        | (bytes[off + 7] as u64) << 56u64
}

/// Reads the 32-byte chunk at `off` as a field element, accepting only the
/// canonical encoding.
pub fn element_at(bytes: &Vec<u8>, off: usize) -> (r: Option<FieldElement>)
    requires
        off + 32 <= bytes@.len(),
    ensures
        r is Some <==> spec_element_at(bytes@, off as int).wf(),
        r is Some ==> r->0 == spec_element_at(bytes@, off as int),
{
    let n = bytes.len();
    let l0 = word_at(bytes, off);
    let l1 = word_at(bytes, off + 8);
    let l2 = word_at(bytes, off + 16);
    let l3 = word_at(bytes, off + 24);
    FieldElement::from_limbs(l0, l1, l2, l3)
}

/// Reads the 32-byte chunk at `off` as a seed.
pub fn seed_at(bytes: &Vec<u8>, off: usize) -> (r: RandomSeed)
    requires
        off + 32 <= bytes@.len(),
    ensures
        r == spec_seed_at(bytes@, off as int),
{
    let n = bytes.len();
    RandomSeed {
        w0: word_at(bytes, off),
        w1: word_at(bytes, off + 8),
        w2: word_at(bytes, off + 16),
        w3: word_at(bytes, off + 24),
    }
}

/// Appends a word in little-endian order.
pub fn push_word(out: &mut Vec<u8>, w: u64)
    ensures
        final(out)@.len() == old(out)@.len() + 8,
        forall|i: int| 0 <= i < old(out)@.len() ==> final(out)@[i] == old(out)@[i],
        spec_word_at(final(out)@, old(out)@.len() as int) == w,
{
    let b0: u8 = #[verifier::truncate] (w as u8);
    let b1: u8 = #[verifier::truncate] ((w >> 8u64) as u8);
    let b2: u8 = #[verifier::truncate] ((w >> 16u64) as u8);
    let b3: u8 = #[verifier::truncate] ((w >> 24u64) as u8);
    let b4: u8 = #[verifier::truncate] ((w >> 32u64) as u8);
    let b5: u8 = #[verifier::truncate] ((w >> 40u64) as u8);
    let b6: u8 = #[verifier::truncate] ((w >> 48u64) as u8);
    let b7: u8 = #[verifier::truncate] ((w >> 56u64) as u8);
    out.push(b0);
    out.push(b1);
    out.push(b2);
    out.push(b3);
    out.push(b4);
    out.push(b5);
    out.push(b6);
    out.push(b7);
    proof {
        assert(((w as u8) as u64)
            | (((w >> 8u64) as u8) as u64) << 8
            | (((w >> 16u64) as u8) as u64) << 16
            | (((w >> 24u64) as u8) as u64) << 24
            | (((w >> 32u64) as u8) as u64) << 32
            | (((w >> 40u64) as u8) as u64) << 40
            | (((w >> 48u64) as u8) as u64) << 48
            | (((w >> 56u64) as u8) as u64) << 56 == w) by (bit_vector);
    }
}

/// Appends a field element as 32 little-endian bytes.
pub fn push_element(out: &mut Vec<u8>, e: &FieldElement)
    ensures
        final(out)@.len() == old(out)@.len() + 32,
        forall|i: int| 0 <= i < old(out)@.len() ==> final(out)@[i] == old(out)@[i],
        spec_element_at(final(out)@, old(out)@.len() as int) == *e,
{
    push_word(out, e.l0);
    push_word(out, e.l1);
    push_word(out, e.l2);
    push_word(out, e.l3);
}

/// Appends a seed as 32 little-endian bytes.
pub fn push_seed(out: &mut Vec<u8>, s: &RandomSeed)
    ensures
        final(out)@.len() == old(out)@.len() + 32,
        forall|i: int| 0 <= i < old(out)@.len() ==> final(out)@[i] == old(out)@[i],
        spec_seed_at(final(out)@, old(out)@.len() as int) == *s,
{
    push_word(out, s.w0);
    push_word(out, s.w1);
    push_word(out, s.w2);
    push_word(out, s.w3);
}

} // verus!
