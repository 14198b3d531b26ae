//! Semantics of the arithmetic gadgets that application logics are built
//! from: field addition, subtraction and multiplication modulo the Pallas
//! base-field modulus, the conditional-equality constraint
//! `flag * (a - b) == 0`, the non-zero (inverse-witness) constraint, and the
//! division-free cross-multiplied ratio check.

use vstd::prelude::*;
use vstd::arithmetic::div_mod::{lemma_small_mod, lemma_mod_multiples_vanish, lemma_mul_mod_noop_left, lemma_mul_mod_noop_right};
use crate::field::modulus;

verus! {

/// Field subtraction.
pub open spec fn f_sub(a: int, b: int) -> int {
    (a - b) % modulus()
}

/// Field multiplication.
pub open spec fn f_mul(a: int, b: int) -> int {
    (a * b) % modulus()
}

/// Field product of three values.
pub open spec fn f_triple_mul(a: int, b: int, c: int) -> int {
    f_mul(f_mul(a, b), c)
}

/// The conditional-equality constraint `flag * (a - b) == 0`: when the flag
/// is one it forces `a == b`; when the flag is zero it holds vacuously.
pub open spec fn conditional_equal(flag: int, a: int, b: int) -> bool {
    f_mul(flag, f_sub(a, b)) == 0
}

/// The non-zero constraint: a prover can witness an inverse for `v` only
/// when `v` is not the zero element.
pub open spec fn f_nonzero(v: int) -> bool {
    v % modulus() != 0
}

/// Soundness of the non-zero trick over a product: witnessing an inverse
/// for a field product shows that both factors are non-zero, which is what
/// lets a single inverse witness prove a whole line's pairwise differences
/// non-zero at once.
pub proof fn lemma_nonzero_product(a: int, b: int)
    requires
        f_nonzero(f_mul(a, b)),
    ensures
        f_nonzero(a),
        f_nonzero(b),
{
    lemma_mul_mod_noop_left(a, b, modulus());
    lemma_mul_mod_noop_right(a, b, modulus());
    if a % modulus() == 0 {
        assert((a % modulus()) * b == 0) by (nonlinear_arith)
            requires a % modulus() == 0;
        assert(f_mul(a, b) == 0int % modulus());
        lemma_small_mod(0, modulus() as nat);
    }
    if b % modulus() == 0 {
        assert(a * (b % modulus()) == 0) by (nonlinear_arith)
            requires b % modulus() == 0;
        assert(f_mul(a, b) == 0int % modulus());
        lemma_small_mod(0, modulus() as nat);
    }
}

/// The same soundness for the three-way product gadget.
pub proof fn lemma_nonzero_triple_mul(a: int, b: int, c: int)
    requires
        f_nonzero(f_triple_mul(a, b, c)),
    ensures
        f_nonzero(a),
        f_nonzero(b),
        f_nonzero(c),
{
    lemma_nonzero_product(f_mul(a, b), c);
    lemma_nonzero_product(a, b);
}

/// A zero flag satisfies any conditional-equality constraint.
pub proof fn lemma_conditional_equal_zero(a: int, b: int)
    ensures
        conditional_equal(0, a, b),
{
    lemma_mod_multiples_vanish(0, 0, modulus());
}

/// With flag one and canonical operands, the conditional-equality
/// constraint holds exactly when the operands are equal.
pub proof fn lemma_conditional_equal_one(a: int, b: int)
    requires
        0 <= a < modulus(),
        0 <= b < modulus(),
    ensures
        conditional_equal(1, a, b) <==> a == b,
{
    lemma_f_sub_zero(a, b);
    if a == b {
        lemma_small_mod(0, modulus() as nat);
    } else {
        lemma_small_mod((f_sub(a, b) * 1) as nat, modulus() as nat);
        assert(f_sub(a, b) * 1 == f_sub(a, b));
        assert(1 * f_sub(a, b) == f_sub(a, b));
        assert(f_mul(1, f_sub(a, b)) == f_sub(a, b) % modulus());
        lemma_small_mod(f_sub(a, b) as nat, modulus() as nat);
    }
}

/// For canonical operands, the field difference is zero exactly when the
/// operands are equal, and is otherwise itself a canonical value.
pub proof fn lemma_f_sub_zero(a: int, b: int)
    requires
        0 <= a < modulus(),
        0 <= b < modulus(),
    ensures
        a == b ==> f_sub(a, b) == 0,
        a > b ==> f_sub(a, b) == a - b,
        a < b ==> f_sub(a, b) == a - b + modulus(),
        (f_sub(a, b) == 0) <==> (a == b),
{
    if a >= b {
        lemma_small_mod((a - b) as nat, modulus() as nat);
    } else {
        lemma_mod_multiples_vanish(1, a - b, modulus());
        lemma_small_mod((a - b + modulus()) as nat, modulus() as nat);
    }
}

/// The field product of two values embedded from 64-bit integers is their
/// exact integer product.
pub proof fn lemma_f_mul_small(a: u64, b: u64)
    ensures
        f_mul(a as int, b as int) == (a as int) * (b as int),
        0 <= (a as int) * (b as int) < 0x100000000000000000000000000000000int,
{
    let x = a as int;
    let y = b as int;
    assert(0 <= x * y < 0x100000000000000000000000000000000int) by (nonlinear_arith)
        requires 0 <= x < 0x10000000000000000 && 0 <= y < 0x10000000000000000;
    lemma_small_mod((x * y) as nat, modulus() as nat);
}

/// Division-free ratio check between an order that sells `sold_total` for
/// `bought_total` and a fill that pays `actual_bought` and returns
/// `returned` of the sold good: decides the in-field cross-multiplied
/// equation `bought_total * (sold_total - returned) == sold_total * actual_bought`.
pub fn ratio_cross_check(sold_total: u64, bought_total: u64, actual_bought: u64, returned: u64) -> (r: bool)
    ensures
        r == (f_mul(bought_total as int, f_sub(sold_total as int, returned as int))
            == f_mul(sold_total as int, actual_bought as int)),
{
    proof {
        lemma_f_mul_small(sold_total, actual_bought);
    }
    if returned <= sold_total {
        let actual_sold = sold_total - returned;
        proof {
            lemma_small_mod((sold_total - returned) as nat, modulus() as nat);
            lemma_f_mul_small(bought_total, actual_sold);
        }
        (bought_total as u128) * (actual_sold as u128)
            == (sold_total as u128) * (actual_bought as u128)
    } else {
        proof {
            lemma_ratio_overdrawn(sold_total as int, bought_total as int, actual_bought as int, returned as int);
        }
        bought_total == 0 && (sold_total == 0 || actual_bought == 0)
    }
}

/// When more of the sold good is returned than the order offered, the
/// cross-multiplied equation holds only in the degenerate all-zero cases.
proof fn lemma_ratio_overdrawn(s: int, b: int, actual_b: int, r: int)
    requires
        0 <= s < 0x10000000000000000,
        0 <= b < 0x10000000000000000,
        0 <= actual_b < 0x10000000000000000,
        0 <= r < 0x10000000000000000,
        r > s,
    ensures
        (f_mul(b, f_sub(s, r)) == f_mul(s, actual_b)) <==> (b == 0 && (s == 0 || actual_b == 0)),
{
    let p = modulus();
    let d = r - s;
    // the field difference s - r is p - d
    lemma_mod_multiples_vanish(1, s - r, p);
    lemma_small_mod((p - d) as nat, p as nat);
    assert(f_sub(s, r) == p - d);
    // multiply out: b * (p - d) == p * b - b * d
    assert(b * (p - d) == p * b - b * d) by (nonlinear_arith);
    lemma_mod_multiples_vanish(b, -(b * d), p);
    assert(f_mul(b, p - d) == (-(b * d)) % p);
    assert(0 <= b * d < 0x100000000000000000000000000000000int) by (nonlinear_arith)
        requires 0 <= b < 0x10000000000000000 && 0 <= d < 0x10000000000000000;
    assert(0 <= s * actual_b < 0x100000000000000000000000000000000int) by (nonlinear_arith)
        requires 0 <= s < 0x10000000000000000 && 0 <= actual_b < 0x10000000000000000;
    lemma_small_mod((s * actual_b) as nat, p as nat);
    if b == 0 {
        assert(b * d == 0) by (nonlinear_arith)
            requires b == 0;
        lemma_small_mod(0, p as nat);
        assert(f_mul(b, f_sub(s, r)) == 0);
        assert((s * actual_b == 0) <==> (s == 0 || actual_b == 0)) by (nonlinear_arith);
    } else {
        assert(b * d >= 1) by (nonlinear_arith)
            requires b >= 1 && d >= 1;
        lemma_mod_multiples_vanish(1, -(b * d), p);
        lemma_small_mod((p - b * d) as nat, p as nat);
        assert(f_mul(b, f_sub(s, r)) == p - b * d);
        assert(p - b * d > s * actual_b);
    }
}

} // verus!
