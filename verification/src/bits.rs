//! Numbers as rows of binary digits: the digits of a number, the number that a row of
//! digits writes, and how the two go together.

use vstd::arithmetic::div_mod::{lemma_basic_div, lemma_div_denominator, lemma_mod_breakdown};
use vstd::arithmetic::mul::{lemma_mul_is_associative, lemma_mul_is_distributive_add};
use vstd::arithmetic::power2::{
    lemma2_to64, lemma_pow2_adds, lemma_pow2_pos, lemma_pow2_unfold, pow2,
};
use vstd::prelude::*;

verus! {

/// Bit `k` of the number `v`, counted from the low-order end.
pub open spec fn bit(v: nat, k: nat) -> bool {
    (v / pow2(k)) % 2 == 1
}

/// The `n` low-order binary digits of `v`, lowest first.
pub open spec fn value_bits(v: nat, n: nat) -> Seq<bool> {
    Seq::new(n, |k: int| bit(v, k as nat))
}

/// The number written by the binary digits `bits`, lowest first.
pub open spec fn value_of(bits: Seq<bool>) -> nat
    decreases bits.len(),
{
    if bits.len() == 0 {
        0
    } else {
        (if bits[0] { 1nat } else { 0nat }) + 2 * value_of(bits.drop_first())
    }
}

/// The first few powers of two.
pub proof fn lemma_pow2_small()
    ensures
        pow2(0) == 1,
        pow2(1) == 2,
        pow2(2) == 4,
        pow2(3) == 8,
        pow2(4) == 16,
        pow2(5) == 32,
        pow2(6) == 64,
        pow2(7) == 128,
        pow2(8) == 256,
{
    lemma2_to64();
}

/// Bit `a + k` of `v` is bit `k` of `v` shifted right by `a`.
pub proof fn lemma_bit_shift(v: nat, a: nat, k: nat)
    ensures
        bit(v, a + k) == bit(v / pow2(a), k),
{
    lemma_pow2_pos(a);
    lemma_pow2_pos(k);
    lemma_pow2_adds(a, k);
    lemma_div_denominator(v as int, pow2(a) as int, pow2(k) as int);
}

/// The digits of a number without the lowest one are the digits of half the number.
pub proof fn lemma_value_bits_drop_first(v: nat, n: nat)
    requires
        n > 0,
    ensures
        value_bits(v, n).drop_first() =~= value_bits(v / 2, (n - 1) as nat),
{
    lemma_pow2_small();
    assert forall|k: int| 0 <= k < n - 1 implies value_bits(v, n).drop_first()[k] == value_bits(
        v / 2,
        (n - 1) as nat,
    )[k] by {
        lemma_bit_shift(v, 1, k as nat);
    }
}

/// Reading `n` digits of a number and writing them back keeps the number modulo `2^n`.
pub proof fn lemma_value_of_value_bits(v: nat, n: nat)
    ensures
        value_of(value_bits(v, n)) == v % pow2(n),
    decreases n,
{
    lemma_pow2_small();
    if n > 0 {
        let rest = (n - 1) as nat;
        lemma_value_bits_drop_first(v, n);
        lemma_value_of_value_bits(v / 2, rest);
        lemma_pow2_unfold(n);
        lemma_pow2_pos(rest);
        lemma_mod_breakdown(v as int, 2, pow2(rest) as int);
        assert(value_bits(v, n)[0] == bit(v, 0));
        assert(v / pow2(0) == v);
    }
}

/// A number written with `n` digits is below `2^n`.
pub proof fn lemma_value_of_bound(bits: Seq<bool>)
    ensures
        value_of(bits) < pow2(bits.len()),
    decreases bits.len(),
{
    lemma_pow2_small();
    if bits.len() > 0 {
        lemma_value_of_bound(bits.drop_first());
        lemma_pow2_unfold(bits.len());
    }
}

/// Digit `k` of the number that `bits` writes is `bits[k]`; beyond the digits it is zero.
pub proof fn lemma_bit_of_value_of(bits: Seq<bool>, k: nat)
    ensures
        bit(value_of(bits), k) == (k < bits.len() && bits[k as int]),
    decreases k,
{
    lemma_pow2_small();
    if bits.len() == 0 {
        lemma_pow2_pos(k);
        lemma_basic_div(0, pow2(k) as int);
    } else {
        let rest = bits.drop_first();
        let v = value_of(bits);
        if k == 0 {
            assert(v / pow2(0) == v);
        } else {
            lemma_bit_shift(v, 1, (k - 1) as nat);
            assert(v / 2 == value_of(rest));
            lemma_bit_of_value_of(rest, (k - 1) as nat);
        }
    }
}

/// The digits of the number that `bits` writes are `bits` again.
pub proof fn lemma_value_bits_of_value_of(bits: Seq<bool>)
    ensures
        value_bits(value_of(bits), bits.len()) =~= bits,
{
    assert forall|k: int| 0 <= k < bits.len() implies value_bits(value_of(bits), bits.len())[k]
        == bits[k] by {
        lemma_bit_of_value_of(bits, k as nat);
    }
}

/// Digits written after one another: the later ones weigh `2^len` of the earlier ones more.
pub proof fn lemma_value_of_concat(low: Seq<bool>, high: Seq<bool>)
    ensures
        value_of(low + high) == value_of(low) + pow2(low.len()) * value_of(high),
    decreases low.len(),
{
    lemma_pow2_small();
    if low.len() == 0 {
        assert(low + high =~= high);
    } else {
        let rest = low.drop_first();
        assert((low + high).drop_first() =~= rest + high);
        lemma_value_of_concat(rest, high);
        lemma_pow2_unfold(low.len());
        lemma_mul_is_associative(2, pow2(rest.len()) as int, value_of(high) as int);
        lemma_mul_is_distributive_add(
            2,
            value_of(rest) as int,
            pow2(rest.len()) as int * value_of(high) as int,
        );
    }
}

/// A run of digits of `v`, from digit `from` on, is the low digits of `v / 2^from`.
pub proof fn lemma_value_bits_subrange(v: nat, n: nat, from: nat, to: nat)
    requires
        from <= to <= n,
    ensures
        value_bits(v, n).subrange(from as int, to as int) =~= value_bits(
            v / pow2(from),
            (to - from) as nat,
        ),
{
    assert forall|k: int| 0 <= k < to - from implies value_bits(v, n).subrange(
        from as int,
        to as int,
    )[k] == value_bits(v / pow2(from), (to - from) as nat)[k] by {
        lemma_bit_shift(v, from, k as nat);
    }
}

} // verus!
