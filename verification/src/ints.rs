//! What the primitives ask of the integers: a run of digits out of a byte, and the
//! lowest byte of a wider integer.

use crate::bits::{
    lemma_bit_of_value_of, lemma_pow2_small, lemma_value_bits_subrange,
    lemma_value_of_value_bits, value_bits, value_of,
};
use vstd::arithmetic::div_mod::{lemma_multiply_divide_lt, lemma_small_mod};
use vstd::arithmetic::power2::{lemma_pow2_adds, lemma_pow2_pos, pow2};
use vstd::bits::{lemma_u8_low_bits_mask_is_mod, lemma_u8_shl_is_mul, lemma_u8_shr_is_div};
use vstd::prelude::*;

verus! {

/// Reading a run of binary digits out of an integer.
pub trait BitsExt: Copy + Sized {
    /// The binary digits of the integer, lowest first, as many as its type has.
    spec fn digits(self) -> Seq<bool>;

    /// The digits from position `start` on, at most `len` of them, as a number of their own:
    /// the digit at `start` becomes its lowest digit, and the digits above the run are zero.
    fn value_from_bits(self, start: usize, len: usize) -> (r: Self)
        requires
            start <= self.digits().len(),
        ensures
            r.digits().len() == self.digits().len(),
            forall|k: int|
                0 <= k < self.digits().len() ==> r.digits()[k] == (k < len && start + k
                    < self.digits().len() && self.digits()[start + k]),
    ;
}

/// The end of the run of `len` digits that starts at `start`, cut off at eight digits.
pub open spec fn run_end(start: nat, len: nat) -> nat {
    if start + len <= 8 {
        start + len
    } else {
        8
    }
}

impl BitsExt for u8 {
    open spec fn digits(self) -> Seq<bool> {
        value_bits(self as nat, 8)
    }

    fn value_from_bits(self, start: usize, len: usize) -> (r: u8)
        ensures
            r as nat == value_of(
                self.digits().subrange(start as int, run_end(start as nat, len as nat) as int),
            ),
            r as nat == (self as nat / pow2(start as nat)) % pow2(
                (run_end(start as nat, len as nat) - start) as nat,
            ),
    {
        let ghost end = run_end(start as nat, len as nat);
        let ghost n = (end - start) as nat;
        proof {
            lemma_pow2_small();
            lemma_pow2_pos(start as nat);
            lemma_value_bits_subrange(self as nat, 8, start as nat, end);
            lemma_value_of_value_bits(self as nat / pow2(start as nat), n);
        }
        let r = if len == 0 || start == 8 {
            0
        } else if len >= 8 - start {
            proof {
                lemma_u8_shr_is_div(self, start as u8);
                lemma_shifted_is_small(self as nat, start as nat);
            }
            self >> start
        } else {
            proof {
                lemma_masked_run(self, start as u8, len as u8);
                lemma_u8_shl_is_mul(1, len as u8);
                lemma_u8_shr_is_div(self, start as u8);
                lemma_u8_low_bits_mask_is_mod(self >> (start as u8), len as nat);
            }
            let low: u8 = 1u8 << len;
            let mask: u8 = low - 1;
            (self & (mask << start)) >> start
        };
        proof {
            let run = self.digits().subrange(start as int, end as int);
            assert forall|k: int| 0 <= k < 8 implies r.digits()[k] == (k < len && start + k < 8
                && self.digits()[start + k]) by {
                lemma_bit_of_value_of(run, k as nat);
            }
        }
        r
    }
}

/// A byte shifted right by `start` digits fits in the digits that are left.
proof fn lemma_shifted_is_small(v: nat, start: nat)
    requires
        v < 256,
        start <= 8,
    ensures
        (v / pow2(start)) % pow2((8 - start) as nat) == v / pow2(start),
{
    lemma_pow2_small();
    lemma_pow2_pos(start);
    lemma_pow2_adds(start, (8 - start) as nat);
    lemma_multiply_divide_lt(v as int, pow2(start) as int, pow2((8 - start) as nat) as int);
    lemma_small_mod(v / pow2(start), pow2((8 - start) as nat));
}

/// Masking a run of digits in place and shifting it down is shifting down and masking.
proof fn lemma_masked_run(x: u8, start: u8, len: u8)
    by (bit_vector)
    requires
        start < 8,
        len < 8,
        start + len < 8,
    ensures
        (1u8 << len) >= 1,
        (x & ((((1u8 << len) - 1) as u8) << start)) >> start == (x >> start) & (((1u8 << len)
            - 1) as u8),
{
}

/// An unsigned integer whose lowest eight binary digits can be taken as a byte.
pub trait LastByte: Copy {
    /// The number that the integer holds.
    spec fn as_nat(self) -> nat;

    /// The lowest eight binary digits of the integer.
    fn last_byte(self) -> (byte: u8)
        ensures
            byte as nat == self.as_nat() % 256,
    ;
}

impl LastByte for u8 {
    open spec fn as_nat(self) -> nat {
        self as nat
    }

    fn last_byte(self) -> (byte: u8) {
        self
    }
}

impl LastByte for u16 {
    open spec fn as_nat(self) -> nat {
        self as nat
    }

    fn last_byte(self) -> (byte: u8) {
        assert(self as u8 == self % 256) by (bit_vector);
        assert(self.as_nat() % 256 == (self % 256) as nat);
        self as u8
    }
}

impl LastByte for u32 {
    open spec fn as_nat(self) -> nat {
        self as nat
    }

    fn last_byte(self) -> (byte: u8) {
        assert(self as u8 == self % 256) by (bit_vector);
        assert(self.as_nat() % 256 == (self % 256) as nat);
        self as u8
    }
}

impl LastByte for u64 {
    open spec fn as_nat(self) -> nat {
        self as nat
    }

    fn last_byte(self) -> (byte: u8) {
        assert(self as u8 == self % 256) by (bit_vector);
        assert(self.as_nat() % 256 == (self % 256) as nat);
        self as u8
    }
}

impl LastByte for u128 {
    open spec fn as_nat(self) -> nat {
        self as nat
    }

    fn last_byte(self) -> (byte: u8) {
        assert(self as u8 == self % 256) by (bit_vector);
        assert(self.as_nat() % 256 == (self % 256) as nat);
        self as u8
    }
}

} // verus!
