//! The primitives that read and write a field of binary digits in a buffer of bytes,
//! wherever in the buffer the field lies.

use crate::bits::{
    bit, lemma_bit_of_value_of, lemma_bit_shift, lemma_pow2_small, lemma_value_bits_of_value_of,
    lemma_value_bits_subrange, lemma_value_of_bound, lemma_value_of_concat,
    lemma_value_of_value_bits, value_bits, value_of,
};
use crate::ints::{BitsExt, LastByte};
use vstd::arithmetic::div_mod::{
    lemma_div_denominator, lemma_mod_mod, lemma_multiply_divide_lt, lemma_small_mod,
    lemma_truncate_middle,
};
use vstd::arithmetic::mul::lemma_mul_is_commutative;
use vstd::arithmetic::power2::{
    lemma2_to64, lemma_pow2_adds, lemma_pow2_pos, lemma_pow2_strictly_increases, pow2,
};
use vstd::bits::{
    lemma_u16_shl_is_mul, lemma_u64_shl_is_mul, lemma_u64_shr_is_div, lemma_u8_shl_is_mul,
};
use vstd::prelude::*;

verus! {

/// A byte buffer as one row of binary digits: the digits of the first byte, lowest first,
/// then those of the second byte, and so on.
pub open spec fn bits_of(data: Seq<u8>) -> Seq<bool> {
    Seq::new(8 * data.len(), |i: int| bit(data[i / 8] as nat, (i % 8) as nat))
}

/// The `width` digits of `bits` that start at `offset`.
pub open spec fn field_bits(bits: Seq<bool>, offset: nat, width: nat) -> Seq<bool> {
    Seq::new(width, |k: int| bits[offset + k])
}

/// The number that the field of `width` digits at `offset` holds in the buffer `data`.
pub open spec fn field_value(data: Seq<u8>, offset: nat, width: nat) -> nat {
    value_of(field_bits(bits_of(data), offset, width))
}

/// The row `bits` with the `width` digits from `offset` on replaced by the low digits of
/// `value`; every other digit stays.
pub open spec fn with_field(bits: Seq<bool>, offset: nat, width: nat, value: nat) -> Seq<bool> {
    Seq::new(
        bits.len(),
        |i: int|
            if offset <= i < offset + width {
                bit(value, (i - offset) as nat)
            } else {
                bits[i]
            },
    )
}

/// Whether a field of `width` digits at `offset` lies inside a buffer of `len` bytes.
/// A field without digits lies anywhere.
pub open spec fn field_fits(len: nat, offset: nat, width: nat) -> bool {
    width > 0 ==> offset + width <= 8 * len
}

/// A field that ends inside one byte is a run of that byte's digits.
proof fn lemma_field_in_byte(data: Seq<u8>, index: nat, start: nat, len: nat)
    requires
        index < data.len(),
        start + len <= 8,
    ensures
        field_bits(bits_of(data), 8 * index + start, len) =~= value_bits(
            data[index as int] as nat,
            8,
        ).subrange(start as int, (start + len) as int),
{
}

/// The value of a field that lies inside one byte, by division: the byte without its
/// `start` lowest digits, cut off after `len` digits.
pub proof fn lemma_field_value_in_byte(data: Seq<u8>, index: nat, start: nat, len: nat)
    requires
        index < data.len(),
        start + len <= 8,
    ensures
        field_value(data, 8 * index + start, len) == (data[index as int] as nat / pow2(start))
            % pow2(len),
{
    let byte = data[index as int] as nat;
    lemma_field_in_byte(data, index, start, len);
    lemma_value_bits_subrange(byte, 8, start, start + len);
    lemma_value_of_value_bits(byte / pow2(start), len);
}

/// A field is its first digits followed by the rest.
proof fn lemma_field_split(bits: Seq<bool>, offset: nat, first: nat, rest: nat)
    ensures
        field_bits(bits, offset, first + rest) =~= field_bits(bits, offset, first) + field_bits(
            bits,
            offset + first,
            rest,
        ),
{
}

/// Reads the field of `width` binary digits that starts at digit `offset` of the buffer.
///
/// The field may cross byte boundaries. Its first digit in the buffer is the lowest digit
/// of the result.
pub fn get_bits(data: &[u8], offset: usize, width: usize) -> (r: u64)
    requires
        width <= 64,
        field_fits(data@.len(), offset as nat, width as nat),
    ensures
        r as nat == field_value(data@, offset as nat, width as nat),
{
    let mut byte_idx: usize = offset / 8;
    let mut start_offset: usize = offset % 8;
    let mut rem_bits: usize = width;
    let mut result: u64 = 0;
    while rem_bits > 0
        invariant
            width <= 64,
            rem_bits <= width,
            field_fits(data@.len(), offset as nat, width as nat),
            start_offset < 8,
            rem_bits > 0 ==> 8 * byte_idx + start_offset == offset + (width - rem_bits),
            result as nat == field_value(data@, offset as nat, (width - rem_bits) as nat),
        decreases rem_bits,
    {
        let ghost done = (width - rem_bits) as nat;
        let rem_bits_current_byte: usize = if 8 - start_offset < rem_bits {
            8 - start_offset
        } else {
            rem_bits
        };
        let value: u8 = if rem_bits_current_byte == 8 {
            data[byte_idx]
        } else {
            data[byte_idx].value_from_bits(start_offset, rem_bits_current_byte)
        };
        proof {
            let n = rem_bits_current_byte as nat;
            let all = bits_of(data@);
            let chunk = field_bits(all, offset as nat + done, n);
            lemma_pow2_small();
            lemma_field_in_byte(data@, byte_idx as nat, start_offset as nat, n);
            lemma_field_split(all, offset as nat, done, n);
            lemma_value_of_concat(field_bits(all, offset as nat, done), chunk);
            lemma_value_of_bound(field_bits(all, offset as nat, done + n));
            if n == 8 {
                assert(chunk =~= value_bits(data@[byte_idx as int] as nat, 8));
                lemma_value_of_value_bits(data@[byte_idx as int] as nat, 8);
            }
            assert(value as nat == value_of(chunk));
            if done + n < 64 {
                lemma_pow2_strictly_increases(done + n, 64);
            }
            lemma2_to64();
            lemma_pow2_pos(done);
            lemma_mul_is_commutative(pow2(done) as int, value as int);
            lemma_u64_shl_is_mul(value as u64, done as u64);
        }
        result += (value as u64) << (width - rem_bits);
        rem_bits -= rem_bits_current_byte;
        byte_idx += 1;
        start_offset = 0;
    }
    result
}

/// The digits of a byte that is put together from three parts: the low digits of the old
/// byte, a run of digits of `cur`, and the high digits of the old byte.
proof fn lemma_spliced_byte(old: u8, cur: nat, start: nat, len: nat, low: u8, mid: u8, high: u8)
    requires
        start + len <= 8,
        low as nat == value_of(value_bits(old as nat, 8).subrange(0, start as int)),
        mid as nat == pow2(start) * (cur % pow2(len)),
        high as nat == pow2(start + len) * value_of(
            value_bits(old as nat, 8).subrange((start + len) as int, 8),
        ),
    ensures
        high + mid + low < 256,
        forall|k: nat|
            k < 8 ==> #[trigger] bit((high + mid + low) as nat, k) == if start <= k < start + len {
                bit(cur, (k - start) as nat)
            } else {
                bit(old as nat, k)
            },
{
    let below = value_bits(old as nat, 8).subrange(0, start as int);
    let run = value_bits(cur, len);
    let above = value_bits(old as nat, 8).subrange((start + len) as int, 8);
    let whole = (below + run) + above;
    lemma_pow2_small();
    lemma_value_of_value_bits(cur, len);
    lemma_value_of_concat(below, run);
    lemma_value_of_concat(below + run, above);
    lemma_value_of_bound(whole);
    assert forall|k: nat| k < 8 implies #[trigger] bit((high + mid + low) as nat, k) == if start
        <= k < start + len {
        bit(cur, (k - start) as nat)
    } else {
        bit(old as nat, k)
    } by {
        lemma_bit_of_value_of(whole, k);
    }
}

/// Shifting a byte left by `start` digits, the digits that leave the byte being dropped.
proof fn lemma_shl_drops_high_digits(c: u8, start: u8)
    requires
        start < 8,
    ensures
        (c << start) as nat == pow2(start as nat) * (c as nat % pow2((8 - start) as nat)),
{
    lemma_pow2_small();
    lemma_pow2_pos(start as nat);
    lemma_pow2_pos((8 - start) as nat);
    lemma_pow2_adds(start as nat, (8 - start) as nat);
    assert((c << start) == ((c as u16 * (1u16 << (start as u16))) % 256) as u8) by (bit_vector)
        requires
            start < 8,
    ;
    lemma_u16_shl_is_mul(1u16, start as u16);
    lemma_truncate_middle(c as int, pow2(start as nat) as int, pow2((8 - start) as nat) as int);
    lemma_mul_is_commutative(c as int, pow2(start as nat) as int);
}

/// One more byte of the buffer written: the field written so far grows by the run of
/// digits that went into that byte.
proof fn lemma_write_step(
    before: Seq<u8>,
    now: Seq<u8>,
    offset: nat,
    done: nat,
    len: nat,
    value: nat,
    index: nat,
    start: nat,
    byte: u8,
)
    requires
        now.len() == before.len(),
        index < now.len(),
        8 * index + start == offset + done,
        start + len <= 8,
        start > 0 ==> done == 0,
        bits_of(now) =~= with_field(bits_of(before), offset, done, value),
        forall|k: nat|
            k < 8 ==> #[trigger] bit(byte as nat, k) == if start <= k < start + len {
                bit(value / pow2(done), (k - start) as nat)
            } else {
                bit(now[index as int] as nat, k)
            },
    ensures
        bits_of(now.update(index as int, byte)) =~= with_field(
            bits_of(before),
            offset,
            done + len,
            value,
        ),
{
    let next = now.update(index as int, byte);
    let target = with_field(bits_of(before), offset, done + len, value);
    assert forall|i: int| 0 <= i < 8 * now.len() implies bits_of(next)[i] == target[i] by {
        let k = (i % 8) as nat;
        assert(bits_of(now)[i] == with_field(bits_of(before), offset, done, value)[i]);
        if i / 8 == index {
            assert(bits_of(next)[i] == bit(byte as nat, k));
            if start <= k < start + len {
                lemma_bit_shift(value, done, (k - start) as nat);
            }
        }
    }
}

/// Writes the low `width` binary digits of `value` into the field that starts at digit
/// `offset` of the buffer. The lowest digit of `value` becomes the first digit of the
/// field. Every digit of the buffer outside the field stays as it was.
pub fn set_bits(data: &mut [u8], offset: usize, width: usize, value: u64)
    requires
        width <= 64,
        field_fits(old(data)@.len(), offset as nat, width as nat),
        (value as nat) < pow2(width as nat),
    ensures
        final(data)@.len() == old(data)@.len(),
        bits_of(final(data)@) == with_field(
            bits_of(old(data)@),
            offset as nat,
            width as nat,
            value as nat,
        ),
        field_value(final(data)@, offset as nat, width as nat) == value,
{
    let ghost whole = value as nat;
    let ghost before = data@;
    let mut value: u64 = value;
    let mut byte_idx: usize = offset / 8;
    let mut start_offset: usize = offset % 8;
    let mut rem_bits: usize = width;
    proof {
        lemma_pow2_small();
        assert(whole / pow2(0) == whole);
        assert(bits_of(data@) =~= with_field(bits_of(before), offset as nat, 0, whole));
    }
    while rem_bits > 0
        invariant
            width <= 64,
            rem_bits <= width,
            data@.len() == before.len(),
            field_fits(before.len(), offset as nat, width as nat),
            whole < pow2(width as nat),
            start_offset < 8,
            start_offset > 0 ==> rem_bits == width,
            rem_bits > 0 ==> 8 * byte_idx + start_offset == offset + (width - rem_bits),
            value as nat == whole / pow2((width - rem_bits) as nat),
            bits_of(data@) =~= with_field(
                bits_of(before),
                offset as nat,
                (width - rem_bits) as nat,
                whole,
            ),
        decreases rem_bits,
    {
        let ghost done = (width - rem_bits) as nat;
        let ghost now = data@;
        let ghost cur = value as nat;
        let rem_bits_current_byte: usize = if 8 - start_offset < rem_bits {
            8 - start_offset
        } else {
            rem_bits
        };
        let ghost n = rem_bits_current_byte as nat;
        let ghost s = start_offset as nat;
        proof {
            lemma_pow2_small();
            lemma_pow2_pos(done);
            lemma_pow2_pos(n);
            lemma_pow2_adds(done, rem_bits as nat);
            // what is left of the value fits in the digits that are left of the field
            lemma_multiply_divide_lt(
                whole as int,
                pow2(done) as int,
                pow2(rem_bits as nat) as int,
            );
            assert(cur < pow2(rem_bits as nat));
        }
        let new_byte: u8 = if rem_bits_current_byte == 8 {
            let byte = value.last_byte();
            proof {
                lemma_value_of_value_bits(cur, 8);
                lemma_value_bits_of_value_of(value_bits(cur, 8));
                assert forall|k: nat| k < 8 implies #[trigger] bit(byte as nat, k) == bit(
                    cur,
                    k,
                ) by {
                    assert(value_bits(byte as nat, 8)[k as int] == value_bits(cur, 8)[k as int]);
                }
            }
            byte
        } else {
            let old_byte = data[byte_idx];
            let start = old_byte.value_from_bits(0, start_offset);
            let low_byte = value.last_byte();
            let middle = low_byte << start_offset;
            let end_offset = start_offset + rem_bits_current_byte;
            let end = if end_offset == 8 {
                // nothing of the old byte lies above the run
                0
            } else {
                let above = old_byte.value_from_bits(end_offset, 8 - end_offset);
                proof {
                    let e = end_offset as nat;
                    let rest = (8 - end_offset) as nat;
                    lemma_pow2_pos(e);
                    lemma_pow2_adds(e, rest);
                    lemma_value_of_bound(value_bits(old_byte as nat, 8).subrange(e as int, 8));
                    assert(above as int * pow2(e) as int <= 255) by (nonlinear_arith)
                        requires
                            0 <= above as int <= pow2(rest) as int - 1,
                            0 < pow2(e) as int,
                            pow2(e) as int * pow2(rest) as int == 256,
                    ;
                    lemma_u8_shl_is_mul(above, end_offset as u8);
                    lemma_mul_is_commutative(above as int, pow2(e) as int);
                }
                above << end_offset
            };
            proof {
                lemma_shl_drops_high_digits(low_byte, start_offset as u8);
                if n == 8 - s {
                    lemma_pow2_adds(n, s);
                    lemma_mod_mod(cur as int, pow2(n) as int, pow2(s) as int);
                } else {
                    // the last run of the field: what is left of the value is all of it
                    lemma_pow2_strictly_increases(n, (8 - s) as nat);
                    lemma_pow2_strictly_increases(n, 8);
                    lemma_small_mod(cur, 256);
                    lemma_small_mod(cur, pow2(n));
                    lemma_small_mod(cur, pow2((8 - s) as nat));
                }
                assert(middle as nat == pow2(s) * (cur % pow2(n)));
                assert(value_bits(old_byte as nat, 8).subrange(8, 8) =~= Seq::<bool>::empty());
                lemma_spliced_byte(old_byte, cur, s, n, start, middle, end);
            }
            let spliced = end + middle + start;
            assert(spliced as nat == (end + middle + start) as nat);
            spliced
        };
        data[byte_idx] = new_byte;
        proof {
            lemma_write_step(
                before,
                now,
                offset as nat,
                done,
                n,
                whole,
                byte_idx as nat,
                s,
                new_byte,
            );
            lemma_u64_shr_is_div(value, rem_bits_current_byte as u64);
            lemma_pow2_adds(done, n);
            lemma_div_denominator(whole as int, pow2(done) as int, pow2(n) as int);
        }
        value >>= rem_bits_current_byte;
        rem_bits -= rem_bits_current_byte;
        byte_idx += 1;
        start_offset = 0;
    }
    proof {
        lemma_get_after_set(before, data@, offset as nat, width as nat, whole);
    }
}

/// A buffer is known by its binary digits: two buffers with the same digits are the same.
pub proof fn lemma_bits_of_injective(a: Seq<u8>, b: Seq<u8>)
    requires
        bits_of(a) == bits_of(b),
    ensures
        a == b,
{
    assert(8 * a.len() == bits_of(a).len());
    assert(8 * b.len() == bits_of(b).len());
    assert forall|i: int| 0 <= i < a.len() implies a[i] == b[i] by {
        lemma_pow2_small();
        lemma_field_in_byte(a, i as nat, 0, 8);
        lemma_field_in_byte(b, i as nat, 0, 8);
        assert(value_bits(a[i] as nat, 8).subrange(0, 8) =~= value_bits(a[i] as nat, 8));
        assert(value_bits(b[i] as nat, 8).subrange(0, 8) =~= value_bits(b[i] as nat, 8));
        lemma_value_of_value_bits(a[i] as nat, 8);
        lemma_value_of_value_bits(b[i] as nat, 8);
    }
    assert(a =~= b);
}

/// Writing a value into a field and reading the field gives the value back, whatever the
/// buffer held before, and no digit outside the field has changed.
pub proof fn lemma_get_after_set(
    before: Seq<u8>,
    after: Seq<u8>,
    offset: nat,
    width: nat,
    value: nat,
)
    requires
        after.len() == before.len(),
        field_fits(before.len(), offset, width),
        value < pow2(width),
        bits_of(after) == with_field(bits_of(before), offset, width, value),
    ensures
        field_value(after, offset, width) == value,
        forall|i: int|
            0 <= i < 8 * before.len() && !(offset <= i < offset + width) ==> bits_of(after)[i]
                == bits_of(before)[i],
{
    assert(field_bits(bits_of(after), offset, width) =~= value_bits(value, width));
    lemma_value_of_value_bits(value, width);
    lemma_small_mod(value, pow2(width));
}

/// Writing into one field leaves the value of every field that shares no digit with it.
pub proof fn lemma_set_keeps_other_field(
    before: Seq<u8>,
    after: Seq<u8>,
    offset: nat,
    width: nat,
    value: nat,
    other_offset: nat,
    other_width: nat,
)
    requires
        after.len() == before.len(),
        bits_of(after) == with_field(bits_of(before), offset, width, value),
        other_offset + other_width <= 8 * before.len(),
        other_offset + other_width <= offset || offset + width <= other_offset,
    ensures
        field_value(after, other_offset, other_width) == field_value(
            before,
            other_offset,
            other_width,
        ),
{
    assert(field_bits(bits_of(after), other_offset, other_width) =~= field_bits(
        bits_of(before),
        other_offset,
        other_width,
    ));
}

} // verus!
