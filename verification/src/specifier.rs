//! Specifiers: the types that describe a field of a packed struct.

use crate::bits::{lemma_pow2_small, lemma_value_of_bound};
use crate::buffer::{
    bits_of, field_bits, field_fits, field_value, get_bits, lemma_get_after_set, set_bits,
    with_field,
};
use crate::ints::LastByte;
use crate::residue::{lemma_value_of_residue, CAddMod8, OneMod8, Residue, ResidueClass, SumLaw};
use crate::storage::{lemma_fits_storage, StorageInt, StorageType};
use vstd::arithmetic::power2::pow2;
use vstd::prelude::*;

verus! {

/// The description of a field of fixed width in a packed buffer: how many binary digits
/// it has, as which type its value is seen from outside, and in which integer type the
/// raw value is held.
///
/// The three functions `width`, `raw` and `valid_raw` say in contracts what the
/// specifier means. A specifier that leaves them as they stand here is not `lawful`, and
/// nothing is proved of it.
pub trait Specifier {
    /// The width of the field in binary digits.
    const BITS: usize;

    /// The type of the value as a getter returns it and a setter takes it.
    type TypeRepr;

    /// The unsigned integer type that holds the raw value.
    type IntRepr: StorageInt;

    /// The marker of the width modulo eight.
    type Mod8: ResidueClass;

    /// The width of the field in binary digits, for use in contracts.
    open spec fn width() -> nat {
        Self::BITS as nat
    }

    /// The raw number that stands for `value` in the buffer.
    open spec fn raw(value: Self::TypeRepr) -> nat {
        0
    }

    /// Whether the raw number `raw` stands for a value.
    open spec fn valid_raw(raw: nat) -> bool {
        false
    }

    /// The value that the raw number `int_repr` stands for.
    fn to_type_repr(int_repr: Self::IntRepr) -> (value: Self::TypeRepr)
        requires
            Self::valid_raw(int_repr.as_nat()),
        ensures
            Self::raw(value) == int_repr.as_nat(),
    ;

    /// The raw number that stands for `value`.
    fn to_int_repr(value: Self::TypeRepr) -> (int_repr: Self::IntRepr)
        requires
            Self::valid_raw(Self::raw(value)),
        ensures
            int_repr.as_nat() == Self::raw(value),
    ;

    /// Reads the field that starts at binary digit `offset` of `data`.
    ///
    /// The first four conditions are the laws of specifiers, see `lawful`.
    fn get(data: &[u8], offset: usize) -> (value: Self::TypeRepr)
        requires
            Self::BITS == Self::width(),
            Self::width() <= 64,
            Self::IntRepr::storage_type() == StorageType::smallest_for(Self::width()),
            forall|raw: nat| raw < pow2(Self::width()) ==> #[trigger] Self::valid_raw(raw),
            field_fits(data@.len(), offset as nat, Self::width()),
        ensures
            Self::raw(value) == field_value(data@, offset as nat, Self::width()),
    {
        proof {
            lemma_value_of_bound(field_bits(bits_of(data@), offset as nat, Self::width()));
            lemma_fits_storage(Self::width());
        }
        let raw = get_bits(data, offset, Self::BITS);
        Self::to_type_repr(Self::IntRepr::from_u64(raw))
    }

    /// Writes `value` into the field that starts at binary digit `offset` of `data`.
    /// Every binary digit outside the field stays as it was.
    ///
    /// The first four conditions are the laws of specifiers, see `lawful`.
    fn set(data: &mut [u8], offset: usize, value: Self::TypeRepr)
        requires
            Self::BITS == Self::width(),
            Self::width() <= 64,
            Self::IntRepr::storage_type() == StorageType::smallest_for(Self::width()),
            forall|raw: nat| raw < pow2(Self::width()) ==> #[trigger] Self::valid_raw(raw),
            field_fits(old(data)@.len(), offset as nat, Self::width()),
            Self::raw(value) < pow2(Self::width()),
        ensures
            final(data)@.len() == old(data)@.len(),
            bits_of(final(data)@) == with_field(
                bits_of(old(data)@),
                offset as nat,
                Self::width(),
                Self::raw(value),
            ),
            field_value(final(data)@, offset as nat, Self::width()) == Self::raw(value),
    {
        let raw = Self::to_int_repr(value).to_u64();
        set_bits(data, offset, Self::BITS, raw);
    }
}

/// Whether the specifier `S` obeys the laws of specifiers: `BITS` is the width, which is
/// at most 64; `IntRepr` is the smallest storage type with room for it; `Mod8` stands for
/// its remainder modulo eight; every raw number that the field can hold stands for a
/// value; and no raw number stands for two values.
pub open spec fn lawful<S: Specifier + ?Sized>() -> bool {
    &&& S::BITS == S::width()
    &&& S::width() <= 64
    &&& S::IntRepr::storage_type() == StorageType::smallest_for(S::width())
    &&& S::Mod8::residue() == Residue::of(S::width())
    &&& forall|raw: nat| raw < pow2(S::width()) ==> #[trigger] S::valid_raw(raw)
    &&& forall|a: S::TypeRepr, b: S::TypeRepr|
        #[trigger] S::raw(a) == #[trigger] S::raw(b) ==> a == b
}

/// A specifier that is proved to obey the laws of specifiers.
pub trait LawfulSpecifier: Specifier {
    /// The specifier obeys the laws.
    proof fn lemma_lawful()
        ensures
            lawful::<Self>(),
    ;
}

/// A value that is written into a field is the value that is read from the field, at
/// every offset at which the field fits and whatever the buffer held before.
///
/// Here `before` and `after` are the buffer before and after the setter ran with `value`,
/// as the setter's contract relates them, and `read` is what the getter then returns, as
/// the getter's contract says of it.
pub proof fn lemma_set_then_get<S: LawfulSpecifier>(
    before: Seq<u8>,
    after: Seq<u8>,
    offset: nat,
    value: S::TypeRepr,
    read: S::TypeRepr,
)
    requires
        field_fits(before.len(), offset, S::width()),
        S::raw(value) < pow2(S::width()),
        after.len() == before.len(),
        bits_of(after) == with_field(bits_of(before), offset, S::width(), S::raw(value)),
        S::raw(read) == field_value(after, offset, S::width()),
    ensures
        read == value,
{
    S::lemma_lawful();
    lemma_get_after_set(before, after, offset, S::width(), S::raw(value));
}

/// Adding the marker of a specifier's width to a marker gives the marker of the sum. So
/// the markers of the fields of a struct, added one by one to the marker of zero, give the
/// marker of the remainder of the struct's total width.
pub proof fn lemma_add_width<Acc: SumLaw<S::Mod8>, S: LawfulSpecifier>()
    ensures
        <Acc as CAddMod8<S::Mod8>>::Output::residue().value() == (Acc::residue().value()
            + S::width()) % 8,
{
    Acc::lemma_sum();
    S::lemma_lawful();
    lemma_value_of_residue(S::width());
}

impl Specifier for bool {
    const BITS: usize = 1;

    type TypeRepr = bool;

    type IntRepr = u8;

    type Mod8 = OneMod8;

    open spec fn width() -> nat {
        1
    }

    open spec fn raw(value: bool) -> nat {
        if value {
            1
        } else {
            0
        }
    }

    open spec fn valid_raw(raw: nat) -> bool {
        raw <= 1
    }

    fn to_type_repr(int_repr: u8) -> (value: bool) {
        assert(int_repr.as_nat() == int_repr as nat);
        assert(Self::valid_raw(int_repr as nat));
        int_repr == 1
    }

    fn to_int_repr(value: bool) -> (int_repr: u8) {
        let int_repr: u8 = if value {
            1
        } else {
            0
        };
        assert(int_repr.as_nat() == int_repr as nat);
        int_repr
    }
}

impl LawfulSpecifier for bool {
    proof fn lemma_lawful() {
        lemma_pow2_small();
        assert(<bool as Specifier>::BITS == 1);
        assert(<bool as Specifier>::width() == 1);
        assert(<u8 as StorageInt>::storage_type() == StorageType::U8);
        assert(<OneMod8 as ResidueClass>::residue() == Residue::One);
        assert forall|raw: nat| raw < pow2(1) implies #[trigger] <bool as Specifier>::valid_raw(
            raw,
        ) by {}
        assert forall|a: bool, b: bool|
            #[trigger] <bool as Specifier>::raw(a) == #[trigger] <bool as Specifier>::raw(
                b,
            ) implies a == b by {}
    }
}

} // verus!
