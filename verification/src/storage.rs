//! The unsigned integer types that hold the raw values of fields.

use crate::ints::LastByte;
use vstd::arithmetic::power2::{lemma2_to64, lemma_pow2_strictly_increases, pow2};
use vstd::prelude::*;

verus! {

/// One of the four unsigned integer types that hold the raw value of a field.
#[derive(Clone, Copy, Debug, PartialEq, Eq, Structural)]
pub enum StorageType {
    U8,
    U16,
    U32,
    U64,
}

impl StorageType {
    /// The number of binary digits of the type.
    pub open spec fn bits(self) -> nat {
        match self {
            StorageType::U8 => 8,
            StorageType::U16 => 16,
            StorageType::U32 => 32,
            StorageType::U64 => 64,
        }
    }

    /// The smallest of the four types that has at least `width` binary digits.
    pub open spec fn smallest_for(width: nat) -> StorageType {
        if width <= 8 {
            StorageType::U8
        } else if width <= 16 {
            StorageType::U16
        } else if width <= 32 {
            StorageType::U32
        } else {
            StorageType::U64
        }
    }

    /// The number of binary digits of the type.
    pub fn width(self) -> (w: usize)
        ensures
            w == self.bits(),
    {
        match self {
            StorageType::U8 => 8,
            StorageType::U16 => 16,
            StorageType::U32 => 32,
            StorageType::U64 => 64,
        }
    }

    /// The name of the type.
    pub fn name(self) -> (name: &'static str)
        ensures
            name@ == StorageType::spec_name(self),
    {
        match self {
            StorageType::U8 => "u8",
            StorageType::U16 => "u16",
            StorageType::U32 => "u32",
            StorageType::U64 => "u64",
        }
    }

    /// The name of the type, as a sequence of characters.
    pub open spec fn spec_name(t: StorageType) -> Seq<char> {
        match t {
            StorageType::U8 => "u8"@,
            StorageType::U16 => "u16"@,
            StorageType::U32 => "u32"@,
            StorageType::U64 => "u64"@,
        }
    }
}

/// Of the four storage types, `smallest_for(width)` has room for `width` digits, and no
/// type with room for them is smaller.
pub proof fn lemma_smallest_storage(width: nat, other: StorageType)
    requires
        width <= 64,
    ensures
        StorageType::smallest_for(width).bits() >= width,
        other.bits() >= width ==> StorageType::smallest_for(width).bits() <= other.bits(),
{
}

/// The storage type for a field of `value` binary digits.
pub fn get_int_repr(value: usize) -> (storage: StorageType)
    requires
        value <= 64,
    ensures
        storage == StorageType::smallest_for(value as nat),
{
    if value <= 8 {
        StorageType::U8
    } else if value <= 16 {
        StorageType::U16
    } else if value <= 32 {
        StorageType::U32
    } else {
        StorageType::U64
    }
}

/// A number of `width` binary digits fits the smallest storage type for `width`.
pub proof fn lemma_fits_storage(width: nat)
    requires
        width <= 64,
    ensures
        pow2(width) <= pow2(StorageType::smallest_for(width).bits()),
{
    let room = StorageType::smallest_for(width).bits();
    if width < room {
        lemma_pow2_strictly_increases(width, room);
    }
}

/// An unsigned integer type that holds raw field values.
pub trait StorageInt: LastByte {
    /// Which of the four storage types this is.
    spec fn storage_type() -> StorageType;

    /// The integer of this type that holds the number `raw`.
    fn from_u64(raw: u64) -> (r: Self)
        requires
            (raw as nat) < pow2(Self::storage_type().bits()),
        ensures
            r.as_nat() == raw,
    ;

    /// The number that the integer holds.
    fn to_u64(self) -> (raw: u64)
        ensures
            raw == self.as_nat(),
            (raw as nat) < pow2(Self::storage_type().bits()),
    ;
}

impl StorageInt for u8 {
    open spec fn storage_type() -> StorageType {
        StorageType::U8
    }

    fn from_u64(raw: u64) -> (r: u8) {
        proof {
            lemma2_to64();
        }
        raw as u8
    }

    fn to_u64(self) -> (raw: u64) {
        proof {
            lemma2_to64();
        }
        self as u64
    }
}

impl StorageInt for u16 {
    open spec fn storage_type() -> StorageType {
        StorageType::U16
    }

    fn from_u64(raw: u64) -> (r: u16) {
        proof {
            lemma2_to64();
        }
        raw as u16
    }

    fn to_u64(self) -> (raw: u64) {
        proof {
            lemma2_to64();
        }
        self as u64
    }
}

impl StorageInt for u32 {
    open spec fn storage_type() -> StorageType {
        StorageType::U32
    }

    fn from_u64(raw: u64) -> (r: u32) {
        proof {
            lemma2_to64();
        }
        raw as u32
    }

    fn to_u64(self) -> (raw: u64) {
        proof {
            lemma2_to64();
        }
        self as u64
    }
}

impl StorageInt for u64 {
    open spec fn storage_type() -> StorageType {
        StorageType::U64
    }

    fn from_u64(raw: u64) -> (r: u64) {
        raw
    }

    fn to_u64(self) -> (raw: u64) {
        proof {
            lemma2_to64();
        }
        self
    }
}

} // verus!
