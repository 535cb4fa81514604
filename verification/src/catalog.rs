//! The plain specifiers `B1` to `B64`: a field of so many binary digits, seen from outside
//! as the unsigned integer that holds it.

use crate::ints::LastByte;
use crate::residue::{
    FiveMod8, FourMod8, OneMod8, Residue, ResidueClass, SevenMod8, SixMod8, ThreeMod8, TwoMod8,
    ZeroMod8,
};
use crate::specifier::{LawfulSpecifier, Specifier};
use crate::storage::{StorageInt, StorageType};
use vstd::prelude::*;

verus! {

/// The specifier of a field of 1 binary digit, held in a `u8`.
pub struct B1;

impl Specifier for B1 {
    const BITS: usize = 1;

    type TypeRepr = u8;

    type IntRepr = u8;

    type Mod8 = OneMod8;

    open spec fn width() -> nat {
        1
    }

    open spec fn raw(value: u8) -> nat {
        value as nat
    }

    open spec fn valid_raw(raw: nat) -> bool {
        true
    }

    fn to_type_repr(int_repr: u8) -> (value: u8) {
        assert(int_repr.as_nat() == int_repr as nat);
        int_repr
    }

    fn to_int_repr(value: u8) -> (int_repr: u8) {
        assert(value.as_nat() == value as nat);
        value
    }
}

impl LawfulSpecifier for B1 {
    proof fn lemma_lawful() {
        assert(<B1 as Specifier>::BITS == 1);
        assert(<B1 as Specifier>::width() == 1);
        assert(<u8 as StorageInt>::storage_type() == StorageType::U8);
        assert(<OneMod8 as ResidueClass>::residue() == Residue::One);
        assert forall|raw: nat| #[trigger] <B1 as Specifier>::valid_raw(raw) by {}
        assert forall|a: u8, b: u8|
            #[trigger] <B1 as Specifier>::raw(a) == #[trigger] <B1 as Specifier>::raw(
                b,
            ) implies a == b by {}
    }
}

/// The specifier of a field of 2 binary digits, held in a `u8`.
pub struct B2;

impl Specifier for B2 {
    const BITS: usize = 2;

    type TypeRepr = u8;

    type IntRepr = u8;

    type Mod8 = TwoMod8;

    open spec fn width() -> nat {
        2
    }

    open spec fn raw(value: u8) -> nat {
        value as nat
    }

    open spec fn valid_raw(raw: nat) -> bool {
        true
    }

    fn to_type_repr(int_repr: u8) -> (value: u8) {
        assert(int_repr.as_nat() == int_repr as nat);
        int_repr
    }

    fn to_int_repr(value: u8) -> (int_repr: u8) {
        assert(value.as_nat() == value as nat);
        value
    }
}

impl LawfulSpecifier for B2 {
    proof fn lemma_lawful() {
        assert(<B2 as Specifier>::BITS == 2);
        assert(<B2 as Specifier>::width() == 2);
        assert(<u8 as StorageInt>::storage_type() == StorageType::U8);
        assert(<TwoMod8 as ResidueClass>::residue() == Residue::Two);
        assert forall|raw: nat| #[trigger] <B2 as Specifier>::valid_raw(raw) by {}
        assert forall|a: u8, b: u8|
            #[trigger] <B2 as Specifier>::raw(a) == #[trigger] <B2 as Specifier>::raw(
                b,
            ) implies a == b by {}
    }
}

/// The specifier of a field of 3 binary digits, held in a `u8`.
pub struct B3;

impl Specifier for B3 {
    const BITS: usize = 3;

    type TypeRepr = u8;

    type IntRepr = u8;

    type Mod8 = ThreeMod8;

    open spec fn width() -> nat {
        3
    }

    open spec fn raw(value: u8) -> nat {
        value as nat
    }

    open spec fn valid_raw(raw: nat) -> bool {
        true
    }

    fn to_type_repr(int_repr: u8) -> (value: u8) {
        assert(int_repr.as_nat() == int_repr as nat);
        int_repr
    }

    fn to_int_repr(value: u8) -> (int_repr: u8) {
        assert(value.as_nat() == value as nat);
        value
    }
}

impl LawfulSpecifier for B3 {
    proof fn lemma_lawful() {
        assert(<B3 as Specifier>::BITS == 3);
        assert(<B3 as Specifier>::width() == 3);
        assert(<u8 as StorageInt>::storage_type() == StorageType::U8);
        assert(<ThreeMod8 as ResidueClass>::residue() == Residue::Three);
        assert forall|raw: nat| #[trigger] <B3 as Specifier>::valid_raw(raw) by {}
        assert forall|a: u8, b: u8|
            #[trigger] <B3 as Specifier>::raw(a) == #[trigger] <B3 as Specifier>::raw(
                b,
            ) implies a == b by {}
    }
}

/// The specifier of a field of 4 binary digits, held in a `u8`.
pub struct B4;

impl Specifier for B4 {
    const BITS: usize = 4;

    type TypeRepr = u8;

    type IntRepr = u8;

    type Mod8 = FourMod8;

    open spec fn width() -> nat {
        4
    }

    open spec fn raw(value: u8) -> nat {
        value as nat
    }

    open spec fn valid_raw(raw: nat) -> bool {
        true
    }

    fn to_type_repr(int_repr: u8) -> (value: u8) {
        assert(int_repr.as_nat() == int_repr as nat);
        int_repr
    }

    fn to_int_repr(value: u8) -> (int_repr: u8) {
        assert(value.as_nat() == value as nat);
        value
    }
}

impl LawfulSpecifier for B4 {
    proof fn lemma_lawful() {
        assert(<B4 as Specifier>::BITS == 4);
        assert(<B4 as Specifier>::width() == 4);
        assert(<u8 as StorageInt>::storage_type() == StorageType::U8);
        assert(<FourMod8 as ResidueClass>::residue() == Residue::Four);
        assert forall|raw: nat| #[trigger] <B4 as Specifier>::valid_raw(raw) by {}
        assert forall|a: u8, b: u8|
            #[trigger] <B4 as Specifier>::raw(a) == #[trigger] <B4 as Specifier>::raw(
                b,
            ) implies a == b by {}
    }
}

/// The specifier of a field of 5 binary digits, held in a `u8`.
pub struct B5;

impl Specifier for B5 {
    const BITS: usize = 5;

    type TypeRepr = u8;

    type IntRepr = u8;

    type Mod8 = FiveMod8;

    open spec fn width() -> nat {
        5
    }

    open spec fn raw(value: u8) -> nat {
        value as nat
    }

    open spec fn valid_raw(raw: nat) -> bool {
        true
    }

    fn to_type_repr(int_repr: u8) -> (value: u8) {
        assert(int_repr.as_nat() == int_repr as nat);
        int_repr
    }

    fn to_int_repr(value: u8) -> (int_repr: u8) {
        assert(value.as_nat() == value as nat);
        value
    }
}

impl LawfulSpecifier for B5 {
    proof fn lemma_lawful() {
        assert(<B5 as Specifier>::BITS == 5);
        assert(<B5 as Specifier>::width() == 5);
        assert(<u8 as StorageInt>::storage_type() == StorageType::U8);
        assert(<FiveMod8 as ResidueClass>::residue() == Residue::Five);
        assert forall|raw: nat| #[trigger] <B5 as Specifier>::valid_raw(raw) by {}
        assert forall|a: u8, b: u8|
            #[trigger] <B5 as Specifier>::raw(a) == #[trigger] <B5 as Specifier>::raw(
                b,
            ) implies a == b by {}
    }
}

/// The specifier of a field of 6 binary digits, held in a `u8`.
pub struct B6;

impl Specifier for B6 {
    const BITS: usize = 6;

    type TypeRepr = u8;

    type IntRepr = u8;

    type Mod8 = SixMod8;

    open spec fn width() -> nat {
        6
    }

    open spec fn raw(value: u8) -> nat {
        value as nat
    }

    open spec fn valid_raw(raw: nat) -> bool {
        true
    }

    fn to_type_repr(int_repr: u8) -> (value: u8) {
        assert(int_repr.as_nat() == int_repr as nat);
        int_repr
    }

    fn to_int_repr(value: u8) -> (int_repr: u8) {
        assert(value.as_nat() == value as nat);
        value
    }
}

impl LawfulSpecifier for B6 {
    proof fn lemma_lawful() {
        assert(<B6 as Specifier>::BITS == 6);
        assert(<B6 as Specifier>::width() == 6);
        assert(<u8 as StorageInt>::storage_type() == StorageType::U8);
        assert(<SixMod8 as ResidueClass>::residue() == Residue::Six);
        assert forall|raw: nat| #[trigger] <B6 as Specifier>::valid_raw(raw) by {}
        assert forall|a: u8, b: u8|
            #[trigger] <B6 as Specifier>::raw(a) == #[trigger] <B6 as Specifier>::raw(
                b,
            ) implies a == b by {}
    }
}

/// The specifier of a field of 7 binary digits, held in a `u8`.
pub struct B7;

impl Specifier for B7 {
    const BITS: usize = 7;

    type TypeRepr = u8;

    type IntRepr = u8;

    type Mod8 = SevenMod8;

    open spec fn width() -> nat {
        7
    }

    open spec fn raw(value: u8) -> nat {
        value as nat
    }

    open spec fn valid_raw(raw: nat) -> bool {
        true
    }

    fn to_type_repr(int_repr: u8) -> (value: u8) {
        assert(int_repr.as_nat() == int_repr as nat);
        int_repr
    }

    fn to_int_repr(value: u8) -> (int_repr: u8) {
        assert(value.as_nat() == value as nat);
        value
    }
}

impl LawfulSpecifier for B7 {
    proof fn lemma_lawful() {
        assert(<B7 as Specifier>::BITS == 7);
        assert(<B7 as Specifier>::width() == 7);
        assert(<u8 as StorageInt>::storage_type() == StorageType::U8);
        assert(<SevenMod8 as ResidueClass>::residue() == Residue::Seven);
        assert forall|raw: nat| #[trigger] <B7 as Specifier>::valid_raw(raw) by {}
        assert forall|a: u8, b: u8|
            #[trigger] <B7 as Specifier>::raw(a) == #[trigger] <B7 as Specifier>::raw(
                b,
            ) implies a == b by {}
    }
}

/// The specifier of a field of 8 binary digits, held in a `u8`.
pub struct B8;

impl Specifier for B8 {
    const BITS: usize = 8;

    type TypeRepr = u8;

    type IntRepr = u8;

    type Mod8 = ZeroMod8;

    open spec fn width() -> nat {
        8
    }

    open spec fn raw(value: u8) -> nat {
        value as nat
    }

    open spec fn valid_raw(raw: nat) -> bool {
        true
    }

    fn to_type_repr(int_repr: u8) -> (value: u8) {
        assert(int_repr.as_nat() == int_repr as nat);
        int_repr
    }

    fn to_int_repr(value: u8) -> (int_repr: u8) {
        assert(value.as_nat() == value as nat);
        value
    }
}

impl LawfulSpecifier for B8 {
    proof fn lemma_lawful() {
        assert(<B8 as Specifier>::BITS == 8);
        assert(<B8 as Specifier>::width() == 8);
        assert(<u8 as StorageInt>::storage_type() == StorageType::U8);
        assert(<ZeroMod8 as ResidueClass>::residue() == Residue::Zero);
        assert forall|raw: nat| #[trigger] <B8 as Specifier>::valid_raw(raw) by {}
        assert forall|a: u8, b: u8|
            #[trigger] <B8 as Specifier>::raw(a) == #[trigger] <B8 as Specifier>::raw(
                b,
            ) implies a == b by {}
    }
}

/// The specifier of a field of 9 binary digits, held in a `u16`.
pub struct B9;

impl Specifier for B9 {
    const BITS: usize = 9;

    type TypeRepr = u16;

    type IntRepr = u16;

    type Mod8 = OneMod8;

    open spec fn width() -> nat {
        9
    }

    open spec fn raw(value: u16) -> nat {
        value as nat
    }

    open spec fn valid_raw(raw: nat) -> bool {
        true
    }

    fn to_type_repr(int_repr: u16) -> (value: u16) {
        assert(int_repr.as_nat() == int_repr as nat);
        int_repr
    }

    fn to_int_repr(value: u16) -> (int_repr: u16) {
        assert(value.as_nat() == value as nat);
        value
    }
}

impl LawfulSpecifier for B9 {
    proof fn lemma_lawful() {
        assert(<B9 as Specifier>::BITS == 9);
        assert(<B9 as Specifier>::width() == 9);
        assert(<u16 as StorageInt>::storage_type() == StorageType::U16);
        assert(<OneMod8 as ResidueClass>::residue() == Residue::One);
        assert forall|raw: nat| #[trigger] <B9 as Specifier>::valid_raw(raw) by {}
        assert forall|a: u16, b: u16|
            #[trigger] <B9 as Specifier>::raw(a) == #[trigger] <B9 as Specifier>::raw(
                b,
            ) implies a == b by {}
    }
}

/// The specifier of a field of 10 binary digits, held in a `u16`.
pub struct B10;

impl Specifier for B10 {
    const BITS: usize = 10;

    type TypeRepr = u16;

    type IntRepr = u16;

    type Mod8 = TwoMod8;

    open spec fn width() -> nat {
        10
    }

    open spec fn raw(value: u16) -> nat {
        value as nat
    }

    open spec fn valid_raw(raw: nat) -> bool {
        true
    }

    fn to_type_repr(int_repr: u16) -> (value: u16) {
        assert(int_repr.as_nat() == int_repr as nat);
        int_repr
    }

    fn to_int_repr(value: u16) -> (int_repr: u16) {
        assert(value.as_nat() == value as nat);
        value
    }
}

impl LawfulSpecifier for B10 {
    proof fn lemma_lawful() {
        assert(<B10 as Specifier>::BITS == 10);
        assert(<B10 as Specifier>::width() == 10);
        assert(<u16 as StorageInt>::storage_type() == StorageType::U16);
        assert(<TwoMod8 as ResidueClass>::residue() == Residue::Two);
        assert forall|raw: nat| #[trigger] <B10 as Specifier>::valid_raw(raw) by {}
        assert forall|a: u16, b: u16|
            #[trigger] <B10 as Specifier>::raw(a) == #[trigger] <B10 as Specifier>::raw(
                b,
            ) implies a == b by {}
    }
}

/// The specifier of a field of 11 binary digits, held in a `u16`.
pub struct B11;

impl Specifier for B11 {
    const BITS: usize = 11;

    type TypeRepr = u16;

    type IntRepr = u16;

    type Mod8 = ThreeMod8;

    open spec fn width() -> nat {
        11
    }

    open spec fn raw(value: u16) -> nat {
        value as nat
    }

    open spec fn valid_raw(raw: nat) -> bool {
        true
    }

    fn to_type_repr(int_repr: u16) -> (value: u16) {
        assert(int_repr.as_nat() == int_repr as nat);
        int_repr
    }

    fn to_int_repr(value: u16) -> (int_repr: u16) {
        assert(value.as_nat() == value as nat);
        value
    }
}

impl LawfulSpecifier for B11 {
    proof fn lemma_lawful() {
        assert(<B11 as Specifier>::BITS == 11);
        assert(<B11 as Specifier>::width() == 11);
        assert(<u16 as StorageInt>::storage_type() == StorageType::U16);
        assert(<ThreeMod8 as ResidueClass>::residue() == Residue::Three);
        assert forall|raw: nat| #[trigger] <B11 as Specifier>::valid_raw(raw) by {}
        assert forall|a: u16, b: u16|
            #[trigger] <B11 as Specifier>::raw(a) == #[trigger] <B11 as Specifier>::raw(
                b,
            ) implies a == b by {}
    }
}

/// The specifier of a field of 12 binary digits, held in a `u16`.
pub struct B12;

impl Specifier for B12 {
    const BITS: usize = 12;

    type TypeRepr = u16;

    type IntRepr = u16;

    type Mod8 = FourMod8;

    open spec fn width() -> nat {
        12
    }

    open spec fn raw(value: u16) -> nat {
        value as nat
    }

    open spec fn valid_raw(raw: nat) -> bool {
        true
    }

    fn to_type_repr(int_repr: u16) -> (value: u16) {
        assert(int_repr.as_nat() == int_repr as nat);
        int_repr
    }

    fn to_int_repr(value: u16) -> (int_repr: u16) {
        assert(value.as_nat() == value as nat);
        value
    }
}

impl LawfulSpecifier for B12 {
    proof fn lemma_lawful() {
        assert(<B12 as Specifier>::BITS == 12);
        assert(<B12 as Specifier>::width() == 12);
        assert(<u16 as StorageInt>::storage_type() == StorageType::U16);
        assert(<FourMod8 as ResidueClass>::residue() == Residue::Four);
        assert forall|raw: nat| #[trigger] <B12 as Specifier>::valid_raw(raw) by {}
        assert forall|a: u16, b: u16|
            #[trigger] <B12 as Specifier>::raw(a) == #[trigger] <B12 as Specifier>::raw(
                b,
            ) implies a == b by {}
    }
}

/// The specifier of a field of 13 binary digits, held in a `u16`.
pub struct B13;

impl Specifier for B13 {
    const BITS: usize = 13;

    type TypeRepr = u16;

    type IntRepr = u16;

    type Mod8 = FiveMod8;

    open spec fn width() -> nat {
        13
    }

    open spec fn raw(value: u16) -> nat {
        value as nat
    }

    open spec fn valid_raw(raw: nat) -> bool {
        true
    }

    fn to_type_repr(int_repr: u16) -> (value: u16) {
        assert(int_repr.as_nat() == int_repr as nat);
        int_repr
    }

    fn to_int_repr(value: u16) -> (int_repr: u16) {
        assert(value.as_nat() == value as nat);
        value
    }
}

impl LawfulSpecifier for B13 {
    proof fn lemma_lawful() {
        assert(<B13 as Specifier>::BITS == 13);
        assert(<B13 as Specifier>::width() == 13);
        assert(<u16 as StorageInt>::storage_type() == StorageType::U16);
        assert(<FiveMod8 as ResidueClass>::residue() == Residue::Five);
        assert forall|raw: nat| #[trigger] <B13 as Specifier>::valid_raw(raw) by {}
        assert forall|a: u16, b: u16|
            #[trigger] <B13 as Specifier>::raw(a) == #[trigger] <B13 as Specifier>::raw(
                b,
            ) implies a == b by {}
    }
}

/// The specifier of a field of 14 binary digits, held in a `u16`.
pub struct B14;

impl Specifier for B14 {
    const BITS: usize = 14;

    type TypeRepr = u16;

    type IntRepr = u16;

    type Mod8 = SixMod8;

    open spec fn width() -> nat {
        14
    }

    open spec fn raw(value: u16) -> nat {
        value as nat
    }

    open spec fn valid_raw(raw: nat) -> bool {
        true
    }

    fn to_type_repr(int_repr: u16) -> (value: u16) {
        assert(int_repr.as_nat() == int_repr as nat);
        int_repr
    }

    fn to_int_repr(value: u16) -> (int_repr: u16) {
        assert(value.as_nat() == value as nat);
        value
    }
}

impl LawfulSpecifier for B14 {
    proof fn lemma_lawful() {
        assert(<B14 as Specifier>::BITS == 14);
        assert(<B14 as Specifier>::width() == 14);
        assert(<u16 as StorageInt>::storage_type() == StorageType::U16);
        assert(<SixMod8 as ResidueClass>::residue() == Residue::Six);
        assert forall|raw: nat| #[trigger] <B14 as Specifier>::valid_raw(raw) by {}
        assert forall|a: u16, b: u16|
            #[trigger] <B14 as Specifier>::raw(a) == #[trigger] <B14 as Specifier>::raw(
                b,
            ) implies a == b by {}
    }
}

/// The specifier of a field of 15 binary digits, held in a `u16`.
pub struct B15;

impl Specifier for B15 {
    const BITS: usize = 15;

    type TypeRepr = u16;

    type IntRepr = u16;

    type Mod8 = SevenMod8;

    open spec fn width() -> nat {
        15
    }

    open spec fn raw(value: u16) -> nat {
        value as nat
    }

    open spec fn valid_raw(raw: nat) -> bool {
        true
    }

    fn to_type_repr(int_repr: u16) -> (value: u16) {
        assert(int_repr.as_nat() == int_repr as nat);
        int_repr
    }

    fn to_int_repr(value: u16) -> (int_repr: u16) {
        assert(value.as_nat() == value as nat);
        value
    }
}

impl LawfulSpecifier for B15 {
    proof fn lemma_lawful() {
        assert(<B15 as Specifier>::BITS == 15);
        assert(<B15 as Specifier>::width() == 15);
        assert(<u16 as StorageInt>::storage_type() == StorageType::U16);
        assert(<SevenMod8 as ResidueClass>::residue() == Residue::Seven);
        assert forall|raw: nat| #[trigger] <B15 as Specifier>::valid_raw(raw) by {}
        assert forall|a: u16, b: u16|
            #[trigger] <B15 as Specifier>::raw(a) == #[trigger] <B15 as Specifier>::raw(
                b,
            ) implies a == b by {}
    }
}

/// The specifier of a field of 16 binary digits, held in a `u16`.
pub struct B16;

impl Specifier for B16 {
    const BITS: usize = 16;

    type TypeRepr = u16;

    type IntRepr = u16;

    type Mod8 = ZeroMod8;

    open spec fn width() -> nat {
        16
    }

    open spec fn raw(value: u16) -> nat {
        value as nat
    }

    open spec fn valid_raw(raw: nat) -> bool {
        true
    }

    fn to_type_repr(int_repr: u16) -> (value: u16) {
        assert(int_repr.as_nat() == int_repr as nat);
        int_repr
    }

    fn to_int_repr(value: u16) -> (int_repr: u16) {
        assert(value.as_nat() == value as nat);
        value
    }
}

impl LawfulSpecifier for B16 {
    proof fn lemma_lawful() {
        assert(<B16 as Specifier>::BITS == 16);
        assert(<B16 as Specifier>::width() == 16);
        assert(<u16 as StorageInt>::storage_type() == StorageType::U16);
        assert(<ZeroMod8 as ResidueClass>::residue() == Residue::Zero);
        assert forall|raw: nat| #[trigger] <B16 as Specifier>::valid_raw(raw) by {}
        assert forall|a: u16, b: u16|
            #[trigger] <B16 as Specifier>::raw(a) == #[trigger] <B16 as Specifier>::raw(
                b,
            ) implies a == b by {}
    }
}

/// The specifier of a field of 17 binary digits, held in a `u32`.
pub struct B17;

impl Specifier for B17 {
    const BITS: usize = 17;

    type TypeRepr = u32;

    type IntRepr = u32;

    type Mod8 = OneMod8;

    open spec fn width() -> nat {
        17
    }

    open spec fn raw(value: u32) -> nat {
        value as nat
    }

    open spec fn valid_raw(raw: nat) -> bool {
        true
    }

    fn to_type_repr(int_repr: u32) -> (value: u32) {
        assert(int_repr.as_nat() == int_repr as nat);
        int_repr
    }

    fn to_int_repr(value: u32) -> (int_repr: u32) {
        assert(value.as_nat() == value as nat);
        value
    }
}

impl LawfulSpecifier for B17 {
    proof fn lemma_lawful() {
        assert(<B17 as Specifier>::BITS == 17);
        assert(<B17 as Specifier>::width() == 17);
        assert(<u32 as StorageInt>::storage_type() == StorageType::U32);
        assert(<OneMod8 as ResidueClass>::residue() == Residue::One);
        assert forall|raw: nat| #[trigger] <B17 as Specifier>::valid_raw(raw) by {}
        assert forall|a: u32, b: u32|
            #[trigger] <B17 as Specifier>::raw(a) == #[trigger] <B17 as Specifier>::raw(
                b,
            ) implies a == b by {}
    }
}

/// The specifier of a field of 18 binary digits, held in a `u32`.
pub struct B18;

impl Specifier for B18 {
    const BITS: usize = 18;

    type TypeRepr = u32;

    type IntRepr = u32;

    type Mod8 = TwoMod8;

    open spec fn width() -> nat {
        18
    }

    open spec fn raw(value: u32) -> nat {
        value as nat
    }

    open spec fn valid_raw(raw: nat) -> bool {
        true
    }

    fn to_type_repr(int_repr: u32) -> (value: u32) {
        assert(int_repr.as_nat() == int_repr as nat);
        int_repr
    }

    fn to_int_repr(value: u32) -> (int_repr: u32) {
        assert(value.as_nat() == value as nat);
        value
    }
}

impl LawfulSpecifier for B18 {
    proof fn lemma_lawful() {
        assert(<B18 as Specifier>::BITS == 18);
        assert(<B18 as Specifier>::width() == 18);
        assert(<u32 as StorageInt>::storage_type() == StorageType::U32);
        assert(<TwoMod8 as ResidueClass>::residue() == Residue::Two);
        assert forall|raw: nat| #[trigger] <B18 as Specifier>::valid_raw(raw) by {}
        assert forall|a: u32, b: u32|
            #[trigger] <B18 as Specifier>::raw(a) == #[trigger] <B18 as Specifier>::raw(
                b,
            ) implies a == b by {}
    }
}

/// The specifier of a field of 19 binary digits, held in a `u32`.
pub struct B19;

impl Specifier for B19 {
    const BITS: usize = 19;

    type TypeRepr = u32;

    type IntRepr = u32;

    type Mod8 = ThreeMod8;

    open spec fn width() -> nat {
        19
    }

    open spec fn raw(value: u32) -> nat {
        value as nat
    }

    open spec fn valid_raw(raw: nat) -> bool {
        true
    }

    fn to_type_repr(int_repr: u32) -> (value: u32) {
        assert(int_repr.as_nat() == int_repr as nat);
        int_repr
    }

    fn to_int_repr(value: u32) -> (int_repr: u32) {
        assert(value.as_nat() == value as nat);
        value
    }
}

impl LawfulSpecifier for B19 {
    proof fn lemma_lawful() {
        assert(<B19 as Specifier>::BITS == 19);
        assert(<B19 as Specifier>::width() == 19);
        assert(<u32 as StorageInt>::storage_type() == StorageType::U32);
        assert(<ThreeMod8 as ResidueClass>::residue() == Residue::Three);
        assert forall|raw: nat| #[trigger] <B19 as Specifier>::valid_raw(raw) by {}
        assert forall|a: u32, b: u32|
            #[trigger] <B19 as Specifier>::raw(a) == #[trigger] <B19 as Specifier>::raw(
                b,
            ) implies a == b by {}
    }
}

/// The specifier of a field of 20 binary digits, held in a `u32`.
pub struct B20;

impl Specifier for B20 {
    const BITS: usize = 20;

    type TypeRepr = u32;

    type IntRepr = u32;

    type Mod8 = FourMod8;

    open spec fn width() -> nat {
        20
    }

    open spec fn raw(value: u32) -> nat {
        value as nat
    }

    open spec fn valid_raw(raw: nat) -> bool {
        true
    }

    fn to_type_repr(int_repr: u32) -> (value: u32) {
        assert(int_repr.as_nat() == int_repr as nat);
        int_repr
    }

    fn to_int_repr(value: u32) -> (int_repr: u32) {
        assert(value.as_nat() == value as nat);
        value
    }
}

impl LawfulSpecifier for B20 {
    proof fn lemma_lawful() {
        assert(<B20 as Specifier>::BITS == 20);
        assert(<B20 as Specifier>::width() == 20);
        assert(<u32 as StorageInt>::storage_type() == StorageType::U32);
        assert(<FourMod8 as ResidueClass>::residue() == Residue::Four);
        assert forall|raw: nat| #[trigger] <B20 as Specifier>::valid_raw(raw) by {}
        assert forall|a: u32, b: u32|
            #[trigger] <B20 as Specifier>::raw(a) == #[trigger] <B20 as Specifier>::raw(
                b,
            ) implies a == b by {}
    }
}

/// The specifier of a field of 21 binary digits, held in a `u32`.
pub struct B21;

impl Specifier for B21 {
    const BITS: usize = 21;

    type TypeRepr = u32;

    type IntRepr = u32;

    type Mod8 = FiveMod8;

    open spec fn width() -> nat {
        21
    }

    open spec fn raw(value: u32) -> nat {
        value as nat
    }

    open spec fn valid_raw(raw: nat) -> bool {
        true
    }

    fn to_type_repr(int_repr: u32) -> (value: u32) {
        assert(int_repr.as_nat() == int_repr as nat);
        int_repr
    }

    fn to_int_repr(value: u32) -> (int_repr: u32) {
        assert(value.as_nat() == value as nat);
        value
    }
}

impl LawfulSpecifier for B21 {
    proof fn lemma_lawful() {
        assert(<B21 as Specifier>::BITS == 21);
        assert(<B21 as Specifier>::width() == 21);
        assert(<u32 as StorageInt>::storage_type() == StorageType::U32);
        assert(<FiveMod8 as ResidueClass>::residue() == Residue::Five);
        assert forall|raw: nat| #[trigger] <B21 as Specifier>::valid_raw(raw) by {}
        assert forall|a: u32, b: u32|
            #[trigger] <B21 as Specifier>::raw(a) == #[trigger] <B21 as Specifier>::raw(
                b,
            ) implies a == b by {}
    }
}

/// The specifier of a field of 22 binary digits, held in a `u32`.
pub struct B22;

impl Specifier for B22 {
    const BITS: usize = 22;

    type TypeRepr = u32;

    type IntRepr = u32;

    type Mod8 = SixMod8;

    open spec fn width() -> nat {
        22
    }

    open spec fn raw(value: u32) -> nat {
        value as nat
    }

    open spec fn valid_raw(raw: nat) -> bool {
        true
    }

    fn to_type_repr(int_repr: u32) -> (value: u32) {
        assert(int_repr.as_nat() == int_repr as nat);
        int_repr
    }

    fn to_int_repr(value: u32) -> (int_repr: u32) {
        assert(value.as_nat() == value as nat);
        value
    }
}

impl LawfulSpecifier for B22 {
    proof fn lemma_lawful() {
        assert(<B22 as Specifier>::BITS == 22);
        assert(<B22 as Specifier>::width() == 22);
        assert(<u32 as StorageInt>::storage_type() == StorageType::U32);
        assert(<SixMod8 as ResidueClass>::residue() == Residue::Six);
        assert forall|raw: nat| #[trigger] <B22 as Specifier>::valid_raw(raw) by {}
        assert forall|a: u32, b: u32|
            #[trigger] <B22 as Specifier>::raw(a) == #[trigger] <B22 as Specifier>::raw(
                b,
            ) implies a == b by {}
    }
}

/// The specifier of a field of 23 binary digits, held in a `u32`.
pub struct B23;

impl Specifier for B23 {
    const BITS: usize = 23;

    type TypeRepr = u32;

    type IntRepr = u32;

    type Mod8 = SevenMod8;

    open spec fn width() -> nat {
        23
    }

    open spec fn raw(value: u32) -> nat {
        value as nat
    }

    open spec fn valid_raw(raw: nat) -> bool {
        true
    }

    fn to_type_repr(int_repr: u32) -> (value: u32) {
        assert(int_repr.as_nat() == int_repr as nat);
        int_repr
    }

    fn to_int_repr(value: u32) -> (int_repr: u32) {
        assert(value.as_nat() == value as nat);
        value
    }
}

impl LawfulSpecifier for B23 {
    proof fn lemma_lawful() {
        assert(<B23 as Specifier>::BITS == 23);
        assert(<B23 as Specifier>::width() == 23);
        assert(<u32 as StorageInt>::storage_type() == StorageType::U32);
        assert(<SevenMod8 as ResidueClass>::residue() == Residue::Seven);
        assert forall|raw: nat| #[trigger] <B23 as Specifier>::valid_raw(raw) by {}
        assert forall|a: u32, b: u32|
            #[trigger] <B23 as Specifier>::raw(a) == #[trigger] <B23 as Specifier>::raw(
                b,
            ) implies a == b by {}
    }
}

/// The specifier of a field of 24 binary digits, held in a `u32`.
pub struct B24;

impl Specifier for B24 {
    const BITS: usize = 24;

    type TypeRepr = u32;

    type IntRepr = u32;

    type Mod8 = ZeroMod8;

    open spec fn width() -> nat {
        24
    }

    open spec fn raw(value: u32) -> nat {
        value as nat
    }

    open spec fn valid_raw(raw: nat) -> bool {
        true
    }

    fn to_type_repr(int_repr: u32) -> (value: u32) {
        assert(int_repr.as_nat() == int_repr as nat);
        int_repr
    }

    fn to_int_repr(value: u32) -> (int_repr: u32) {
        assert(value.as_nat() == value as nat);
        value
    }
}

impl LawfulSpecifier for B24 {
    proof fn lemma_lawful() {
        assert(<B24 as Specifier>::BITS == 24);
        assert(<B24 as Specifier>::width() == 24);
        assert(<u32 as StorageInt>::storage_type() == StorageType::U32);
        assert(<ZeroMod8 as ResidueClass>::residue() == Residue::Zero);
        assert forall|raw: nat| #[trigger] <B24 as Specifier>::valid_raw(raw) by {}
        assert forall|a: u32, b: u32|
            #[trigger] <B24 as Specifier>::raw(a) == #[trigger] <B24 as Specifier>::raw(
                b,
            ) implies a == b by {}
    }
}

/// The specifier of a field of 25 binary digits, held in a `u32`.
pub struct B25;

impl Specifier for B25 {
    const BITS: usize = 25;

    type TypeRepr = u32;

    type IntRepr = u32;

    type Mod8 = OneMod8;

    open spec fn width() -> nat {
        25
    }

    open spec fn raw(value: u32) -> nat {
        value as nat
    }

    open spec fn valid_raw(raw: nat) -> bool {
        true
    }

    fn to_type_repr(int_repr: u32) -> (value: u32) {
        assert(int_repr.as_nat() == int_repr as nat);
        int_repr
    }

    fn to_int_repr(value: u32) -> (int_repr: u32) {
        assert(value.as_nat() == value as nat);
        value
    }
}

impl LawfulSpecifier for B25 {
    proof fn lemma_lawful() {
        assert(<B25 as Specifier>::BITS == 25);
        assert(<B25 as Specifier>::width() == 25);
        assert(<u32 as StorageInt>::storage_type() == StorageType::U32);
        assert(<OneMod8 as ResidueClass>::residue() == Residue::One);
        assert forall|raw: nat| #[trigger] <B25 as Specifier>::valid_raw(raw) by {}
        assert forall|a: u32, b: u32|
            #[trigger] <B25 as Specifier>::raw(a) == #[trigger] <B25 as Specifier>::raw(
                b,
            ) implies a == b by {}
    }
}

/// The specifier of a field of 26 binary digits, held in a `u32`.
pub struct B26;

impl Specifier for B26 {
    const BITS: usize = 26;

    type TypeRepr = u32;

    type IntRepr = u32;

    type Mod8 = TwoMod8;

    open spec fn width() -> nat {
        26
    }

    open spec fn raw(value: u32) -> nat {
        value as nat
    }

    open spec fn valid_raw(raw: nat) -> bool {
        true
    }

    fn to_type_repr(int_repr: u32) -> (value: u32) {
        assert(int_repr.as_nat() == int_repr as nat);
        int_repr
    }

    fn to_int_repr(value: u32) -> (int_repr: u32) {
        assert(value.as_nat() == value as nat);
        value
    }
}

impl LawfulSpecifier for B26 {
    proof fn lemma_lawful() {
        assert(<B26 as Specifier>::BITS == 26);
        assert(<B26 as Specifier>::width() == 26);
        assert(<u32 as StorageInt>::storage_type() == StorageType::U32);
        assert(<TwoMod8 as ResidueClass>::residue() == Residue::Two);
        assert forall|raw: nat| #[trigger] <B26 as Specifier>::valid_raw(raw) by {}
        assert forall|a: u32, b: u32|
            #[trigger] <B26 as Specifier>::raw(a) == #[trigger] <B26 as Specifier>::raw(
                b,
            ) implies a == b by {}
    }
}

/// The specifier of a field of 27 binary digits, held in a `u32`.
pub struct B27;

impl Specifier for B27 {
    const BITS: usize = 27;

    type TypeRepr = u32;

    type IntRepr = u32;

    type Mod8 = ThreeMod8;

    open spec fn width() -> nat {
        27
    }

    open spec fn raw(value: u32) -> nat {
        value as nat
    }

    open spec fn valid_raw(raw: nat) -> bool {
        true
    }

    fn to_type_repr(int_repr: u32) -> (value: u32) {
        assert(int_repr.as_nat() == int_repr as nat);
        int_repr
    }

    fn to_int_repr(value: u32) -> (int_repr: u32) {
        assert(value.as_nat() == value as nat);
        value
    }
}

impl LawfulSpecifier for B27 {
    proof fn lemma_lawful() {
        assert(<B27 as Specifier>::BITS == 27);
        assert(<B27 as Specifier>::width() == 27);
        assert(<u32 as StorageInt>::storage_type() == StorageType::U32);
        assert(<ThreeMod8 as ResidueClass>::residue() == Residue::Three);
        assert forall|raw: nat| #[trigger] <B27 as Specifier>::valid_raw(raw) by {}
        assert forall|a: u32, b: u32|
            #[trigger] <B27 as Specifier>::raw(a) == #[trigger] <B27 as Specifier>::raw(
                b,
            ) implies a == b by {}
    }
}

/// The specifier of a field of 28 binary digits, held in a `u32`.
pub struct B28;

impl Specifier for B28 {
    const BITS: usize = 28;

    type TypeRepr = u32;

    type IntRepr = u32;

    type Mod8 = FourMod8;

    open spec fn width() -> nat {
        28
    }

    open spec fn raw(value: u32) -> nat {
        value as nat
    }

    open spec fn valid_raw(raw: nat) -> bool {
        true
    }

    fn to_type_repr(int_repr: u32) -> (value: u32) {
        assert(int_repr.as_nat() == int_repr as nat);
        int_repr
    }

    fn to_int_repr(value: u32) -> (int_repr: u32) {
        assert(value.as_nat() == value as nat);
        value
    }
}

impl LawfulSpecifier for B28 {
    proof fn lemma_lawful() {
        assert(<B28 as Specifier>::BITS == 28);
        assert(<B28 as Specifier>::width() == 28);
        assert(<u32 as StorageInt>::storage_type() == StorageType::U32);
        assert(<FourMod8 as ResidueClass>::residue() == Residue::Four);
        assert forall|raw: nat| #[trigger] <B28 as Specifier>::valid_raw(raw) by {}
        assert forall|a: u32, b: u32|
            #[trigger] <B28 as Specifier>::raw(a) == #[trigger] <B28 as Specifier>::raw(
                b,
            ) implies a == b by {}
    }
}

/// The specifier of a field of 29 binary digits, held in a `u32`.
pub struct B29;

impl Specifier for B29 {
    const BITS: usize = 29;

    type TypeRepr = u32;

    type IntRepr = u32;

    type Mod8 = FiveMod8;

    open spec fn width() -> nat {
        29
    }

    open spec fn raw(value: u32) -> nat {
        value as nat
    }

    open spec fn valid_raw(raw: nat) -> bool {
        true
    }

    fn to_type_repr(int_repr: u32) -> (value: u32) {
        assert(int_repr.as_nat() == int_repr as nat);
        int_repr
    }

    fn to_int_repr(value: u32) -> (int_repr: u32) {
        assert(value.as_nat() == value as nat);
        value
    }
}

impl LawfulSpecifier for B29 {
    proof fn lemma_lawful() {
        assert(<B29 as Specifier>::BITS == 29);
        assert(<B29 as Specifier>::width() == 29);
        assert(<u32 as StorageInt>::storage_type() == StorageType::U32);
        assert(<FiveMod8 as ResidueClass>::residue() == Residue::Five);
        assert forall|raw: nat| #[trigger] <B29 as Specifier>::valid_raw(raw) by {}
        assert forall|a: u32, b: u32|
            #[trigger] <B29 as Specifier>::raw(a) == #[trigger] <B29 as Specifier>::raw(
                b,
            ) implies a == b by {}
    }
}

/// The specifier of a field of 30 binary digits, held in a `u32`.
pub struct B30;

impl Specifier for B30 {
    const BITS: usize = 30;

    type TypeRepr = u32;

    type IntRepr = u32;

    type Mod8 = SixMod8;

    open spec fn width() -> nat {
        30
    }

    open spec fn raw(value: u32) -> nat {
        value as nat
    }

    open spec fn valid_raw(raw: nat) -> bool {
        true
    }

    fn to_type_repr(int_repr: u32) -> (value: u32) {
        assert(int_repr.as_nat() == int_repr as nat);
        int_repr
    }

    fn to_int_repr(value: u32) -> (int_repr: u32) {
        assert(value.as_nat() == value as nat);
        value
    }
}

impl LawfulSpecifier for B30 {
    proof fn lemma_lawful() {
        assert(<B30 as Specifier>::BITS == 30);
        assert(<B30 as Specifier>::width() == 30);
        assert(<u32 as StorageInt>::storage_type() == StorageType::U32);
        assert(<SixMod8 as ResidueClass>::residue() == Residue::Six);
        assert forall|raw: nat| #[trigger] <B30 as Specifier>::valid_raw(raw) by {}
        assert forall|a: u32, b: u32|
            #[trigger] <B30 as Specifier>::raw(a) == #[trigger] <B30 as Specifier>::raw(
                b,
            ) implies a == b by {}
    }
}

/// The specifier of a field of 31 binary digits, held in a `u32`.
pub struct B31;

impl Specifier for B31 {
    const BITS: usize = 31;

    type TypeRepr = u32;

    type IntRepr = u32;

    type Mod8 = SevenMod8;

    open spec fn width() -> nat {
        31
    }

    open spec fn raw(value: u32) -> nat {
        value as nat
    }

    open spec fn valid_raw(raw: nat) -> bool {
        true
    }

    fn to_type_repr(int_repr: u32) -> (value: u32) {
        assert(int_repr.as_nat() == int_repr as nat);
        int_repr
    }

    fn to_int_repr(value: u32) -> (int_repr: u32) {
        assert(value.as_nat() == value as nat);
        value
    }
}

impl LawfulSpecifier for B31 {
    proof fn lemma_lawful() {
        assert(<B31 as Specifier>::BITS == 31);
        assert(<B31 as Specifier>::width() == 31);
        assert(<u32 as StorageInt>::storage_type() == StorageType::U32);
        assert(<SevenMod8 as ResidueClass>::residue() == Residue::Seven);
        assert forall|raw: nat| #[trigger] <B31 as Specifier>::valid_raw(raw) by {}
        assert forall|a: u32, b: u32|
            #[trigger] <B31 as Specifier>::raw(a) == #[trigger] <B31 as Specifier>::raw(
                b,
            ) implies a == b by {}
    }
}

/// The specifier of a field of 32 binary digits, held in a `u32`.
pub struct B32;

impl Specifier for B32 {
    const BITS: usize = 32;

    type TypeRepr = u32;

    type IntRepr = u32;

    type Mod8 = ZeroMod8;

    open spec fn width() -> nat {
        32
    }

    open spec fn raw(value: u32) -> nat {
        value as nat
    }

    open spec fn valid_raw(raw: nat) -> bool {
        true
    }

    fn to_type_repr(int_repr: u32) -> (value: u32) {
        assert(int_repr.as_nat() == int_repr as nat);
        int_repr
    }

    fn to_int_repr(value: u32) -> (int_repr: u32) {
        assert(value.as_nat() == value as nat);
        value
    }
}

impl LawfulSpecifier for B32 {
    proof fn lemma_lawful() {
        assert(<B32 as Specifier>::BITS == 32);
        assert(<B32 as Specifier>::width() == 32);
        assert(<u32 as StorageInt>::storage_type() == StorageType::U32);
        assert(<ZeroMod8 as ResidueClass>::residue() == Residue::Zero);
        assert forall|raw: nat| #[trigger] <B32 as Specifier>::valid_raw(raw) by {}
        assert forall|a: u32, b: u32|
            #[trigger] <B32 as Specifier>::raw(a) == #[trigger] <B32 as Specifier>::raw(
                b,
            ) implies a == b by {}
    }
}

/// The specifier of a field of 33 binary digits, held in a `u64`.
pub struct B33;

impl Specifier for B33 {
    const BITS: usize = 33;

    type TypeRepr = u64;

    type IntRepr = u64;

    type Mod8 = OneMod8;

    open spec fn width() -> nat {
        33
    }

    open spec fn raw(value: u64) -> nat {
        value as nat
    }

    open spec fn valid_raw(raw: nat) -> bool {
        true
    }

    fn to_type_repr(int_repr: u64) -> (value: u64) {
        assert(int_repr.as_nat() == int_repr as nat);
        int_repr
    }

    fn to_int_repr(value: u64) -> (int_repr: u64) {
        assert(value.as_nat() == value as nat);
        value
    }
}

impl LawfulSpecifier for B33 {
    proof fn lemma_lawful() {
        assert(<B33 as Specifier>::BITS == 33);
        assert(<B33 as Specifier>::width() == 33);
        assert(<u64 as StorageInt>::storage_type() == StorageType::U64);
        assert(<OneMod8 as ResidueClass>::residue() == Residue::One);
        assert forall|raw: nat| #[trigger] <B33 as Specifier>::valid_raw(raw) by {}
        assert forall|a: u64, b: u64|
            #[trigger] <B33 as Specifier>::raw(a) == #[trigger] <B33 as Specifier>::raw(
                b,
            ) implies a == b by {}
    }
}

/// The specifier of a field of 34 binary digits, held in a `u64`.
pub struct B34;

impl Specifier for B34 {
    const BITS: usize = 34;

    type TypeRepr = u64;

    type IntRepr = u64;

    type Mod8 = TwoMod8;

    open spec fn width() -> nat {
        34
    }

    open spec fn raw(value: u64) -> nat {
        value as nat
    }

    open spec fn valid_raw(raw: nat) -> bool {
        true
    }

    fn to_type_repr(int_repr: u64) -> (value: u64) {
        assert(int_repr.as_nat() == int_repr as nat);
        int_repr
    }

    fn to_int_repr(value: u64) -> (int_repr: u64) {
        assert(value.as_nat() == value as nat);
        value
    }
}

impl LawfulSpecifier for B34 {
    proof fn lemma_lawful() {
        assert(<B34 as Specifier>::BITS == 34);
        assert(<B34 as Specifier>::width() == 34);
        assert(<u64 as StorageInt>::storage_type() == StorageType::U64);
        assert(<TwoMod8 as ResidueClass>::residue() == Residue::Two);
        assert forall|raw: nat| #[trigger] <B34 as Specifier>::valid_raw(raw) by {}
        assert forall|a: u64, b: u64|
            #[trigger] <B34 as Specifier>::raw(a) == #[trigger] <B34 as Specifier>::raw(
                b,
            ) implies a == b by {}
    }
}

/// The specifier of a field of 35 binary digits, held in a `u64`.
pub struct B35;

impl Specifier for B35 {
    const BITS: usize = 35;

    type TypeRepr = u64;

    type IntRepr = u64;

    type Mod8 = ThreeMod8;

    open spec fn width() -> nat {
        35
    }

    open spec fn raw(value: u64) -> nat {
        value as nat
    }

    open spec fn valid_raw(raw: nat) -> bool {
        true
    }

    fn to_type_repr(int_repr: u64) -> (value: u64) {
        assert(int_repr.as_nat() == int_repr as nat);
        int_repr
    }

    fn to_int_repr(value: u64) -> (int_repr: u64) {
        assert(value.as_nat() == value as nat);
        value
    }
}

impl LawfulSpecifier for B35 {
    proof fn lemma_lawful() {
        assert(<B35 as Specifier>::BITS == 35);
        assert(<B35 as Specifier>::width() == 35);
        assert(<u64 as StorageInt>::storage_type() == StorageType::U64);
        assert(<ThreeMod8 as ResidueClass>::residue() == Residue::Three);
        assert forall|raw: nat| #[trigger] <B35 as Specifier>::valid_raw(raw) by {}
        assert forall|a: u64, b: u64|
            #[trigger] <B35 as Specifier>::raw(a) == #[trigger] <B35 as Specifier>::raw(
                b,
            ) implies a == b by {}
    }
}

/// The specifier of a field of 36 binary digits, held in a `u64`.
pub struct B36;

impl Specifier for B36 {
    const BITS: usize = 36;

    type TypeRepr = u64;

    type IntRepr = u64;

    type Mod8 = FourMod8;

    open spec fn width() -> nat {
        36
    }

    open spec fn raw(value: u64) -> nat {
        value as nat
    }

    open spec fn valid_raw(raw: nat) -> bool {
        true
    }

    fn to_type_repr(int_repr: u64) -> (value: u64) {
        assert(int_repr.as_nat() == int_repr as nat);
        int_repr
    }

    fn to_int_repr(value: u64) -> (int_repr: u64) {
        assert(value.as_nat() == value as nat);
        value
    }
}

impl LawfulSpecifier for B36 {
    proof fn lemma_lawful() {
        assert(<B36 as Specifier>::BITS == 36);
        assert(<B36 as Specifier>::width() == 36);
        assert(<u64 as StorageInt>::storage_type() == StorageType::U64);
        assert(<FourMod8 as ResidueClass>::residue() == Residue::Four);
        assert forall|raw: nat| #[trigger] <B36 as Specifier>::valid_raw(raw) by {}
        assert forall|a: u64, b: u64|
            #[trigger] <B36 as Specifier>::raw(a) == #[trigger] <B36 as Specifier>::raw(
                b,
            ) implies a == b by {}
    }
}

/// The specifier of a field of 37 binary digits, held in a `u64`.
pub struct B37;

impl Specifier for B37 {
    const BITS: usize = 37;

    type TypeRepr = u64;

    type IntRepr = u64;

    type Mod8 = FiveMod8;

    open spec fn width() -> nat {
        37
    }

    open spec fn raw(value: u64) -> nat {
        value as nat
    }

    open spec fn valid_raw(raw: nat) -> bool {
        true
    }

    fn to_type_repr(int_repr: u64) -> (value: u64) {
        assert(int_repr.as_nat() == int_repr as nat);
        int_repr
    }

    fn to_int_repr(value: u64) -> (int_repr: u64) {
        assert(value.as_nat() == value as nat);
        value
    }
}

impl LawfulSpecifier for B37 {
    proof fn lemma_lawful() {
        assert(<B37 as Specifier>::BITS == 37);
        assert(<B37 as Specifier>::width() == 37);
        assert(<u64 as StorageInt>::storage_type() == StorageType::U64);
        assert(<FiveMod8 as ResidueClass>::residue() == Residue::Five);
        assert forall|raw: nat| #[trigger] <B37 as Specifier>::valid_raw(raw) by {}
        assert forall|a: u64, b: u64|
            #[trigger] <B37 as Specifier>::raw(a) == #[trigger] <B37 as Specifier>::raw(
                b,
            ) implies a == b by {}
    }
}

/// The specifier of a field of 38 binary digits, held in a `u64`.
pub struct B38;

impl Specifier for B38 {
    const BITS: usize = 38;

    type TypeRepr = u64;

    type IntRepr = u64;

    type Mod8 = SixMod8;

    open spec fn width() -> nat {
        38
    }

    open spec fn raw(value: u64) -> nat {
        value as nat
    }

    open spec fn valid_raw(raw: nat) -> bool {
        true
    }

    fn to_type_repr(int_repr: u64) -> (value: u64) {
        assert(int_repr.as_nat() == int_repr as nat);
        int_repr
    }

    fn to_int_repr(value: u64) -> (int_repr: u64) {
        assert(value.as_nat() == value as nat);
        value
    }
}

impl LawfulSpecifier for B38 {
    proof fn lemma_lawful() {
        assert(<B38 as Specifier>::BITS == 38);
        assert(<B38 as Specifier>::width() == 38);
        assert(<u64 as StorageInt>::storage_type() == StorageType::U64);
        assert(<SixMod8 as ResidueClass>::residue() == Residue::Six);
        assert forall|raw: nat| #[trigger] <B38 as Specifier>::valid_raw(raw) by {}
        assert forall|a: u64, b: u64|
            #[trigger] <B38 as Specifier>::raw(a) == #[trigger] <B38 as Specifier>::raw(
                b,
            ) implies a == b by {}
    }
}

/// The specifier of a field of 39 binary digits, held in a `u64`.
pub struct B39;

impl Specifier for B39 {
    const BITS: usize = 39;

    type TypeRepr = u64;

    type IntRepr = u64;

    type Mod8 = SevenMod8;

    open spec fn width() -> nat {
        39
    }

    open spec fn raw(value: u64) -> nat {
        value as nat
    }

    open spec fn valid_raw(raw: nat) -> bool {
        true
    }

    fn to_type_repr(int_repr: u64) -> (value: u64) {
        assert(int_repr.as_nat() == int_repr as nat);
        int_repr
    }

    fn to_int_repr(value: u64) -> (int_repr: u64) {
        assert(value.as_nat() == value as nat);
        value
    }
}

impl LawfulSpecifier for B39 {
    proof fn lemma_lawful() {
        assert(<B39 as Specifier>::BITS == 39);
        assert(<B39 as Specifier>::width() == 39);
        assert(<u64 as StorageInt>::storage_type() == StorageType::U64);
        assert(<SevenMod8 as ResidueClass>::residue() == Residue::Seven);
        assert forall|raw: nat| #[trigger] <B39 as Specifier>::valid_raw(raw) by {}
        assert forall|a: u64, b: u64|
            #[trigger] <B39 as Specifier>::raw(a) == #[trigger] <B39 as Specifier>::raw(
                b,
            ) implies a == b by {}
    }
}

/// The specifier of a field of 40 binary digits, held in a `u64`.
pub struct B40;

impl Specifier for B40 {
    const BITS: usize = 40;

    type TypeRepr = u64;

    type IntRepr = u64;

    type Mod8 = ZeroMod8;

    open spec fn width() -> nat {
        40
    }

    open spec fn raw(value: u64) -> nat {
        value as nat
    }

    open spec fn valid_raw(raw: nat) -> bool {
        true
    }

    fn to_type_repr(int_repr: u64) -> (value: u64) {
        assert(int_repr.as_nat() == int_repr as nat);
        int_repr
    }

    fn to_int_repr(value: u64) -> (int_repr: u64) {
        assert(value.as_nat() == value as nat);
        value
    }
}

impl LawfulSpecifier for B40 {
    proof fn lemma_lawful() {
        assert(<B40 as Specifier>::BITS == 40);
        assert(<B40 as Specifier>::width() == 40);
        assert(<u64 as StorageInt>::storage_type() == StorageType::U64);
        assert(<ZeroMod8 as ResidueClass>::residue() == Residue::Zero);
        assert forall|raw: nat| #[trigger] <B40 as Specifier>::valid_raw(raw) by {}
        assert forall|a: u64, b: u64|
            #[trigger] <B40 as Specifier>::raw(a) == #[trigger] <B40 as Specifier>::raw(
                b,
            ) implies a == b by {}
    }
}

/// The specifier of a field of 41 binary digits, held in a `u64`.
pub struct B41;

impl Specifier for B41 {
    const BITS: usize = 41;

    type TypeRepr = u64;

    type IntRepr = u64;

    type Mod8 = OneMod8;

    open spec fn width() -> nat {
        41
    }

    open spec fn raw(value: u64) -> nat {
        value as nat
    }

    open spec fn valid_raw(raw: nat) -> bool {
        true
    }

    fn to_type_repr(int_repr: u64) -> (value: u64) {
        assert(int_repr.as_nat() == int_repr as nat);
        int_repr
    }

    fn to_int_repr(value: u64) -> (int_repr: u64) {
        assert(value.as_nat() == value as nat);
        value
    }
}

impl LawfulSpecifier for B41 {
    proof fn lemma_lawful() {
        assert(<B41 as Specifier>::BITS == 41);
        assert(<B41 as Specifier>::width() == 41);
        assert(<u64 as StorageInt>::storage_type() == StorageType::U64);
        assert(<OneMod8 as ResidueClass>::residue() == Residue::One);
        assert forall|raw: nat| #[trigger] <B41 as Specifier>::valid_raw(raw) by {}
        assert forall|a: u64, b: u64|
            #[trigger] <B41 as Specifier>::raw(a) == #[trigger] <B41 as Specifier>::raw(
                b,
            ) implies a == b by {}
    }
}

/// The specifier of a field of 42 binary digits, held in a `u64`.
pub struct B42;

impl Specifier for B42 {
    const BITS: usize = 42;

    type TypeRepr = u64;

    type IntRepr = u64;

    type Mod8 = TwoMod8;

    open spec fn width() -> nat {
        42
    }

    open spec fn raw(value: u64) -> nat {
        value as nat
    }

    open spec fn valid_raw(raw: nat) -> bool {
        true
    }

    fn to_type_repr(int_repr: u64) -> (value: u64) {
        assert(int_repr.as_nat() == int_repr as nat);
        int_repr
    }

    fn to_int_repr(value: u64) -> (int_repr: u64) {
        assert(value.as_nat() == value as nat);
        value
    }
}

impl LawfulSpecifier for B42 {
    proof fn lemma_lawful() {
        assert(<B42 as Specifier>::BITS == 42);
        assert(<B42 as Specifier>::width() == 42);
        assert(<u64 as StorageInt>::storage_type() == StorageType::U64);
        assert(<TwoMod8 as ResidueClass>::residue() == Residue::Two);
        assert forall|raw: nat| #[trigger] <B42 as Specifier>::valid_raw(raw) by {}
        assert forall|a: u64, b: u64|
            #[trigger] <B42 as Specifier>::raw(a) == #[trigger] <B42 as Specifier>::raw(
                b,
            ) implies a == b by {}
    }
}

/// The specifier of a field of 43 binary digits, held in a `u64`.
pub struct B43;

impl Specifier for B43 {
    const BITS: usize = 43;

    type TypeRepr = u64;

    type IntRepr = u64;

    type Mod8 = ThreeMod8;

    open spec fn width() -> nat {
        43
    }

    open spec fn raw(value: u64) -> nat {
        value as nat
    }

    open spec fn valid_raw(raw: nat) -> bool {
        true
    }

    fn to_type_repr(int_repr: u64) -> (value: u64) {
        assert(int_repr.as_nat() == int_repr as nat);
        int_repr
    }

    fn to_int_repr(value: u64) -> (int_repr: u64) {
        assert(value.as_nat() == value as nat);
        value
    }
}

impl LawfulSpecifier for B43 {
    proof fn lemma_lawful() {
        assert(<B43 as Specifier>::BITS == 43);
        assert(<B43 as Specifier>::width() == 43);
        assert(<u64 as StorageInt>::storage_type() == StorageType::U64);
        assert(<ThreeMod8 as ResidueClass>::residue() == Residue::Three);
        assert forall|raw: nat| #[trigger] <B43 as Specifier>::valid_raw(raw) by {}
        assert forall|a: u64, b: u64|
            #[trigger] <B43 as Specifier>::raw(a) == #[trigger] <B43 as Specifier>::raw(
                b,
            ) implies a == b by {}
    }
}

/// The specifier of a field of 44 binary digits, held in a `u64`.
pub struct B44;

impl Specifier for B44 {
    const BITS: usize = 44;

    type TypeRepr = u64;

    type IntRepr = u64;

    type Mod8 = FourMod8;

    open spec fn width() -> nat {
        44
    }

    open spec fn raw(value: u64) -> nat {
        value as nat
    }

    open spec fn valid_raw(raw: nat) -> bool {
        true
    }

    fn to_type_repr(int_repr: u64) -> (value: u64) {
        assert(int_repr.as_nat() == int_repr as nat);
        int_repr
    }

    fn to_int_repr(value: u64) -> (int_repr: u64) {
        assert(value.as_nat() == value as nat);
        value
    }
}

impl LawfulSpecifier for B44 {
    proof fn lemma_lawful() {
        assert(<B44 as Specifier>::BITS == 44);
        assert(<B44 as Specifier>::width() == 44);
        assert(<u64 as StorageInt>::storage_type() == StorageType::U64);
        assert(<FourMod8 as ResidueClass>::residue() == Residue::Four);
        assert forall|raw: nat| #[trigger] <B44 as Specifier>::valid_raw(raw) by {}
        assert forall|a: u64, b: u64|
            #[trigger] <B44 as Specifier>::raw(a) == #[trigger] <B44 as Specifier>::raw(
                b,
            ) implies a == b by {}
    }
}

/// The specifier of a field of 45 binary digits, held in a `u64`.
pub struct B45;

impl Specifier for B45 {
    const BITS: usize = 45;

    type TypeRepr = u64;

    type IntRepr = u64;

    type Mod8 = FiveMod8;

    open spec fn width() -> nat {
        45
    }

    open spec fn raw(value: u64) -> nat {
        value as nat
    }

    open spec fn valid_raw(raw: nat) -> bool {
        true
    }

    fn to_type_repr(int_repr: u64) -> (value: u64) {
        assert(int_repr.as_nat() == int_repr as nat);
        int_repr
    }

    fn to_int_repr(value: u64) -> (int_repr: u64) {
        assert(value.as_nat() == value as nat);
        value
    }
}

impl LawfulSpecifier for B45 {
    proof fn lemma_lawful() {
        assert(<B45 as Specifier>::BITS == 45);
        assert(<B45 as Specifier>::width() == 45);
        assert(<u64 as StorageInt>::storage_type() == StorageType::U64);
        assert(<FiveMod8 as ResidueClass>::residue() == Residue::Five);
        assert forall|raw: nat| #[trigger] <B45 as Specifier>::valid_raw(raw) by {}
        assert forall|a: u64, b: u64|
            #[trigger] <B45 as Specifier>::raw(a) == #[trigger] <B45 as Specifier>::raw(
                b,
            ) implies a == b by {}
    }
}

/// The specifier of a field of 46 binary digits, held in a `u64`.
pub struct B46;

impl Specifier for B46 {
    const BITS: usize = 46;

    type TypeRepr = u64;

    type IntRepr = u64;

    type Mod8 = SixMod8;

    open spec fn width() -> nat {
        46
    }

    open spec fn raw(value: u64) -> nat {
        value as nat
    }

    open spec fn valid_raw(raw: nat) -> bool {
        true
    }

    fn to_type_repr(int_repr: u64) -> (value: u64) {
        assert(int_repr.as_nat() == int_repr as nat);
        int_repr
    }

    fn to_int_repr(value: u64) -> (int_repr: u64) {
        assert(value.as_nat() == value as nat);
        value
    }
}

impl LawfulSpecifier for B46 {
    proof fn lemma_lawful() {
        assert(<B46 as Specifier>::BITS == 46);
        assert(<B46 as Specifier>::width() == 46);
        assert(<u64 as StorageInt>::storage_type() == StorageType::U64);
        assert(<SixMod8 as ResidueClass>::residue() == Residue::Six);
        assert forall|raw: nat| #[trigger] <B46 as Specifier>::valid_raw(raw) by {}
        assert forall|a: u64, b: u64|
            #[trigger] <B46 as Specifier>::raw(a) == #[trigger] <B46 as Specifier>::raw(
                b,
            ) implies a == b by {}
    }
}

/// The specifier of a field of 47 binary digits, held in a `u64`.
pub struct B47;

impl Specifier for B47 {
    const BITS: usize = 47;

    type TypeRepr = u64;

    type IntRepr = u64;

    type Mod8 = SevenMod8;

    open spec fn width() -> nat {
        47
    }

    open spec fn raw(value: u64) -> nat {
        value as nat
    }

    open spec fn valid_raw(raw: nat) -> bool {
        true
    }

    fn to_type_repr(int_repr: u64) -> (value: u64) {
        assert(int_repr.as_nat() == int_repr as nat);
        int_repr
    }

    fn to_int_repr(value: u64) -> (int_repr: u64) {
        assert(value.as_nat() == value as nat);
        value
    }
}

impl LawfulSpecifier for B47 {
    proof fn lemma_lawful() {
        assert(<B47 as Specifier>::BITS == 47);
        assert(<B47 as Specifier>::width() == 47);
        assert(<u64 as StorageInt>::storage_type() == StorageType::U64);
        assert(<SevenMod8 as ResidueClass>::residue() == Residue::Seven);
        assert forall|raw: nat| #[trigger] <B47 as Specifier>::valid_raw(raw) by {}
        assert forall|a: u64, b: u64|
            #[trigger] <B47 as Specifier>::raw(a) == #[trigger] <B47 as Specifier>::raw(
                b,
            ) implies a == b by {}
    }
}

/// The specifier of a field of 48 binary digits, held in a `u64`.
pub struct B48;

impl Specifier for B48 {
    const BITS: usize = 48;

    type TypeRepr = u64;

    type IntRepr = u64;

    type Mod8 = ZeroMod8;

    open spec fn width() -> nat {
        48
    }

    open spec fn raw(value: u64) -> nat {
        value as nat
    }

    open spec fn valid_raw(raw: nat) -> bool {
        true
    }

    fn to_type_repr(int_repr: u64) -> (value: u64) {
        assert(int_repr.as_nat() == int_repr as nat);
        int_repr
    }

    fn to_int_repr(value: u64) -> (int_repr: u64) {
        assert(value.as_nat() == value as nat);
        value
    }
}

impl LawfulSpecifier for B48 {
    proof fn lemma_lawful() {
        assert(<B48 as Specifier>::BITS == 48);
        assert(<B48 as Specifier>::width() == 48);
        assert(<u64 as StorageInt>::storage_type() == StorageType::U64);
        assert(<ZeroMod8 as ResidueClass>::residue() == Residue::Zero);
        assert forall|raw: nat| #[trigger] <B48 as Specifier>::valid_raw(raw) by {}
        assert forall|a: u64, b: u64|
            #[trigger] <B48 as Specifier>::raw(a) == #[trigger] <B48 as Specifier>::raw(
                b,
            ) implies a == b by {}
    }
}

/// The specifier of a field of 49 binary digits, held in a `u64`.
pub struct B49;

impl Specifier for B49 {
    const BITS: usize = 49;

    type TypeRepr = u64;

    type IntRepr = u64;

    type Mod8 = OneMod8;

    open spec fn width() -> nat {
        49
    }

    open spec fn raw(value: u64) -> nat {
        value as nat
    }

    open spec fn valid_raw(raw: nat) -> bool {
        true
    }

    fn to_type_repr(int_repr: u64) -> (value: u64) {
        assert(int_repr.as_nat() == int_repr as nat);
        int_repr
    }

    fn to_int_repr(value: u64) -> (int_repr: u64) {
        assert(value.as_nat() == value as nat);
        value
    }
}

impl LawfulSpecifier for B49 {
    proof fn lemma_lawful() {
        assert(<B49 as Specifier>::BITS == 49);
        assert(<B49 as Specifier>::width() == 49);
        assert(<u64 as StorageInt>::storage_type() == StorageType::U64);
        assert(<OneMod8 as ResidueClass>::residue() == Residue::One);
        assert forall|raw: nat| #[trigger] <B49 as Specifier>::valid_raw(raw) by {}
        assert forall|a: u64, b: u64|
            #[trigger] <B49 as Specifier>::raw(a) == #[trigger] <B49 as Specifier>::raw(
                b,
            ) implies a == b by {}
    }
}

/// The specifier of a field of 50 binary digits, held in a `u64`.
pub struct B50;

impl Specifier for B50 {
    const BITS: usize = 50;

    type TypeRepr = u64;

    type IntRepr = u64;

    type Mod8 = TwoMod8;

    open spec fn width() -> nat {
        50
    }

    open spec fn raw(value: u64) -> nat {
        value as nat
    }

    open spec fn valid_raw(raw: nat) -> bool {
        true
    }

    fn to_type_repr(int_repr: u64) -> (value: u64) {
        assert(int_repr.as_nat() == int_repr as nat);
        int_repr
    }

    fn to_int_repr(value: u64) -> (int_repr: u64) {
        assert(value.as_nat() == value as nat);
        value
    }
}

impl LawfulSpecifier for B50 {
    proof fn lemma_lawful() {
        assert(<B50 as Specifier>::BITS == 50);
        assert(<B50 as Specifier>::width() == 50);
        assert(<u64 as StorageInt>::storage_type() == StorageType::U64);
        assert(<TwoMod8 as ResidueClass>::residue() == Residue::Two);
        assert forall|raw: nat| #[trigger] <B50 as Specifier>::valid_raw(raw) by {}
        assert forall|a: u64, b: u64|
            #[trigger] <B50 as Specifier>::raw(a) == #[trigger] <B50 as Specifier>::raw(
                b,
            ) implies a == b by {}
    }
}

/// The specifier of a field of 51 binary digits, held in a `u64`.
pub struct B51;

impl Specifier for B51 {
    const BITS: usize = 51;

    type TypeRepr = u64;

    type IntRepr = u64;

    type Mod8 = ThreeMod8;

    open spec fn width() -> nat {
        51
    }

    open spec fn raw(value: u64) -> nat {
        value as nat
    }

    open spec fn valid_raw(raw: nat) -> bool {
        true
    }

    fn to_type_repr(int_repr: u64) -> (value: u64) {
        assert(int_repr.as_nat() == int_repr as nat);
        int_repr
    }

    fn to_int_repr(value: u64) -> (int_repr: u64) {
        assert(value.as_nat() == value as nat);
        value
    }
}

impl LawfulSpecifier for B51 {
    proof fn lemma_lawful() {
        assert(<B51 as Specifier>::BITS == 51);
        assert(<B51 as Specifier>::width() == 51);
        assert(<u64 as StorageInt>::storage_type() == StorageType::U64);
        assert(<ThreeMod8 as ResidueClass>::residue() == Residue::Three);
        assert forall|raw: nat| #[trigger] <B51 as Specifier>::valid_raw(raw) by {}
        assert forall|a: u64, b: u64|
            #[trigger] <B51 as Specifier>::raw(a) == #[trigger] <B51 as Specifier>::raw(
                b,
            ) implies a == b by {}
    }
}

/// The specifier of a field of 52 binary digits, held in a `u64`.
pub struct B52;

impl Specifier for B52 {
    const BITS: usize = 52;

    type TypeRepr = u64;

    type IntRepr = u64;

    type Mod8 = FourMod8;

    open spec fn width() -> nat {
        52
    }

    open spec fn raw(value: u64) -> nat {
        value as nat
    }

    open spec fn valid_raw(raw: nat) -> bool {
        true
    }

    fn to_type_repr(int_repr: u64) -> (value: u64) {
        assert(int_repr.as_nat() == int_repr as nat);
        int_repr
    }

    fn to_int_repr(value: u64) -> (int_repr: u64) {
        assert(value.as_nat() == value as nat);
        value
    }
}

impl LawfulSpecifier for B52 {
    proof fn lemma_lawful() {
        assert(<B52 as Specifier>::BITS == 52);
        assert(<B52 as Specifier>::width() == 52);
        assert(<u64 as StorageInt>::storage_type() == StorageType::U64);
        assert(<FourMod8 as ResidueClass>::residue() == Residue::Four);
        assert forall|raw: nat| #[trigger] <B52 as Specifier>::valid_raw(raw) by {}
        assert forall|a: u64, b: u64|
            #[trigger] <B52 as Specifier>::raw(a) == #[trigger] <B52 as Specifier>::raw(
                b,
            ) implies a == b by {}
    }
}

/// The specifier of a field of 53 binary digits, held in a `u64`.
pub struct B53;

impl Specifier for B53 {
    const BITS: usize = 53;

    type TypeRepr = u64;

    type IntRepr = u64;

    type Mod8 = FiveMod8;

    open spec fn width() -> nat {
        53
    }

    open spec fn raw(value: u64) -> nat {
        value as nat
    }

    open spec fn valid_raw(raw: nat) -> bool {
        true
    }

    fn to_type_repr(int_repr: u64) -> (value: u64) {
        assert(int_repr.as_nat() == int_repr as nat);
        int_repr
    }

    fn to_int_repr(value: u64) -> (int_repr: u64) {
        assert(value.as_nat() == value as nat);
        value
    }
}

impl LawfulSpecifier for B53 {
    proof fn lemma_lawful() {
        assert(<B53 as Specifier>::BITS == 53);
        assert(<B53 as Specifier>::width() == 53);
        assert(<u64 as StorageInt>::storage_type() == StorageType::U64);
        assert(<FiveMod8 as ResidueClass>::residue() == Residue::Five);
        assert forall|raw: nat| #[trigger] <B53 as Specifier>::valid_raw(raw) by {}
        assert forall|a: u64, b: u64|
            #[trigger] <B53 as Specifier>::raw(a) == #[trigger] <B53 as Specifier>::raw(
                b,
            ) implies a == b by {}
    }
}

/// The specifier of a field of 54 binary digits, held in a `u64`.
pub struct B54;

impl Specifier for B54 {
    const BITS: usize = 54;

    type TypeRepr = u64;

    type IntRepr = u64;

    type Mod8 = SixMod8;

    open spec fn width() -> nat {
        54
    }

    open spec fn raw(value: u64) -> nat {
        value as nat
    }

    open spec fn valid_raw(raw: nat) -> bool {
        true
    }

    fn to_type_repr(int_repr: u64) -> (value: u64) {
        assert(int_repr.as_nat() == int_repr as nat);
        int_repr
    }

    fn to_int_repr(value: u64) -> (int_repr: u64) {
        assert(value.as_nat() == value as nat);
        value
    }
}

impl LawfulSpecifier for B54 {
    proof fn lemma_lawful() {
        assert(<B54 as Specifier>::BITS == 54);
        assert(<B54 as Specifier>::width() == 54);
        assert(<u64 as StorageInt>::storage_type() == StorageType::U64);
        assert(<SixMod8 as ResidueClass>::residue() == Residue::Six);
        assert forall|raw: nat| #[trigger] <B54 as Specifier>::valid_raw(raw) by {}
        assert forall|a: u64, b: u64|
            #[trigger] <B54 as Specifier>::raw(a) == #[trigger] <B54 as Specifier>::raw(
                b,
            ) implies a == b by {}
    }
}

/// The specifier of a field of 55 binary digits, held in a `u64`.
pub struct B55;

impl Specifier for B55 {
    const BITS: usize = 55;

    type TypeRepr = u64;

    type IntRepr = u64;

    type Mod8 = SevenMod8;

    open spec fn width() -> nat {
        55
    }

    open spec fn raw(value: u64) -> nat {
        value as nat
    }

    open spec fn valid_raw(raw: nat) -> bool {
        true
    }

    fn to_type_repr(int_repr: u64) -> (value: u64) {
        assert(int_repr.as_nat() == int_repr as nat);
        int_repr
    }

    fn to_int_repr(value: u64) -> (int_repr: u64) {
        assert(value.as_nat() == value as nat);
        value
    }
}

impl LawfulSpecifier for B55 {
    proof fn lemma_lawful() {
        assert(<B55 as Specifier>::BITS == 55);
        assert(<B55 as Specifier>::width() == 55);
        assert(<u64 as StorageInt>::storage_type() == StorageType::U64);
        assert(<SevenMod8 as ResidueClass>::residue() == Residue::Seven);
        assert forall|raw: nat| #[trigger] <B55 as Specifier>::valid_raw(raw) by {}
        assert forall|a: u64, b: u64|
            #[trigger] <B55 as Specifier>::raw(a) == #[trigger] <B55 as Specifier>::raw(
                b,
            ) implies a == b by {}
    }
}

/// The specifier of a field of 56 binary digits, held in a `u64`.
pub struct B56;

impl Specifier for B56 {
    const BITS: usize = 56;

    type TypeRepr = u64;

    type IntRepr = u64;

    type Mod8 = ZeroMod8;

    open spec fn width() -> nat {
        56
    }

    open spec fn raw(value: u64) -> nat {
        value as nat
    }

    open spec fn valid_raw(raw: nat) -> bool {
        true
    }

    fn to_type_repr(int_repr: u64) -> (value: u64) {
        assert(int_repr.as_nat() == int_repr as nat);
        int_repr
    }

    fn to_int_repr(value: u64) -> (int_repr: u64) {
        assert(value.as_nat() == value as nat);
        value
    }
}

impl LawfulSpecifier for B56 {
    proof fn lemma_lawful() {
        assert(<B56 as Specifier>::BITS == 56);
        assert(<B56 as Specifier>::width() == 56);
        assert(<u64 as StorageInt>::storage_type() == StorageType::U64);
        assert(<ZeroMod8 as ResidueClass>::residue() == Residue::Zero);
        assert forall|raw: nat| #[trigger] <B56 as Specifier>::valid_raw(raw) by {}
        assert forall|a: u64, b: u64|
            #[trigger] <B56 as Specifier>::raw(a) == #[trigger] <B56 as Specifier>::raw(
                b,
            ) implies a == b by {}
    }
}

/// The specifier of a field of 57 binary digits, held in a `u64`.
pub struct B57;

impl Specifier for B57 {
    const BITS: usize = 57;

    type TypeRepr = u64;

    type IntRepr = u64;

    type Mod8 = OneMod8;

    open spec fn width() -> nat {
        57
    }

    open spec fn raw(value: u64) -> nat {
        value as nat
    }

    open spec fn valid_raw(raw: nat) -> bool {
        true
    }

    fn to_type_repr(int_repr: u64) -> (value: u64) {
        assert(int_repr.as_nat() == int_repr as nat);
        int_repr
    }

    fn to_int_repr(value: u64) -> (int_repr: u64) {
        assert(value.as_nat() == value as nat);
        value
    }
}

impl LawfulSpecifier for B57 {
    proof fn lemma_lawful() {
        assert(<B57 as Specifier>::BITS == 57);
        assert(<B57 as Specifier>::width() == 57);
        assert(<u64 as StorageInt>::storage_type() == StorageType::U64);
        assert(<OneMod8 as ResidueClass>::residue() == Residue::One);
        assert forall|raw: nat| #[trigger] <B57 as Specifier>::valid_raw(raw) by {}
        assert forall|a: u64, b: u64|
            #[trigger] <B57 as Specifier>::raw(a) == #[trigger] <B57 as Specifier>::raw(
                b,
            ) implies a == b by {}
    }
}

/// The specifier of a field of 58 binary digits, held in a `u64`.
pub struct B58;

impl Specifier for B58 {
    const BITS: usize = 58;

    type TypeRepr = u64;

    type IntRepr = u64;

    type Mod8 = TwoMod8;

    open spec fn width() -> nat {
        58
    }

    open spec fn raw(value: u64) -> nat {
        value as nat
    }

    open spec fn valid_raw(raw: nat) -> bool {
        true
    }

    fn to_type_repr(int_repr: u64) -> (value: u64) {
        assert(int_repr.as_nat() == int_repr as nat);
        int_repr
    }

    fn to_int_repr(value: u64) -> (int_repr: u64) {
        assert(value.as_nat() == value as nat);
        value
    }
}

impl LawfulSpecifier for B58 {
    proof fn lemma_lawful() {
        assert(<B58 as Specifier>::BITS == 58);
        assert(<B58 as Specifier>::width() == 58);
        assert(<u64 as StorageInt>::storage_type() == StorageType::U64);
        assert(<TwoMod8 as ResidueClass>::residue() == Residue::Two);
        assert forall|raw: nat| #[trigger] <B58 as Specifier>::valid_raw(raw) by {}
        assert forall|a: u64, b: u64|
            #[trigger] <B58 as Specifier>::raw(a) == #[trigger] <B58 as Specifier>::raw(
                b,
            ) implies a == b by {}
    }
}

/// The specifier of a field of 59 binary digits, held in a `u64`.
pub struct B59;

impl Specifier for B59 {
    const BITS: usize = 59;

    type TypeRepr = u64;

    type IntRepr = u64;

    type Mod8 = ThreeMod8;

    open spec fn width() -> nat {
        59
    }

    open spec fn raw(value: u64) -> nat {
        value as nat
    }

    open spec fn valid_raw(raw: nat) -> bool {
        true
    }

    fn to_type_repr(int_repr: u64) -> (value: u64) {
        assert(int_repr.as_nat() == int_repr as nat);
        int_repr
    }

    fn to_int_repr(value: u64) -> (int_repr: u64) {
        assert(value.as_nat() == value as nat);
        value
    }
}

impl LawfulSpecifier for B59 {
    proof fn lemma_lawful() {
        assert(<B59 as Specifier>::BITS == 59);
        assert(<B59 as Specifier>::width() == 59);
        assert(<u64 as StorageInt>::storage_type() == StorageType::U64);
        assert(<ThreeMod8 as ResidueClass>::residue() == Residue::Three);
        assert forall|raw: nat| #[trigger] <B59 as Specifier>::valid_raw(raw) by {}
        assert forall|a: u64, b: u64|
            #[trigger] <B59 as Specifier>::raw(a) == #[trigger] <B59 as Specifier>::raw(
                b,
            ) implies a == b by {}
    }
}

/// The specifier of a field of 60 binary digits, held in a `u64`.
pub struct B60;

impl Specifier for B60 {
    const BITS: usize = 60;

    type TypeRepr = u64;

    type IntRepr = u64;

    type Mod8 = FourMod8;

    open spec fn width() -> nat {
        60
    }

    open spec fn raw(value: u64) -> nat {
        value as nat
    }

    open spec fn valid_raw(raw: nat) -> bool {
        true
    }

    fn to_type_repr(int_repr: u64) -> (value: u64) {
        assert(int_repr.as_nat() == int_repr as nat);
        int_repr
    }

    fn to_int_repr(value: u64) -> (int_repr: u64) {
        assert(value.as_nat() == value as nat);
        value
    }
}

impl LawfulSpecifier for B60 {
    proof fn lemma_lawful() {
        assert(<B60 as Specifier>::BITS == 60);
        assert(<B60 as Specifier>::width() == 60);
        assert(<u64 as StorageInt>::storage_type() == StorageType::U64);
        assert(<FourMod8 as ResidueClass>::residue() == Residue::Four);
        assert forall|raw: nat| #[trigger] <B60 as Specifier>::valid_raw(raw) by {}
        assert forall|a: u64, b: u64|
            #[trigger] <B60 as Specifier>::raw(a) == #[trigger] <B60 as Specifier>::raw(
                b,
            ) implies a == b by {}
    }
}

/// The specifier of a field of 61 binary digits, held in a `u64`.
pub struct B61;

impl Specifier for B61 {
    const BITS: usize = 61;

    type TypeRepr = u64;

    type IntRepr = u64;

    type Mod8 = FiveMod8;

    open spec fn width() -> nat {
        61
    }

    open spec fn raw(value: u64) -> nat {
        value as nat
    }

    open spec fn valid_raw(raw: nat) -> bool {
        true
    }

    fn to_type_repr(int_repr: u64) -> (value: u64) {
        assert(int_repr.as_nat() == int_repr as nat);
        int_repr
    }

    fn to_int_repr(value: u64) -> (int_repr: u64) {
        assert(value.as_nat() == value as nat);
        value
    }
}

impl LawfulSpecifier for B61 {
    proof fn lemma_lawful() {
        assert(<B61 as Specifier>::BITS == 61);
        assert(<B61 as Specifier>::width() == 61);
        assert(<u64 as StorageInt>::storage_type() == StorageType::U64);
        assert(<FiveMod8 as ResidueClass>::residue() == Residue::Five);
        assert forall|raw: nat| #[trigger] <B61 as Specifier>::valid_raw(raw) by {}
        assert forall|a: u64, b: u64|
            #[trigger] <B61 as Specifier>::raw(a) == #[trigger] <B61 as Specifier>::raw(
                b,
            ) implies a == b by {}
    }
}

/// The specifier of a field of 62 binary digits, held in a `u64`.
pub struct B62;

impl Specifier for B62 {
    const BITS: usize = 62;

    type TypeRepr = u64;

    type IntRepr = u64;

    type Mod8 = SixMod8;

    open spec fn width() -> nat {
        62
    }

    open spec fn raw(value: u64) -> nat {
        value as nat
    }

    open spec fn valid_raw(raw: nat) -> bool {
        true
    }

    fn to_type_repr(int_repr: u64) -> (value: u64) {
        assert(int_repr.as_nat() == int_repr as nat);
        int_repr
    }

    fn to_int_repr(value: u64) -> (int_repr: u64) {
        assert(value.as_nat() == value as nat);
        value
    }
}

impl LawfulSpecifier for B62 {
    proof fn lemma_lawful() {
        assert(<B62 as Specifier>::BITS == 62);
        assert(<B62 as Specifier>::width() == 62);
        assert(<u64 as StorageInt>::storage_type() == StorageType::U64);
        assert(<SixMod8 as ResidueClass>::residue() == Residue::Six);
        assert forall|raw: nat| #[trigger] <B62 as Specifier>::valid_raw(raw) by {}
        assert forall|a: u64, b: u64|
            #[trigger] <B62 as Specifier>::raw(a) == #[trigger] <B62 as Specifier>::raw(
                b,
            ) implies a == b by {}
    }
}

/// The specifier of a field of 63 binary digits, held in a `u64`.
pub struct B63;

impl Specifier for B63 {
    const BITS: usize = 63;

    type TypeRepr = u64;

    type IntRepr = u64;

    type Mod8 = SevenMod8;

    open spec fn width() -> nat {
        63
    }

    open spec fn raw(value: u64) -> nat {
        value as nat
    }

    open spec fn valid_raw(raw: nat) -> bool {
        true
    }

    fn to_type_repr(int_repr: u64) -> (value: u64) {
        assert(int_repr.as_nat() == int_repr as nat);
        int_repr
    }

    fn to_int_repr(value: u64) -> (int_repr: u64) {
        assert(value.as_nat() == value as nat);
        value
    }
}

impl LawfulSpecifier for B63 {
    proof fn lemma_lawful() {
        assert(<B63 as Specifier>::BITS == 63);
        assert(<B63 as Specifier>::width() == 63);
        assert(<u64 as StorageInt>::storage_type() == StorageType::U64);
        assert(<SevenMod8 as ResidueClass>::residue() == Residue::Seven);
        assert forall|raw: nat| #[trigger] <B63 as Specifier>::valid_raw(raw) by {}
        assert forall|a: u64, b: u64|
            #[trigger] <B63 as Specifier>::raw(a) == #[trigger] <B63 as Specifier>::raw(
                b,
            ) implies a == b by {}
    }
}

/// The specifier of a field of 64 binary digits, held in a `u64`.
pub struct B64;

impl Specifier for B64 {
    const BITS: usize = 64;

    type TypeRepr = u64;

    type IntRepr = u64;

    type Mod8 = ZeroMod8;

    open spec fn width() -> nat {
        64
    }

    open spec fn raw(value: u64) -> nat {
        value as nat
    }

    open spec fn valid_raw(raw: nat) -> bool {
        true
    }

    fn to_type_repr(int_repr: u64) -> (value: u64) {
        assert(int_repr.as_nat() == int_repr as nat);
        int_repr
    }

    fn to_int_repr(value: u64) -> (int_repr: u64) {
        assert(value.as_nat() == value as nat);
        value
    }
}

impl LawfulSpecifier for B64 {
    proof fn lemma_lawful() {
        assert(<B64 as Specifier>::BITS == 64);
        assert(<B64 as Specifier>::width() == 64);
        assert(<u64 as StorageInt>::storage_type() == StorageType::U64);
        assert(<ZeroMod8 as ResidueClass>::residue() == Residue::Zero);
        assert forall|raw: nat| #[trigger] <B64 as Specifier>::valid_raw(raw) by {}
        assert forall|a: u64, b: u64|
            #[trigger] <B64 as Specifier>::raw(a) == #[trigger] <B64 as Specifier>::raw(
                b,
            ) implies a == b by {}
    }
}

} // verus!
