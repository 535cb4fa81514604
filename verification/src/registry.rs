//! Specifiers as records: what a generator of packed structs has to know of each.

use crate::residue::{get_type_mod8, Residue};
use crate::storage::{get_int_repr, StorageType};
use crate::text::{decimal, push_decimal};
use vstd::prelude::*;
use vstd::string::StringExecFns;

verus! {

/// The storage type and the remainder modulo eight of a field of `width` binary digits.
pub fn layout_of(width: usize) -> (layout: (StorageType, Residue))
    requires
        width <= 64,
    ensures
        layout.0 == StorageType::smallest_for(width as nat),
        layout.1 == Residue::of(width as nat),
{
    (get_int_repr(width), get_type_mod8(width))
}

/// As what a getter hands the value of a field out, and a setter takes it.
#[derive(Clone, Copy, Debug, PartialEq, Eq, Structural)]
pub enum ValueType {
    /// As the raw number, in the storage type.
    Integer,
    /// As a `bool`: the raw number 1 is `true`, the raw number 0 is `false`.
    Bool,
    /// As a variant of the enum that the specifier is: the one whose discriminant the
    /// raw number is.
    Enum,
}

/// The record of one specifier: its name and its layout.
#[derive(Clone, Debug)]
pub struct SpecifierInfo {
    /// The name of the specifier's type.
    pub name: String,
    /// The width of the field in binary digits.
    pub bits: usize,
    /// As what the value of the field is seen from outside.
    pub type_repr: ValueType,
    /// The unsigned integer type that holds the raw value.
    pub int_repr: StorageType,
    /// The remainder of the width modulo eight.
    pub mod8: Residue,
}

impl SpecifierInfo {
    /// The width is at most 64, the storage type is the smallest with room for the width,
    /// the remainder is that of the width, and a `bool` takes one binary digit.
    pub open spec fn wf(self) -> bool {
        &&& self.bits <= 64
        &&& self.int_repr == StorageType::smallest_for(self.bits as nat)
        &&& self.mod8 == Residue::of(self.bits as nat)
        &&& self.type_repr == ValueType::Bool ==> self.bits == 1
    }

    /// Whether the record is well formed.
    pub fn is_wf(&self) -> (wf: bool)
        ensures
            wf == self.wf(),
    {
        if self.bits > 64 {
            return false;
        }
        let (int_repr, mod8) = layout_of(self.bits);
        self.int_repr == int_repr && self.mod8 == mod8 && (self.type_repr != ValueType::Bool
            || self.bits == 1)
    }

    /// The name of the type as which the value of the field is seen from outside.
    pub open spec fn spec_repr_name(self) -> Seq<char> {
        match self.type_repr {
            ValueType::Integer => StorageType::spec_name(self.int_repr),
            ValueType::Bool => "bool"@,
            ValueType::Enum => self.name@,
        }
    }

    /// The name of the type as which the value of the field is seen from outside: the
    /// storage type, `bool`, or the enum itself.
    pub fn repr_name(&self) -> (name: String)
        ensures
            name@ == self.spec_repr_name(),
    {
        match self.type_repr {
            ValueType::Integer => String::from_str(self.int_repr.name()),
            ValueType::Bool => String::from_str("bool"),
            ValueType::Enum => self.name.clone(),
        }
    }
}

/// The first entry of `registry` from the index `from` on that has the name `ty`.
pub open spec fn lookup_from(registry: Seq<SpecifierInfo>, ty: Seq<char>, from: int) -> Option<
    SpecifierInfo,
>
    decreases registry.len() - from,
{
    if from < 0 || from >= registry.len() {
        None
    } else if registry[from].name@ == ty {
        Some(registry[from])
    } else {
        lookup_from(registry, ty, from + 1)
    }
}

/// The first entry of `registry` that has the name `ty`.
pub open spec fn lookup(registry: Seq<SpecifierInfo>, ty: Seq<char>) -> Option<SpecifierInfo> {
    lookup_from(registry, ty, 0)
}

/// Whether every entry of `registry` is well formed.
pub open spec fn registry_wf(registry: Seq<SpecifierInfo>) -> bool {
    forall|i: int| 0 <= i < registry.len() ==> (#[trigger] registry[i]).wf()
}

/// What `lookup` finds is an entry of the registry.
pub proof fn lemma_lookup_finds_entry(registry: Seq<SpecifierInfo>, ty: Seq<char>, from: int)
    requires
        0 <= from,
    ensures
        lookup_from(registry, ty, from) matches Some(info) ==> info.name@ == ty && exists|i: int|
            from <= i < registry.len() && registry[i] == info,
        lookup_from(registry, ty, from) is None ==> forall|i: int|
            from <= i < registry.len() ==> (#[trigger] registry[i]).name@ != ty,
    decreases registry.len() - from,
{
    if from < registry.len() && registry[from].name@ != ty {
        lemma_lookup_finds_entry(registry, ty, from + 1);
    }
}

/// Looks the specifier with the name `ty` up in `registry`. Of two entries with this name
/// the first is found.
pub fn find_specifier<'a>(registry: &'a Vec<SpecifierInfo>, ty: &String) -> (found: Option<
    &'a SpecifierInfo,
>)
    ensures
        match found {
            Some(info) => lookup(registry@, ty@) == Some(*info),
            None => lookup(registry@, ty@) is None,
        },
{
    let mut index: usize = 0;
    while index < registry.len()
        invariant
            index <= registry.len(),
            lookup(registry@, ty@) == lookup_from(registry@, ty@, index as int),
        decreases registry.len() - index,
    {
        if registry[index].name == *ty {
            return Some(&registry[index]);
        }
        index += 1;
    }
    None
}

/// The specifiers that every program has: the plain ones for the widths from 1 to 64,
/// and after them `bool`, which takes one binary digit.
pub fn builtin_specifiers() -> (registry: Vec<SpecifierInfo>)
    ensures
        registry.len() == 65,
        registry_wf(registry@),
        forall|i: int|
            0 <= i < 64 ==> (#[trigger] registry[i]).bits == i + 1 && registry[i].name@
                == specifier_name((i + 1) as nat),
        forall|i: int| 0 <= i < 64 ==> (#[trigger] registry[i]).type_repr == ValueType::Integer,
        registry[64].bits == 1,
        registry[64].name@ == "bool"@,
        registry[64].type_repr == ValueType::Bool,
{
    let mut registry = generate_specifiers();
    let (int_repr, mod8) = layout_of(1);
    registry.push(
        SpecifierInfo {
            name: String::from_str("bool"),
            bits: 1,
            type_repr: ValueType::Bool,
            int_repr,
            mod8,
        },
    );
    registry
}

/// The name of the plain specifier of `bits` binary digits: the letter B and the width.
pub open spec fn specifier_name(bits: nat) -> Seq<char> {
    seq!['B'] + decimal(bits)
}

/// The catalog of the plain specifiers: one for each width from 1 to 64, in this order.
pub fn generate_specifiers() -> (catalog: Vec<SpecifierInfo>)
    ensures
        catalog.len() == 64,
        forall|i: int|
            0 <= i < 64 ==> {
                &&& (#[trigger] catalog[i]).bits == i + 1
                &&& catalog[i].name@ == specifier_name((i + 1) as nat)
                &&& catalog[i].type_repr == ValueType::Integer
                &&& catalog[i].wf()
            },
{
    let mut catalog: Vec<SpecifierInfo> = Vec::new();
    let mut index: usize = 1;
    while index <= 64
        invariant
            1 <= index <= 65,
            catalog.len() == index - 1,
            forall|i: int|
                0 <= i < index - 1 ==> {
                    &&& (#[trigger] catalog[i]).bits == i + 1
                    &&& catalog[i].name@ == specifier_name((i + 1) as nat)
                    &&& catalog[i].type_repr == ValueType::Integer
                    &&& catalog[i].wf()
                },
        decreases 65 - index,
    {
        let mut name = String::from_str("B");
        proof {
            reveal_strlit("B");
            assert(name@ =~= seq!['B']);
        }
        push_decimal(&mut name, index);
        let (int_repr, mod8) = layout_of(index);
        let info = SpecifierInfo {
            name,
            bits: index,
            type_repr: ValueType::Integer,
            int_repr,
            mod8,
        };
        catalog.push(info);
        index += 1;
    }
    catalog
}

} // verus!
