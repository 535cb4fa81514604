//! The layout of a packed struct: where each field starts, how many bytes the struct
//! takes, and the rule that the fields fill whole bytes.

use crate::item::{Data, Field, Fields, Item};
use crate::registry::{
    find_specifier, lemma_lookup_finds_entry, lookup, registry_wf, SpecifierInfo,
};
use crate::residue::{lemma_value_of_residue, Residue};
use crate::text::{decimal, push_decimal};
use vstd::prelude::*;
use vstd::string::StringExecFns;

verus! {

/// The offset of the field at `index` in a struct whose fields have the widths
/// `widths`: the sum of the widths of the fields before it.
pub open spec fn offset_of(widths: Seq<nat>, index: int) -> nat
    decreases index,
{
    if index <= 0 {
        0
    } else {
        offset_of(widths, index - 1) + widths[index - 1]
    }
}

/// The sum of all the widths.
pub open spec fn total_bits(widths: Seq<nat>) -> nat {
    offset_of(widths, widths.len() as int)
}

/// The remainder modulo eight that the widths before `index` add up to, when the
/// remainders are added one by one, starting from zero.
pub open spec fn folded_residue(widths: Seq<nat>, index: int) -> Residue
    decreases index,
{
    if index <= 0 {
        Residue::Zero
    } else {
        Residue::of(
            folded_residue(widths, index - 1).value() + Residue::of(widths[index - 1]).value(),
        )
    }
}

/// Adding the remainders one by one gives the remainder of the sum.
pub proof fn lemma_folded_residue(widths: Seq<nat>, index: int)
    requires
        0 <= index <= widths.len(),
    ensures
        folded_residue(widths, index) == Residue::of(offset_of(widths, index)),
        folded_residue(widths, index).value() == offset_of(widths, index) % 8,
    decreases index,
{
    if index > 0 {
        lemma_folded_residue(widths, index - 1);
    }
}

/// Offsets do not decrease from one field to a later one, and a field ends where the next
/// one starts or before.
pub proof fn lemma_offsets_ordered(widths: Seq<nat>, i: int, j: int)
    requires
        0 <= i <= j <= widths.len(),
    ensures
        offset_of(widths, i) <= offset_of(widths, j),
        i < j ==> offset_of(widths, i) + widths[i] <= offset_of(widths, j),
    decreases j - i,
{
    if i < j {
        lemma_offsets_ordered(widths, i, j - 1);
    }
}

/// Widths of at most `bound` each add up to at most `bound` times their number.
pub proof fn lemma_offset_bound(widths: Seq<nat>, index: int, bound: nat)
    requires
        0 <= index <= widths.len(),
        forall|i: int| 0 <= i < index ==> widths[i] <= bound,
    ensures
        offset_of(widths, index) <= index * bound,
    decreases index,
{
    if index > 0 {
        lemma_offset_bound(widths, index - 1, bound);
        assert(index * bound == (index - 1) * bound + bound) by (nonlinear_arith);
    }
}

/// Why a struct cannot be packed.
#[derive(Clone, Copy, Debug, PartialEq, Eq, Structural)]
pub enum BitfieldError {
    /// The item is no struct.
    NotAStruct,
    /// The fields of the struct have no names.
    NotNamedStruct,
    /// The type of the field at index `field` is no specifier that the registry knows.
    UnknownSpecifier { field: usize },
    /// The widths of the fields add up to `total_bits`, which is no multiple of eight.
    NotByteAligned { total_bits: usize },
}

impl BitfieldError {
    /// The text of the error, as a sequence of characters.
    pub open spec fn spec_message(self) -> Seq<char> {
        match self {
            BitfieldError::NotAStruct => "#[bitfield] must be used on a struct"@,
            BitfieldError::NotNamedStruct => "#[bitfield] must be used on a named struct"@,
            BitfieldError::UnknownSpecifier { field } => "the type of field "@ + decimal(
                field as nat,
            ) + " is not a known specifier"@,
            BitfieldError::NotByteAligned { total_bits } => "the fields take "@ + decimal(
                total_bits as nat,
            ) + " bits, which is not a multiple of 8"@,
        }
    }

    /// The text of the error.
    pub fn message(&self) -> (text: String)
        ensures
            text@ == self.spec_message(),
    {
        match self {
            BitfieldError::NotAStruct => String::from_str("#[bitfield] must be used on a struct"),
            BitfieldError::NotNamedStruct => String::from_str(
                "#[bitfield] must be used on a named struct",
            ),
            BitfieldError::UnknownSpecifier { field } => {
                let mut text = String::from_str("the type of field ");
                push_decimal(&mut text, *field);
                text.append(" is not a known specifier");
                text
            },
            BitfieldError::NotByteAligned { total_bits } => {
                let mut text = String::from_str("the fields take ");
                push_decimal(&mut text, *total_bits);
                text.append(" bits, which is not a multiple of 8");
                text
            },
        }
    }
}

/// The place of one field in the storage of a packed struct.
#[derive(Clone, Debug)]
pub struct FieldLayout {
    /// The name of the field.
    pub ident: String,
    /// The binary digit of the storage at which the field starts.
    pub offset: usize,
    /// The specifier of the field.
    pub specifier: SpecifierInfo,
}

/// The name of the getter of the field `ident`: `get_` and the name of the field.
pub fn getter_name(ident: &str) -> (name: String)
    ensures
        name@ == "get_"@ + ident@,
{
    String::from_str("get_").concat(ident)
}

/// The name of the setter of the field `ident`: `set_` and the name of the field.
pub fn setter_name(ident: &str) -> (name: String)
    ensures
        name@ == "set_"@ + ident@,
{
    String::from_str("set_").concat(ident)
}

/// The layout of a packed struct: the place of each field, in the order of declaration,
/// and the size of the storage.
#[derive(Clone, Debug)]
pub struct StructLayout {
    /// The place of each field.
    pub fields: Vec<FieldLayout>,
    /// The size of the storage in bytes.
    pub size: usize,
}

impl StructLayout {
    /// The widths of the fields, in their order.
    pub open spec fn widths(self) -> Seq<nat> {
        Seq::new(self.fields@.len(), |i: int| self.fields@[i].specifier.bits as nat)
    }

    /// The specifier of each field is well formed, each field starts where the one before
    /// it ends, the first at zero, and the storage holds them all with no digit left over.
    pub open spec fn wf(self) -> bool {
        &&& forall|i: int|
            0 <= i < self.fields@.len() ==> (#[trigger] self.fields@[i]).specifier.wf()
        &&& forall|i: int|
            0 <= i < self.fields@.len() ==> (#[trigger] self.fields@[i]).offset == offset_of(
                self.widths(),
                i,
            )
        &&& 8 * self.size == total_bits(self.widths())
    }

    /// Whether this is the layout of a struct with the fields `fields`, whose types stand
    /// for the specifiers that `registry` gives them.
    pub open spec fn lays_out(self, fields: Seq<Field>, registry: Seq<SpecifierInfo>) -> bool {
        &&& self.wf()
        &&& self.fields@.len() == fields.len()
        &&& forall|i: int|
            0 <= i < fields.len() ==> (#[trigger] self.fields@[i]).ident == fields[i].ident
                && lookup(registry, fields[i].ty@) == Some(self.fields@[i].specifier)
    }
}

/// In a layout, the first field starts at the first binary digit of the storage, each
/// other field starts where the field before it ends, and the last field ends where the
/// storage ends: the fields fill the storage and leave no digit out.
pub proof fn lemma_fields_fill_storage(layout: StructLayout, i: int)
    requires
        layout.wf(),
        0 <= i < layout.fields@.len(),
    ensures
        ({
            let field = layout.fields@[i];
            &&& i == 0 ==> field.offset == 0
            &&& i > 0 ==> {
                let before = layout.fields@[i - 1];
                field.offset == before.offset + before.specifier.bits
            }
            &&& i == layout.fields@.len() - 1 ==> field.offset + field.specifier.bits == 8
                * layout.size
        }),
{
    let widths = layout.widths();
    reveal_with_fuel(offset_of, 2);
    if i > 0 {
        assert(widths[i - 1] == layout.fields@[i - 1].specifier.bits);
    }
    assert(widths[i] == layout.fields@[i].specifier.bits);
}

/// In a layout, every field lies inside the storage, and a field ends before any later
/// one starts: the fields share no binary digit.
pub proof fn lemma_fields_apart(layout: StructLayout, i: int, j: int)
    requires
        layout.wf(),
        0 <= i < j < layout.fields@.len(),
    ensures
        layout.fields@[i].offset + layout.fields@[i].specifier.bits <= layout.fields@[j].offset,
        layout.fields@[j].offset + layout.fields@[j].specifier.bits <= 8 * layout.size,
{
    let widths = layout.widths();
    lemma_offsets_ordered(widths, i, j);
    lemma_offsets_ordered(widths, j, widths.len() as int);
}

/// Whether the types of the first `count` fields are names of specifiers in `registry`.
pub open spec fn specifiers_known(
    fields: Seq<Field>,
    registry: Seq<SpecifierInfo>,
    count: int,
) -> bool {
    forall|i: int| 0 <= i < count ==> lookup(registry, (#[trigger] fields[i]).ty@) is Some
}

/// The widths of the fields, as `registry` gives them.
pub open spec fn widths_of(fields: Seq<Field>, registry: Seq<SpecifierInfo>) -> Seq<nat> {
    Seq::new(fields.len(), |i: int| lookup(registry, fields[i].ty@).unwrap().bits as nat)
}

/// Lays out the fields of a struct in the order of their declaration: the first field at
/// offset zero, each other field at the end of the one before it. The width of a field
/// is that of the specifier in `registry` whose name is the field's type.
///
/// The fields are gone through in their order, and the first whose type `registry` does
/// not know is reported. The widths then have to add up to a whole number of bytes. This
/// is checked on their remainders modulo eight, which are added up field by field.
pub fn compute_layout(fields: &Vec<Field>, registry: &Vec<SpecifierInfo>) -> (r: Result<
    StructLayout,
    BitfieldError,
>)
    requires
        registry_wf(registry@),
        fields.len() * 64 <= usize::MAX,
    ensures
        match r {
            Ok(layout) => {
                &&& specifiers_known(fields@, registry@, fields.len() as int)
                &&& total_bits(widths_of(fields@, registry@)) % 8 == 0
                &&& layout.lays_out(fields@, registry@)
            },
            Err(BitfieldError::UnknownSpecifier { field }) => {
                &&& field < fields.len()
                &&& specifiers_known(fields@, registry@, field as int)
                &&& lookup(registry@, fields@[field as int].ty@) is None
            },
            Err(BitfieldError::NotByteAligned { total_bits: total }) => {
                &&& specifiers_known(fields@, registry@, fields.len() as int)
                &&& total == total_bits(widths_of(fields@, registry@))
                &&& total % 8 != 0
            },
            Err(_) => false,
        },
{
    let ghost widths = widths_of(fields@, registry@);
    let mut layout: Vec<FieldLayout> = Vec::new();
    let mut offset: usize = 0;
    let mut residue = Residue::Zero;
    let mut index: usize = 0;
    while index < fields.len()
        invariant
            index <= fields.len(),
            fields.len() * 64 <= usize::MAX,
            registry_wf(registry@),
            widths == widths_of(fields@, registry@),
            specifiers_known(fields@, registry@, index as int),
            offset == offset_of(widths, index as int),
            offset <= index * 64,
            residue == folded_residue(widths, index as int),
            layout@.len() == index,
            forall|i: int|
                0 <= i < index ==> (#[trigger] layout@[i]).ident == fields@[i].ident && lookup(
                    registry@,
                    fields@[i].ty@,
                ) == Some(layout@[i].specifier) && layout@[i].specifier.wf() && layout@[i].offset
                    == offset_of(widths, i),
        decreases fields.len() - index,
    {
        let field = &fields[index];
        let info = match find_specifier(registry, &field.ty) {
            Some(info) => info,
            None => {
                return Err(BitfieldError::UnknownSpecifier { field: index });
            },
        };
        proof {
            lemma_lookup_finds_entry(registry@, field.ty@, 0);
            lemma_value_of_residue(info.bits as nat);
            assert(index * 64 + 64 == (index + 1) * 64) by (nonlinear_arith);
            assert((index + 1) * 64 <= fields.len() * 64) by (nonlinear_arith)
                requires
                    index + 1 <= fields.len(),
            ;
        }
        let specifier = SpecifierInfo {
            name: info.name.clone(),
            bits: info.bits,
            type_repr: info.type_repr,
            int_repr: info.int_repr,
            mod8: info.mod8,
        };
        layout.push(FieldLayout { ident: field.ident.clone(), offset, specifier });
        residue = residue.plus(info.mod8);
        offset = offset + info.bits;
        index += 1;
    }
    proof {
        lemma_folded_residue(widths, fields.len() as int);
    }
    if !residue.is_zero() {
        return Err(BitfieldError::NotByteAligned { total_bits: offset });
    }
    let result = StructLayout { fields: layout, size: offset / 8 };
    proof {
        assert(result.widths() =~= widths);
    }
    Ok(result)
}

/// The layout of the packed struct that `item` declares.
///
/// Only a struct whose fields have names can be packed. Its fields are then laid out as
/// `compute_layout` says.
pub fn bitfield(item: &Item, registry: &Vec<SpecifierInfo>) -> (r: Result<
    StructLayout,
    BitfieldError,
>)
    requires
        registry_wf(registry@),
        item.data matches Data::Struct(Fields::Named(fields)) ==> fields.len() * 64 <= usize::MAX,
    ensures
        match item.data {
            Data::Struct(Fields::Named(fields)) => match r {
                Ok(layout) => {
                    &&& specifiers_known(fields@, registry@, fields.len() as int)
                    &&& total_bits(widths_of(fields@, registry@)) % 8 == 0
                    &&& layout.lays_out(fields@, registry@)
                },
                Err(BitfieldError::UnknownSpecifier { field }) => {
                    &&& field < fields.len()
                    &&& specifiers_known(fields@, registry@, field as int)
                    &&& lookup(registry@, fields@[field as int].ty@) is None
                },
                Err(BitfieldError::NotByteAligned { total_bits: total }) => {
                    &&& specifiers_known(fields@, registry@, fields.len() as int)
                    &&& total == total_bits(widths_of(fields@, registry@))
                    &&& total % 8 != 0
                },
                Err(_) => false,
            },
            Data::Struct(_) => r == Err::<StructLayout, BitfieldError>(
                BitfieldError::NotNamedStruct,
            ),
            _ => r == Err::<StructLayout, BitfieldError>(BitfieldError::NotAStruct),
        },
{
    match &item.data {
        Data::Struct(Fields::Named(fields)) => compute_layout(fields, registry),
        Data::Struct(_) => Err(BitfieldError::NotNamedStruct),
        _ => Err(BitfieldError::NotAStruct),
    }
}

} // verus!
