//! A packed struct at run time: the bytes of its storage, read and written field by field.

use crate::buffer::{
    bits_of, field_value, get_bits, lemma_set_keeps_other_field, set_bits, with_field,
};
use crate::layout::{lemma_fields_apart, lemma_offsets_ordered, StructLayout};
use vstd::arithmetic::power2::pow2;
use vstd::prelude::*;

verus! {

/// A packed struct: a layout and the bytes that hold the fields.
#[derive(Clone, Debug)]
pub struct Packed {
    layout: StructLayout,
    data: Vec<u8>,
}

impl Packed {
    /// The layout is well formed, and the storage has the size that the layout gives.
    pub open spec fn wf(self) -> bool {
        &&& self.layout().wf()
        &&& self.bytes().len() == self.layout().size
    }

    /// The layout of the struct.
    pub closed spec fn layout(self) -> StructLayout {
        self.layout
    }

    /// The bytes of the storage.
    pub closed spec fn bytes(self) -> Seq<u8> {
        self.data@
    }

    /// The number of fields.
    pub open spec fn len(self) -> nat {
        self.layout().fields@.len()
    }

    /// The raw value that the field at `index` holds.
    pub open spec fn field(self, index: int) -> nat {
        field_value(
            self.bytes(),
            self.layout().fields@[index].offset as nat,
            self.layout().fields@[index].specifier.bits as nat,
        )
    }

    /// A struct with the layout `layout` whose storage holds zero in every byte.
    pub fn new(layout: StructLayout) -> (packed: Packed)
        requires
            layout.wf(),
        ensures
            packed.wf(),
            packed.layout() == layout,
            packed.bytes() == Seq::new(layout.size as nat, |i: int| 0u8),
    {
        let data = vec![0u8; layout.size];
        assert(data@ =~= Seq::new(layout.size as nat, |i: int| 0u8));
        Packed { layout, data }
    }

    /// The bytes of the storage.
    pub fn as_bytes(&self) -> (bytes: &[u8])
        ensures
            bytes@ == self.bytes(),
    {
        self.data.as_slice()
    }

    /// The raw value of the field at `index`.
    pub fn get(&self, index: usize) -> (value: u64)
        requires
            self.wf(),
            index < self.len(),
        ensures
            value == self.field(index as int),
    {
        proof {
            lemma_offsets_ordered(
                self.layout.widths(),
                index as int,
                self.layout.fields@.len() as int,
            );
        }
        let field = &self.layout.fields[index];
        get_bits(self.data.as_slice(), field.offset, field.specifier.bits)
    }

    /// Writes the raw value `value` into the field at `index`. Every other field keeps
    /// its value.
    pub fn set(&mut self, index: usize, value: u64)
        requires
            old(self).wf(),
            index < old(self).len(),
            (value as nat) < pow2(old(self).layout().fields@[index as int].specifier.bits as nat),
        ensures
            final(self).wf(),
            final(self).layout() == old(self).layout(),
            final(self).field(index as int) == value,
            forall|other: int|
                0 <= other < old(self).len() && other != index ==> final(self).field(other) == old(
                    self,
                ).field(other),
            bits_of(final(self).bytes()) == with_field(
                bits_of(old(self).bytes()),
                old(self).layout().fields@[index as int].offset as nat,
                old(self).layout().fields@[index as int].specifier.bits as nat,
                value as nat,
            ),
    {
        proof {
            lemma_offsets_ordered(
                self.layout.widths(),
                index as int,
                self.layout.fields@.len() as int,
            );
        }
        let offset = self.layout.fields[index].offset;
        let bits = self.layout.fields[index].specifier.bits;
        let ghost before = self.data@;
        set_bits(self.data.as_mut_slice(), offset, bits, value);
        proof {
            let layout = self.layout;
            assert forall|other: int|
                0 <= other < layout.fields@.len() && other != index implies field_value(
                self.data@,
                layout.fields@[other].offset as nat,
                layout.fields@[other].specifier.bits as nat,
            ) == field_value(
                before,
                layout.fields@[other].offset as nat,
                layout.fields@[other].specifier.bits as nat,
            ) by {
                if other < index {
                    lemma_fields_apart(layout, other, index as int);
                } else {
                    lemma_fields_apart(layout, index as int, other);
                }
                lemma_offsets_ordered(layout.widths(), other, layout.fields@.len() as int);
                lemma_set_keeps_other_field(
                    before,
                    self.data@,
                    offset as nat,
                    bits as nat,
                    value as nat,
                    layout.fields@[other].offset as nat,
                    layout.fields@[other].specifier.bits as nat,
                );
            }
        }
    }
}

} // verus!
