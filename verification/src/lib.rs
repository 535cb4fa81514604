pub mod bits;
pub mod buffer;
pub mod catalog;
pub mod derive;
pub mod ints;
pub mod item;
pub mod layout;
pub mod packed;
pub mod registry;
pub mod residue;
pub mod specifier;
pub mod storage;
pub mod text;

pub use crate::buffer::{get_bits, set_bits};
pub use crate::catalog::{
    B1, B2, B3, B4, B5, B6, B7, B8, B9, B10, B11, B12, B13, B14, B15, B16, B17, B18, B19, B20,
    B21, B22, B23, B24, B25, B26, B27, B28, B29, B30, B31, B32, B33, B34, B35, B36, B37, B38,
    B39, B40, B41, B42, B43, B44, B45, B46, B47, B48, B49, B50, B51, B52, B53, B54, B55, B56,
    B57, B58, B59, B60, B61, B62, B63, B64,
};
pub use crate::derive::{derive_bitfield_specifier, validate_discriminants, DeriveError};
pub use crate::ints::{BitsExt, LastByte};
pub use crate::item::{
    get_discriminant, Data, Discriminant, DiscriminantExpr, Field, Fields, Item, Variant,
};
pub use crate::layout::{
    bitfield, compute_layout, getter_name, setter_name, BitfieldError, FieldLayout, StructLayout,
};
pub use crate::packed::Packed;
pub use crate::registry::{
    builtin_specifiers, find_specifier, generate_specifiers, layout_of, SpecifierInfo, ValueType,
};
pub use crate::residue::{
    generate_mod8_impls, get_type_mod8, lookup_sum, AddMod8, CAddMod8, FiveMod8, FourMod8,
    Mod8Impl, OneMod8, Residue, ResidueClass, SevenMod8, SixMod8, SumLaw, ThreeMod8,
    TotalSizeIsMultipleOfEightBits, TwoMod8, ZeroMod8,
};
pub use crate::specifier::{LawfulSpecifier, Specifier};
pub use crate::storage::{get_int_repr, StorageInt, StorageType};
