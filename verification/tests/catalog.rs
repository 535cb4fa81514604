use bitfield::{
    generate_specifiers, get_int_repr, layout_of, Residue, ResidueClass, Specifier, StorageType,
    ValueType,
};
use bitfield::{B1, B16, B17, B2, B24, B3, B32, B33, B40, B63, B64, B7, B8, B9};

#[test]
fn the_catalog_has_a_specifier_for_each_width_from_1_to_64() {
    let catalog = generate_specifiers();
    assert_eq!(catalog.len(), 64);
    for (i, info) in catalog.iter().enumerate() {
        let bits = i + 1;
        assert_eq!(info.bits, bits);
        assert_eq!(info.name, format!("B{}", bits));
        let expected = if bits <= 8 {
            StorageType::U8
        } else if bits <= 16 {
            StorageType::U16
        } else if bits <= 32 {
            StorageType::U32
        } else {
            StorageType::U64
        };
        assert_eq!(info.type_repr, ValueType::Integer);
        assert_eq!(info.int_repr, expected);
        assert_eq!(info.mod8.index(), bits % 8);
    }
    assert_eq!(catalog[0].name, "B1");
    assert_eq!(catalog[9].name, "B10");
    assert_eq!(catalog[63].name, "B64");
}

#[test]
fn the_storage_type_is_the_smallest_with_room() {
    assert_eq!(get_int_repr(0), StorageType::U8);
    assert_eq!(get_int_repr(1), StorageType::U8);
    assert_eq!(get_int_repr(8), StorageType::U8);
    assert_eq!(get_int_repr(9), StorageType::U16);
    assert_eq!(get_int_repr(16), StorageType::U16);
    assert_eq!(get_int_repr(17), StorageType::U32);
    assert_eq!(get_int_repr(32), StorageType::U32);
    assert_eq!(get_int_repr(33), StorageType::U64);
    assert_eq!(get_int_repr(64), StorageType::U64);
}

#[test]
fn storage_types_have_widths_and_names() {
    assert_eq!(StorageType::U8.width(), 8);
    assert_eq!(StorageType::U16.width(), 16);
    assert_eq!(StorageType::U32.width(), 32);
    assert_eq!(StorageType::U64.width(), 64);
    assert_eq!(StorageType::U8.name(), "u8");
    assert_eq!(StorageType::U16.name(), "u16");
    assert_eq!(StorageType::U32.name(), "u32");
    assert_eq!(StorageType::U64.name(), "u64");
}

#[test]
fn the_layout_of_a_width() {
    assert_eq!(layout_of(1), (StorageType::U8, Residue::One));
    assert_eq!(layout_of(8), (StorageType::U8, Residue::Zero));
    assert_eq!(layout_of(9), (StorageType::U16, Residue::One));
    assert_eq!(layout_of(13), (StorageType::U16, Residue::Five));
    assert_eq!(layout_of(24), (StorageType::U32, Residue::Zero));
    assert_eq!(layout_of(47), (StorageType::U64, Residue::Seven));
    assert_eq!(layout_of(64), (StorageType::U64, Residue::Zero));
}

fn describe<S: Specifier>() -> (usize, usize, Residue) {
    (S::BITS, std::mem::size_of::<S::IntRepr>() * 8, <S::Mod8 as ResidueClass>::class())
}

#[test]
fn the_plain_specifiers_agree_with_the_catalog() {
    let seen = [
        describe::<B1>(),
        describe::<B2>(),
        describe::<B3>(),
        describe::<B7>(),
        describe::<B8>(),
        describe::<B9>(),
        describe::<B16>(),
        describe::<B17>(),
        describe::<B24>(),
        describe::<B32>(),
        describe::<B33>(),
        describe::<B40>(),
        describe::<B63>(),
        describe::<B64>(),
    ];
    let widths = [1, 2, 3, 7, 8, 9, 16, 17, 24, 32, 33, 40, 63, 64];
    let catalog = generate_specifiers();
    for (seen, width) in seen.iter().zip(widths) {
        let info = &catalog[width - 1];
        assert_eq!(seen.0, width);
        assert_eq!(seen.0, info.bits);
        assert_eq!(seen.1, info.int_repr.width());
        assert_eq!(seen.2, info.mod8);
    }
}

#[test]
fn bool_is_laid_out_as_one_bit() {
    assert_eq!(describe::<bool>(), (1, 8, Residue::One));
}

#[test]
fn well_formed_records() {
    for info in bitfield::builtin_specifiers() {
        assert!(info.is_wf());
    }
    let good = bitfield::SpecifierInfo {
        name: "Nine".to_string(),
        bits: 9,
        type_repr: ValueType::Integer,
        int_repr: StorageType::U16,
        mod8: Residue::One,
    };
    assert!(good.is_wf());
    let too_wide = bitfield::SpecifierInfo { bits: 65, ..good.clone() };
    assert!(!too_wide.is_wf());
    let wrong_storage = bitfield::SpecifierInfo { int_repr: StorageType::U32, ..good.clone() };
    assert!(!wrong_storage.is_wf());
    let wrong_residue = bitfield::SpecifierInfo { mod8: Residue::Two, ..good.clone() };
    assert!(!wrong_residue.is_wf());
    let wide_bool = bitfield::SpecifierInfo { type_repr: ValueType::Bool, ..good.clone() };
    assert!(!wide_bool.is_wf());
    let empty = bitfield::SpecifierInfo {
        name: "Nothing".to_string(),
        bits: 0,
        type_repr: ValueType::Enum,
        int_repr: StorageType::U8,
        mod8: Residue::Zero,
    };
    assert!(empty.is_wf());
}
