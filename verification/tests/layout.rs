use bitfield::{
    bitfield, builtin_specifiers, compute_layout, derive_bitfield_specifier, find_specifier,
    getter_name, setter_name, BitfieldError, Data, Field, Fields, Item, Packed, Residue,
    SpecifierInfo, StorageType, ValueType, Variant,
};

fn fields(widths: &[usize]) -> Vec<Field> {
    widths
        .iter()
        .enumerate()
        .map(|(i, bits)| Field { ident: format!("f{}", i), ty: format!("B{}", bits) })
        .collect()
}

fn a_struct(widths: &[usize]) -> Item {
    Item { ident: "S".to_string(), data: Data::Struct(Fields::Named(fields(widths))) }
}

fn layout_of(widths: &[usize]) -> Result<bitfield::StructLayout, BitfieldError> {
    compute_layout(&fields(widths), &builtin_specifiers())
}

#[test]
fn the_builtin_specifiers_are_the_plain_ones_and_bool() {
    let registry = builtin_specifiers();
    assert_eq!(registry.len(), 65);
    for bits in 1..=64usize {
        let info = find_specifier(&registry, &format!("B{}", bits)).unwrap();
        assert_eq!(info.bits, bits);
        assert_eq!(info.name, format!("B{}", bits));
    }
    for info in &registry[..64] {
        assert_eq!(info.type_repr, ValueType::Integer);
        assert_eq!(info.repr_name(), info.int_repr.name());
    }
    let info = find_specifier(&registry, &"bool".to_string()).unwrap();
    assert_eq!(info.bits, 1);
    assert_eq!(info.type_repr, ValueType::Bool);
    assert_eq!(info.repr_name(), "bool");
    assert_eq!(info.int_repr, StorageType::U8);
    assert_eq!(info.mod8, Residue::One);
    assert!(find_specifier(&registry, &"B0".to_string()).is_none());
    assert!(find_specifier(&registry, &"B65".to_string()).is_none());
    assert!(find_specifier(&registry, &"u8".to_string()).is_none());
    assert!(find_specifier(&registry, &"".to_string()).is_none());
    assert!(find_specifier(&Vec::new(), &"B1".to_string()).is_none());
}

#[test]
fn of_two_specifiers_with_one_name_the_first_is_found() {
    let entry = |bits: usize| SpecifierInfo {
        name: "Twice".to_string(),
        bits,
        type_repr: ValueType::Integer,
        int_repr: StorageType::U8,
        mod8: Residue::from_index(bits),
    };
    let registry = vec![entry(3), entry(5)];
    assert_eq!(find_specifier(&registry, &"Twice".to_string()).unwrap().bits, 3);
}

#[test]
fn fields_follow_one_another_from_offset_zero() {
    let layout = layout_of(&[1, 3, 4, 24]).unwrap();
    assert_eq!(layout.size, 4);
    let places: Vec<(String, usize, usize, String)> = layout
        .fields
        .iter()
        .map(|f| (f.ident.clone(), f.offset, f.specifier.bits, f.specifier.name.clone()))
        .collect();
    assert_eq!(
        places,
        vec![
            ("f0".to_string(), 0, 1, "B1".to_string()),
            ("f1".to_string(), 1, 3, "B3".to_string()),
            ("f2".to_string(), 4, 4, "B4".to_string()),
            ("f3".to_string(), 8, 24, "B24".to_string())
        ]
    );
    assert_eq!(layout.fields[3].specifier.int_repr, StorageType::U32);
    assert_eq!(layout.fields[1].specifier.mod8, Residue::Three);
}

#[test]
fn fields_keep_the_order_of_their_declaration() {
    let layout = layout_of(&[24, 1, 4, 3]).unwrap();
    let offsets: Vec<usize> = layout.fields.iter().map(|f| f.offset).collect();
    assert_eq!(offsets, vec![0, 24, 25, 29]);
    assert_eq!(layout.size, 4);
}

#[test]
fn the_size_is_the_total_width_in_bytes() {
    assert_eq!(layout_of(&[]).unwrap().size, 0);
    assert_eq!(layout_of(&[8]).unwrap().size, 1);
    assert_eq!(layout_of(&[64, 64, 64]).unwrap().size, 24);
    assert_eq!(layout_of(&[7, 9]).unwrap().size, 2);
}

#[test]
fn a_total_width_that_is_no_multiple_of_eight_is_refused() {
    assert_eq!(
        layout_of(&[1, 3, 4, 23]).unwrap_err(),
        BitfieldError::NotByteAligned { total_bits: 31 }
    );
    assert_eq!(layout_of(&[1]).unwrap_err(), BitfieldError::NotByteAligned { total_bits: 1 });
    assert_eq!(
        layout_of(&[64, 63]).unwrap_err(),
        BitfieldError::NotByteAligned { total_bits: 127 }
    );
}

#[test]
fn a_layout_is_given_exactly_for_whole_bytes() {
    let registry = builtin_specifiers();
    for a in 1..=20usize {
        for b in 1..=20usize {
            for c in [1usize, 2, 5, 64] {
                let r = compute_layout(&fields(&[a, b, c]), &registry);
                assert_eq!(r.is_ok(), (a + b + c) % 8 == 0);
                match r {
                    Ok(layout) => assert_eq!(layout.size * 8, a + b + c),
                    Err(e) => {
                        assert_eq!(e, BitfieldError::NotByteAligned { total_bits: a + b + c })
                    }
                }
            }
        }
    }
}

#[test]
fn a_field_of_an_unknown_type_is_reported() {
    let registry = builtin_specifiers();
    let mut some = fields(&[3, 5, 8]);
    some[1].ty = "Colour".to_string();
    assert_eq!(
        compute_layout(&some, &registry).unwrap_err(),
        BitfieldError::UnknownSpecifier { field: 1 }
    );
    // the first unknown type is reported, before the total width is looked at
    let mut some = fields(&[3, 4, 8, 1]);
    some[2].ty = "Colour".to_string();
    some[3].ty = "Shape".to_string();
    assert_eq!(
        compute_layout(&some, &registry).unwrap_err(),
        BitfieldError::UnknownSpecifier { field: 2 }
    );
    assert_eq!(
        compute_layout(&fields(&[8]), &Vec::new()).unwrap_err(),
        BitfieldError::UnknownSpecifier { field: 0 }
    );
}

#[test]
fn bool_and_derived_specifiers_take_part_in_a_layout() {
    let mut registry = builtin_specifiers();
    let variants: Vec<Variant> = ["Red", "Green", "Blue", "Black"]
        .iter()
        .map(|name| Variant { ident: name.to_string(), discriminant: None })
        .collect();
    let colour = Item { ident: "Colour".to_string(), data: Data::Enum(variants) };
    registry.push(derive_bitfield_specifier(&colour).unwrap());
    let some = vec![
        Field { ident: "on".to_string(), ty: "bool".to_string() },
        Field { ident: "colour".to_string(), ty: "Colour".to_string() },
        Field { ident: "level".to_string(), ty: "B5".to_string() },
    ];
    let layout = compute_layout(&some, &registry).unwrap();
    assert_eq!(layout.size, 1);
    let places: Vec<(usize, usize)> =
        layout.fields.iter().map(|f| (f.offset, f.specifier.bits)).collect();
    assert_eq!(places, vec![(0, 1), (1, 2), (3, 5)]);
}

#[test]
fn only_a_struct_with_named_fields_is_packed() {
    let registry = builtin_specifiers();
    assert_eq!(bitfield(&a_struct(&[3, 5]), &registry).unwrap().size, 1);
    assert_eq!(
        bitfield(&a_struct(&[3, 4]), &registry).unwrap_err(),
        BitfieldError::NotByteAligned { total_bits: 7 }
    );
    let tuple = Item { ident: "T".to_string(), data: Data::Struct(Fields::Unnamed) };
    assert_eq!(bitfield(&tuple, &registry).unwrap_err(), BitfieldError::NotNamedStruct);
    let unit = Item { ident: "U".to_string(), data: Data::Struct(Fields::Unit) };
    assert_eq!(bitfield(&unit, &registry).unwrap_err(), BitfieldError::NotNamedStruct);
    let variants = vec![Variant { ident: "A".to_string(), discriminant: None }];
    let an_enum = Item { ident: "E".to_string(), data: Data::Enum(variants) };
    assert_eq!(bitfield(&an_enum, &registry).unwrap_err(), BitfieldError::NotAStruct);
    let a_union = Item { ident: "N".to_string(), data: Data::Union };
    assert_eq!(bitfield(&a_union, &registry).unwrap_err(), BitfieldError::NotAStruct);
}

#[test]
fn error_messages_of_the_transformer() {
    assert_eq!(BitfieldError::NotAStruct.message(), "#[bitfield] must be used on a struct");
    assert_eq!(
        BitfieldError::NotNamedStruct.message(),
        "#[bitfield] must be used on a named struct"
    );
    assert_eq!(
        BitfieldError::NotByteAligned { total_bits: 31 }.message(),
        "the fields take 31 bits, which is not a multiple of 8"
    );
    assert_eq!(
        BitfieldError::UnknownSpecifier { field: 12 }.message(),
        "the type of field 12 is not a known specifier"
    );
}

#[test]
fn accessors_are_named_after_their_fields() {
    assert_eq!(getter_name("head"), "get_head");
    assert_eq!(setter_name("head"), "set_head");
    assert_eq!(getter_name("tail_len"), "get_tail_len");
    assert_eq!(setter_name("tail_len"), "set_tail_len");
    assert_eq!(getter_name(""), "get_");
}

#[test]
fn a_new_packed_struct_holds_zero_everywhere() {
    let packed = Packed::new(layout_of(&[1, 3, 4, 24]).unwrap());
    assert_eq!(packed.as_bytes(), &[0u8; 4]);
    for i in 0..4 {
        assert_eq!(packed.get(i), 0);
    }
    let empty = Packed::new(layout_of(&[]).unwrap());
    assert_eq!(empty.as_bytes().len(), 0);
}

#[test]
fn a_setter_changes_its_own_field_only() {
    let widths = [1usize, 3, 4, 24, 13, 64, 11];
    let mut packed = Packed::new(layout_of(&widths).unwrap());
    let max = |bits: usize| if bits == 64 { u64::MAX } else { (1u64 << bits) - 1 };
    let mut expected = [0u64; 7];
    // set every field to all ones, one after the other, then to a pattern, then to zero
    for round in 0..3 {
        for i in 0..widths.len() {
            let value = match round {
                0 => max(widths[i]),
                1 => 0x5a5a_5a5a_5a5a_5a5a & max(widths[i]),
                _ => 0,
            };
            packed.set(i, value);
            expected[i] = value;
            for j in 0..widths.len() {
                assert_eq!(packed.get(j), expected[j]);
            }
        }
    }
    assert_eq!(packed.as_bytes(), &[0u8; 15]);
}

#[test]
fn the_storage_of_a_packed_struct() {
    let mut packed = Packed::new(layout_of(&[1, 3, 4, 24]).unwrap());
    packed.set(0, 1);
    packed.set(1, 0b010);
    packed.set(2, 0b1001);
    packed.set(3, 0xabcdef);
    assert_eq!(packed.as_bytes(), &[0b1001_0101, 0xef, 0xcd, 0xab]);
    assert_eq!(packed.get(0), 1);
    assert_eq!(packed.get(1), 0b010);
    assert_eq!(packed.get(2), 0b1001);
    assert_eq!(packed.get(3), 0xabcdef);
}
