use bitfield::derive::{to_variant, variant_tags};
use bitfield::{
    derive_bitfield_specifier, get_discriminant, validate_discriminants, Data, DeriveError,
    Discriminant, DiscriminantExpr, Field, Fields, Item, Residue, StorageType, ValueType,
    Variant,
};

fn variant(name: &str, discriminant: Option<DiscriminantExpr>) -> Variant {
    Variant { ident: name.to_string(), discriminant }
}

fn plain(count: usize) -> Vec<Variant> {
    (0..count).map(|i| variant(&format!("V{}", i), None)).collect()
}

fn tagged(tags: &[Option<isize>]) -> Vec<Variant> {
    tags.iter()
        .enumerate()
        .map(|(i, tag)| variant(&format!("V{}", i), tag.map(DiscriminantExpr::IntLiteral)))
        .collect()
}

fn an_enum(name: &str, variants: Vec<Variant>) -> Item {
    Item { ident: name.to_string(), data: Data::Enum(variants) }
}

#[test]
fn an_enum_with_two_variants_takes_one_bit() {
    let info = derive_bitfield_specifier(&an_enum("Switch", plain(2))).unwrap();
    assert_eq!(info.name, "Switch");
    assert_eq!(info.type_repr, ValueType::Enum);
    assert_eq!(info.repr_name(), "Switch");
    assert_eq!(info.bits, 1);
    assert_eq!(info.int_repr, StorageType::U8);
    assert_eq!(info.mod8, Residue::One);
}

#[test]
fn an_enum_with_four_variants_takes_two_bits() {
    let info = derive_bitfield_specifier(&an_enum("Direction", plain(4))).unwrap();
    assert_eq!(info.name, "Direction");
    assert_eq!(info.bits, 2);
    assert_eq!(info.int_repr, StorageType::U8);
    assert_eq!(info.mod8, Residue::Two);
}

#[test]
fn the_width_is_the_logarithm_of_the_number_of_variants() {
    for bits in 0..=10usize {
        let info = derive_bitfield_specifier(&an_enum("E", plain(1 << bits))).unwrap();
        assert_eq!(info.bits, bits);
        assert_eq!(info.mod8.index(), bits % 8);
        let storage = if bits <= 8 { StorageType::U8 } else { StorageType::U16 };
        assert_eq!(info.int_repr, storage);
    }
}

#[test]
fn an_enum_without_variants_is_refused() {
    let r = derive_bitfield_specifier(&an_enum("Never", Vec::new()));
    assert_eq!(r.unwrap_err(), DeriveError::Empty);
}

#[test]
fn an_enum_with_three_variants_is_refused() {
    let r = derive_bitfield_specifier(&an_enum("Three", plain(3)));
    assert_eq!(r.unwrap_err(), DeriveError::NotPowerOfTwo);
}

#[test]
fn a_number_of_variants_that_is_no_power_of_two_is_refused() {
    for count in [3usize, 5, 6, 7, 9, 12, 15, 17, 100, 1023, 1025] {
        let r = derive_bitfield_specifier(&an_enum("E", plain(count)));
        assert_eq!(r.unwrap_err(), DeriveError::NotPowerOfTwo);
    }
}

#[test]
fn only_an_enum_gives_a_specifier() {
    let fields = vec![Field { ident: "a".to_string(), ty: "B8".to_string() }];
    let a_struct = Item { ident: "S".to_string(), data: Data::Struct(Fields::Named(fields)) };
    assert_eq!(derive_bitfield_specifier(&a_struct).unwrap_err(), DeriveError::NotAnEnum);
    let unit = Item { ident: "S".to_string(), data: Data::Struct(Fields::Unit) };
    assert_eq!(derive_bitfield_specifier(&unit).unwrap_err(), DeriveError::NotAnEnum);
    let a_union = Item { ident: "U".to_string(), data: Data::Union };
    assert_eq!(derive_bitfield_specifier(&a_union).unwrap_err(), DeriveError::NotAnEnum);
}

#[test]
fn the_emptiness_of_an_enum_is_seen_before_its_discriminants() {
    // with no variant there is no discriminant to look at
    assert_eq!(validate_discriminants(&Vec::new()), Ok(()));
    // with three variants the count is refused, whatever the discriminants are
    let r = derive_bitfield_specifier(&an_enum("E", tagged(&[Some(7), Some(7), Some(-1)])));
    assert_eq!(r.unwrap_err(), DeriveError::NotPowerOfTwo);
}

#[test]
fn discriminants_in_range_and_apart_are_accepted() {
    assert_eq!(validate_discriminants(&tagged(&[Some(0), Some(1)])), Ok(()));
    assert_eq!(validate_discriminants(&tagged(&[Some(1), Some(0)])), Ok(()));
    assert_eq!(validate_discriminants(&tagged(&[Some(3), Some(2), Some(1), Some(0)])), Ok(()));
    assert_eq!(validate_discriminants(&tagged(&[None, Some(1), None, Some(3)])), Ok(()));
    assert_eq!(validate_discriminants(&plain(4)), Ok(()));
    let info =
        derive_bitfield_specifier(&an_enum("E", tagged(&[Some(2), Some(3), Some(0), Some(1)])));
    assert_eq!(info.unwrap().bits, 2);
}

#[test]
fn a_discriminant_below_zero_is_out_of_range() {
    let r = validate_discriminants(&tagged(&[Some(0), Some(-1)]));
    assert_eq!(r, Err(DeriveError::OutOfRange { variant: 1, max: 1 }));
    let r = validate_discriminants(&tagged(&[Some(isize::MIN), Some(1)]));
    assert_eq!(r, Err(DeriveError::OutOfRange { variant: 0, max: 1 }));
}

#[test]
fn a_discriminant_from_the_number_of_variants_on_is_out_of_range() {
    let r = validate_discriminants(&tagged(&[Some(0), Some(1), Some(2), Some(4)]));
    assert_eq!(r, Err(DeriveError::OutOfRange { variant: 3, max: 3 }));
    let r = validate_discriminants(&tagged(&[Some(0), Some(3), Some(2), Some(1)]));
    assert_eq!(r, Ok(()));
    let r = validate_discriminants(&tagged(&[Some(isize::MAX), None]));
    assert_eq!(r, Err(DeriveError::OutOfRange { variant: 0, max: 1 }));
    let r = derive_bitfield_specifier(&an_enum("E", tagged(&[None, Some(2)])));
    assert_eq!(r.unwrap_err(), DeriveError::OutOfRange { variant: 1, max: 1 });
}

#[test]
fn a_discriminant_that_comes_twice_is_repeated() {
    let r = validate_discriminants(&tagged(&[Some(1), Some(1)]));
    assert_eq!(r, Err(DeriveError::Repeated { variant: 1 }));
    let r = validate_discriminants(&tagged(&[Some(2), None, Some(0), Some(2)]));
    assert_eq!(r, Err(DeriveError::Repeated { variant: 3 }));
    let r = derive_bitfield_specifier(&an_enum("E", tagged(&[Some(0), Some(0)])));
    assert_eq!(r.unwrap_err(), DeriveError::Repeated { variant: 1 });
}

#[test]
fn the_first_variant_at_fault_gives_the_error() {
    let r = validate_discriminants(&tagged(&[Some(1), Some(1), Some(9), Some(0)]));
    assert_eq!(r, Err(DeriveError::Repeated { variant: 1 }));
    let r = validate_discriminants(&tagged(&[Some(1), Some(9), Some(1), Some(0)]));
    assert_eq!(r, Err(DeriveError::OutOfRange { variant: 1, max: 3 }));
    // a discriminant out of range is not remembered as taken
    let r = validate_discriminants(&tagged(&[Some(-1), Some(-1)]));
    assert_eq!(r, Err(DeriveError::OutOfRange { variant: 0, max: 1 }));
}

#[test]
fn only_integer_literals_are_held_to_the_rules() {
    let variants = vec![
        variant("A", Some(DiscriminantExpr::Path(Some("FIRST".to_string())))),
        variant("B", Some(DiscriminantExpr::Path(Some("FIRST".to_string())))),
        variant("C", Some(DiscriminantExpr::Other)),
        variant("D", Some(DiscriminantExpr::OtherLiteral)),
    ];
    assert_eq!(validate_discriminants(&variants), Ok(()));
    // a discriminant that no variant states is not looked at, though it is 2 here
    assert_eq!(validate_discriminants(&tagged(&[Some(1), None])), Ok(()));
}

#[test]
fn what_a_variant_says_of_its_discriminant() {
    let literal = variant("A", Some(DiscriminantExpr::IntLiteral(-3)));
    assert!(matches!(get_discriminant(&literal), Some(Discriminant::Literal(-3))));
    let named = variant("A", Some(DiscriminantExpr::Path(Some("LIMIT".to_string()))));
    match get_discriminant(&named) {
        Some(Discriminant::Named(name)) => assert_eq!(name, "LIMIT"),
        other => panic!("{:?}", other),
    }
    let long_path = variant("A", Some(DiscriminantExpr::Path(None)));
    assert!(get_discriminant(&long_path).is_none());
    let other_literal = variant("A", Some(DiscriminantExpr::OtherLiteral));
    assert!(get_discriminant(&other_literal).is_none());
    let other = variant("A", Some(DiscriminantExpr::Other));
    assert!(get_discriminant(&other).is_none());
    assert!(get_discriminant(&variant("A", None)).is_none());
}

#[test]
fn error_messages() {
    assert_eq!(DeriveError::Empty.message(), "Empty enums are not allowed");
    assert_eq!(DeriveError::NotPowerOfTwo.message(), "Number of variants must be power of two");
    assert_eq!(DeriveError::OutOfRange { variant: 2, max: 3 }.message(), "Valid range [0-3]");
    assert_eq!(DeriveError::OutOfRange { variant: 0, max: 127 }.message(), "Valid range [0-127]");
    assert_eq!(DeriveError::OutOfRange { variant: 0, max: 0 }.message(), "Valid range [0-0]");
    assert_eq!(DeriveError::Repeated { variant: 1 }.message(), "Repeated discriminant");
    assert_eq!(DeriveError::NotAnEnum.message(), "BitfieldSpecifier must be used on an enum");
}

#[test]
fn discriminants_by_the_rule_of_the_language() {
    assert_eq!(variant_tags(&plain(4)), Some(vec![0, 1, 2, 3]));
    assert_eq!(variant_tags(&tagged(&[Some(2), None, Some(0), None])), Some(vec![2, 3, 0, 1]));
    assert_eq!(variant_tags(&tagged(&[None, Some(-5), None])), Some(vec![0, -5, -4]));
    assert_eq!(variant_tags(&Vec::new()), Some(Vec::new()));
    assert_eq!(variant_tags(&tagged(&[Some(isize::MAX), None])), None);
    let named = vec![variant("A", Some(DiscriminantExpr::Path(Some("X".to_string()))))];
    assert_eq!(variant_tags(&named), None);
    let other = vec![variant("A", None), variant("B", Some(DiscriminantExpr::Other))];
    assert_eq!(variant_tags(&other), None);
}

#[test]
fn the_variant_of_a_raw_number() {
    let tags = vec![2, 3, 0, 1];
    assert_eq!(to_variant(&tags, 0), Some(2));
    assert_eq!(to_variant(&tags, 1), Some(3));
    assert_eq!(to_variant(&tags, 2), Some(0));
    assert_eq!(to_variant(&tags, 3), Some(1));
    assert_eq!(to_variant(&tags, 4), None);
    assert_eq!(to_variant(&vec![1, 1], 1), Some(0));
    assert_eq!(to_variant(&vec![-1, 5], u64::MAX), None);
    assert_eq!(to_variant(&Vec::new(), 0), None);
}
