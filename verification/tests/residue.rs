use bitfield::{
    generate_mod8_impls, get_type_mod8, lookup_sum, AddMod8, CAddMod8, FiveMod8, FourMod8,
    OneMod8, Residue, ResidueClass, SevenMod8, SixMod8, ThreeMod8, TotalSizeIsMultipleOfEightBits,
    TwoMod8, ZeroMod8,
};

const ALL: [Residue; 8] = [
    Residue::Zero,
    Residue::One,
    Residue::Two,
    Residue::Three,
    Residue::Four,
    Residue::Five,
    Residue::Six,
    Residue::Seven,
];

#[test]
fn residues_count_from_zero_to_seven() {
    for (i, r) in ALL.iter().enumerate() {
        assert_eq!(r.index(), i);
        assert_eq!(Residue::from_index(i), *r);
        assert_eq!(Residue::from_index(i + 8), *r);
        assert_eq!(Residue::from_index(i + 64), *r);
    }
    assert_eq!(Residue::from_index(usize::MAX), Residue::from_index(usize::MAX % 8));
}

#[test]
fn the_addition_table_is_total_and_adds_modulo_eight() {
    let table = generate_mod8_impls();
    assert_eq!(table.len(), 64);
    for a in 0..8usize {
        for b in 0..8usize {
            let line = table[8 * a + b];
            assert_eq!(line.lhs, ALL[a]);
            assert_eq!(line.rhs, ALL[b]);
            assert_eq!(line.output, ALL[(a + b) % 8]);
            assert_eq!(lookup_sum(&table, ALL[a], ALL[b]), ALL[(a + b) % 8]);
            assert_eq!(ALL[a].plus(ALL[b]), ALL[(a + b) % 8]);
        }
    }
}

#[test]
fn some_sums_of_residues() {
    assert_eq!(Residue::Seven.plus(Residue::One), Residue::Zero);
    assert_eq!(Residue::Seven.plus(Residue::Seven), Residue::Six);
    assert_eq!(Residue::Three.plus(Residue::Four), Residue::Seven);
    assert_eq!(Residue::Zero.plus(Residue::Zero), Residue::Zero);
    assert_eq!(Residue::Four.plus(Residue::Four), Residue::Zero);
}

#[test]
fn only_zero_is_zero() {
    assert!(Residue::Zero.is_zero());
    for r in &ALL[1..] {
        assert!(!r.is_zero());
    }
}

#[test]
fn the_residue_of_a_width() {
    assert_eq!(get_type_mod8(0), Residue::Zero);
    assert_eq!(get_type_mod8(1), Residue::One);
    assert_eq!(get_type_mod8(7), Residue::Seven);
    assert_eq!(get_type_mod8(8), Residue::Zero);
    assert_eq!(get_type_mod8(13), Residue::Five);
    assert_eq!(get_type_mod8(64), Residue::Zero);
    assert_eq!(get_type_mod8(63), Residue::Seven);
}

#[test]
fn marker_names() {
    let names: Vec<&str> = ALL.iter().map(|r| r.marker_name()).collect();
    assert_eq!(
        names,
        vec![
            "ZeroMod8",
            "OneMod8",
            "TwoMod8",
            "ThreeMod8",
            "FourMod8",
            "FiveMod8",
            "SixMod8",
            "SevenMod8"
        ]
    );
}

#[test]
fn markers_stand_for_their_residues() {
    assert_eq!(ZeroMod8::class(), Residue::Zero);
    assert_eq!(OneMod8::class(), Residue::One);
    assert_eq!(TwoMod8::class(), Residue::Two);
    assert_eq!(ThreeMod8::class(), Residue::Three);
    assert_eq!(FourMod8::class(), Residue::Four);
    assert_eq!(FiveMod8::class(), Residue::Five);
    assert_eq!(SixMod8::class(), Residue::Six);
    assert_eq!(SevenMod8::class(), Residue::Seven);
}

fn sum_of<L: CAddMod8<R>, R: ResidueClass>() -> (Residue, Residue, Residue) {
    (L::class(), R::class(), <AddMod8<L, R> as ResidueClass>::class())
}

fn check_row<L>()
where
    L: CAddMod8<ZeroMod8>
        + CAddMod8<OneMod8>
        + CAddMod8<TwoMod8>
        + CAddMod8<ThreeMod8>
        + CAddMod8<FourMod8>
        + CAddMod8<FiveMod8>
        + CAddMod8<SixMod8>
        + CAddMod8<SevenMod8>,
{
    let row = [
        sum_of::<L, ZeroMod8>(),
        sum_of::<L, OneMod8>(),
        sum_of::<L, TwoMod8>(),
        sum_of::<L, ThreeMod8>(),
        sum_of::<L, FourMod8>(),
        sum_of::<L, FiveMod8>(),
        sum_of::<L, SixMod8>(),
        sum_of::<L, SevenMod8>(),
    ];
    for (lhs, rhs, sum) in row {
        assert_eq!(sum.index(), (lhs.index() + rhs.index()) % 8);
    }
}

#[test]
fn addition_on_markers_is_total_and_adds_modulo_eight() {
    check_row::<ZeroMod8>();
    check_row::<OneMod8>();
    check_row::<TwoMod8>();
    check_row::<ThreeMod8>();
    check_row::<FourMod8>();
    check_row::<FiveMod8>();
    check_row::<SixMod8>();
    check_row::<SevenMod8>();
}

fn whole_bytes<T: TotalSizeIsMultipleOfEightBits>() -> Residue {
    T::class()
}

#[test]
fn a_sum_of_markers_that_is_zero_counts_as_whole_bytes() {
    assert_eq!(whole_bytes::<AddMod8<ZeroMod8, ZeroMod8>>(), Residue::Zero);
    assert_eq!(whole_bytes::<AddMod8<OneMod8, SevenMod8>>(), Residue::Zero);
    assert_eq!(whole_bytes::<AddMod8<AddMod8<ThreeMod8, FourMod8>, OneMod8>>(), Residue::Zero);
    assert_eq!(
        whole_bytes::<AddMod8<AddMod8<AddMod8<ZeroMod8, FiveMod8>, SixMod8>, FiveMod8>>(),
        Residue::Zero
    );
}
