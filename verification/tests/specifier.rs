use bitfield::{AddMod8, OneMod8, SevenMod8, SixMod8, TwoMod8, ZeroMod8};
use bitfield::{BitsExt, LastByte, Specifier, StorageInt, TotalSizeIsMultipleOfEightBits};
use bitfield::{B1, B12, B16, B3, B32, B4, B5, B64, B7, B8, B9};

#[test]
fn specifier_test() {
    let mut data: [u8; 1] = [0b0000_0010];
    assert_eq!(B1::get(&data, 0), 0);
    assert_eq!(B1::get(&data, 1), 1);
    assert_eq!(B1::get(&data, 2), 0);
    B1::set(&mut data, 0, 1);
    assert_eq!(B1::get(&data, 0), 1);

    let mut data: [u8; 1] = [0b0100_1010];
    assert_eq!(B4::get(&data, 0), 0b1010);
    assert_eq!(B4::get(&data, 2), 0b0010);
    assert_eq!(B4::get(&data, 3), 0b1001);
    assert_eq!(B4::get(&data, 4), 0b0100);
    B4::set(&mut data, 0, 0b0000);
    B4::set(&mut data, 1, 0b1111);
    assert_eq!(B4::get(&data, 0), 0b1110);
}

#[test]
fn add_mod8_test() {
    struct _AssertAddZeroZeroMultiple8
    where
        AddMod8<ZeroMod8, ZeroMod8>: TotalSizeIsMultipleOfEightBits;

    struct _AssertAddOneSevenMultiple8
    where
        AddMod8<OneMod8, SevenMod8>: TotalSizeIsMultipleOfEightBits;

    struct _AssertAddTwoSixMultiple8
    where
        AddMod8<TwoMod8, SixMod8>: TotalSizeIsMultipleOfEightBits;
}

fn bits(byte: u8, start: usize, len: usize) -> u8 {
    byte.value_from_bits(start, len)
}

#[test]
fn bits_test() {
    assert_eq!(bits(0b0000_0000, 0, 0), 0);
    assert_eq!(bits(0b0000_0000, 1, 0), 0);
    assert_eq!(bits(0b0111_1111, 0, 7), 127);
    assert_eq!(bits(0b0001_1001, 0, 4), 9);
    assert_eq!(bits(0b0001_1001, 2, 4), 6);
    assert_eq!(bits(0b1111_1111, 0, 8), 255);
    assert_eq!(bits(0b1111_1111, 2, 6), 63);
    assert_eq!(bits(0b1111_1111, 8, 0), 0);
    assert_eq!(bits(0b1111_1111, 2, 0), 0);
    assert_eq!(bits(0b1111_1111, 7, 1), 1);
}

#[test]
fn bits_run_is_cut_off_at_the_end_of_the_byte() {
    assert_eq!(bits(0b1010_0000, 5, 8), 0b101);
    assert_eq!(bits(0b1010_0000, 5, usize::MAX), 0b101);
    assert_eq!(bits(0b1111_1111, 8, 3), 0);
    assert_eq!(bits(0b1100_0011, 0, 100), 0b1100_0011);
}

#[test]
fn bits_agree_with_division_for_every_byte_and_run() {
    for byte in 0..=255u8 {
        for start in 0..=8usize {
            for len in 0..=9usize {
                let n = len.min(8 - start);
                let expected = ((byte as u32) >> start) % (1u32 << n);
                assert_eq!(bits(byte, start, len) as u32, expected);
            }
        }
    }
}

#[test]
fn last_byte_is_the_value_modulo_256() {
    assert_eq!(0xabu8.last_byte(), 0xab);
    assert_eq!(0x12abu16.last_byte(), 0xab);
    assert_eq!(0x1234_56abu32.last_byte(), 0xab);
    assert_eq!(0x1234_5678_9abc_deabu64.last_byte(), 0xab);
    assert_eq!(0x1234_5678_9abc_def0_1234_5678_9abc_de01u128.last_byte(), 0x01);
    assert_eq!(256u16.last_byte(), 0);
    assert_eq!(u64::MAX.last_byte(), 255);
}

#[test]
fn storage_integers_convert_without_loss() {
    assert_eq!(<u8 as StorageInt>::from_u64(200), 200u8);
    assert_eq!(<u16 as StorageInt>::from_u64(60_000), 60_000u16);
    assert_eq!(<u32 as StorageInt>::from_u64(4_000_000_000), 4_000_000_000u32);
    assert_eq!(<u64 as StorageInt>::from_u64(u64::MAX), u64::MAX);
    assert_eq!(200u8.to_u64(), 200);
    assert_eq!(60_000u16.to_u64(), 60_000);
    assert_eq!(4_000_000_000u32.to_u64(), 4_000_000_000);
    assert_eq!(u64::MAX.to_u64(), u64::MAX);
}

#[test]
fn scenario_width_four_in_one_byte() {
    let mut data: [u8; 1] = [0b0001_1001];
    assert_eq!(B4::get(&data, 0), 0b1001);
    assert_eq!(B4::get(&data, 0), 9);
    assert_eq!(B4::get(&data, 2), 0b0110);
    assert_eq!(B4::get(&data, 2), 6);
    B4::set(&mut data, 0, 0b0000);
    B4::set(&mut data, 1, 0b1111);
    assert_eq!(data[0], 0b0001_1110);
    assert_eq!(B4::get(&data, 0), 0b1110);
    assert_eq!(B4::get(&data, 0), 14);
}

#[test]
fn scenario_one_bit_in_one_byte() {
    let mut data: [u8; 1] = [0b0000_0010];
    assert_eq!(B1::get(&data, 0), 0);
    assert_eq!(B1::get(&data, 1), 1);
    assert_eq!(B1::get(&data, 2), 0);
    B1::set(&mut data, 0, 1);
    assert_eq!(B1::get(&data, 0), 1);
    assert_eq!(data[0], 0b0000_0011);
}

#[test]
fn bool_is_a_one_bit_specifier() {
    assert_eq!(<bool as Specifier>::BITS, 1);
    let mut data: [u8; 2] = [0b0000_0000, 0b1111_1111];
    assert!(!<bool as Specifier>::get(&data, 3));
    assert!(<bool as Specifier>::get(&data, 8));
    <bool as Specifier>::set(&mut data, 3, true);
    <bool as Specifier>::set(&mut data, 15, false);
    assert_eq!(data, [0b0000_1000, 0b0111_1111]);
    assert!(<bool as Specifier>::get(&data, 3));
    assert!(!<bool as Specifier>::get(&data, 15));
    assert!(!<bool as Specifier>::to_type_repr(0));
    assert!(<bool as Specifier>::to_type_repr(1));
    assert_eq!(<bool as Specifier>::to_int_repr(false), 0);
    assert_eq!(<bool as Specifier>::to_int_repr(true), 1);
}

#[test]
fn plain_specifiers_hand_raw_numbers_through() {
    assert_eq!(B3::to_type_repr(5), 5u8);
    assert_eq!(B3::to_int_repr(5), 5u8);
    assert_eq!(B9::to_type_repr(300), 300u16);
    assert_eq!(B32::to_type_repr(u32::MAX), u32::MAX);
    assert_eq!(B64::to_int_repr(u64::MAX), u64::MAX);
}

#[test]
fn eight_bits_on_a_byte_boundary_copy_the_byte() {
    let mut data: [u8; 3] = [0x11, 0x22, 0x33];
    assert_eq!(B8::get(&data, 0), 0x11);
    assert_eq!(B8::get(&data, 8), 0x22);
    assert_eq!(B8::get(&data, 16), 0x33);
    B8::set(&mut data, 8, 0xab);
    assert_eq!(data, [0x11, 0xab, 0x33]);
}

#[test]
fn a_field_that_ends_on_a_byte_boundary() {
    let mut data: [u8; 2] = [0b1010_1010, 0b0101_0101];
    assert_eq!(B5::get(&data, 3), 0b10101);
    B5::set(&mut data, 3, 0b01110);
    assert_eq!(data, [0b0111_0010, 0b0101_0101]);
    B7::set(&mut data, 9, 0b1111111);
    assert_eq!(data, [0b0111_0010, 0b1111_1111]);
    B7::set(&mut data, 9, 0);
    assert_eq!(data, [0b0111_0010, 0b0000_0001]);
}

#[test]
fn fields_across_byte_boundaries() {
    let mut data: [u8; 3] = [0b1100_0000, 0b1010_0101, 0b0000_0011];
    // digits 6 to 17: 11 from the first byte, all of the second, 11 from the third
    assert_eq!(B12::get(&data, 6), 0b11_1010_0101_11);
    B12::set(&mut data, 6, 0b01_0000_1111_10);
    assert_eq!(data, [0b1000_0000, 0b0000_1111, 0b0000_0001]);
    assert_eq!(B12::get(&data, 6), 0b01_0000_1111_10);

    let mut data: [u8; 4] = [0xff; 4];
    B16::set(&mut data, 4, 0x0000);
    assert_eq!(data, [0x0f, 0x00, 0xf0, 0xff]);
    B16::set(&mut data, 4, 0xabcd);
    assert_eq!(data, [0xdf, 0xbc, 0xfa, 0xff]);
    assert_eq!(B16::get(&data, 4), 0xabcd);
}

#[test]
fn sixty_four_bits_off_the_byte_boundary() {
    let mut data: [u8; 9] = [0xff; 9];
    B64::set(&mut data, 3, 0x0123_4567_89ab_cdef);
    assert_eq!(B64::get(&data, 3), 0x0123_4567_89ab_cdef);
    assert_eq!(data[0] & 0b111, 0b111);
    assert_eq!(data[8] >> 3, 0b11111);
    B64::set(&mut data, 3, 0);
    assert_eq!(data, [0b111, 0, 0, 0, 0, 0, 0, 0, 0b1111_1000]);
    B64::set(&mut data, 3, u64::MAX);
    assert_eq!(data, [0xff; 9]);
}

fn next(state: &mut u64) -> u64 {
    *state ^= *state << 13;
    *state ^= *state >> 7;
    *state ^= *state << 17;
    *state
}

fn bit_of(data: &[u8], i: usize) -> bool {
    (data[i / 8] >> (i % 8)) & 1 == 1
}

#[test]
fn set_then_get_gives_the_value_back_and_keeps_the_other_bits() {
    let mut state: u64 = 0x9e37_79b9_7f4a_7c15;
    for width in 0..=64usize {
        for offset in 0..=(96 - width) {
            let mut data = [0u8; 12];
            for byte in data.iter_mut() {
                *byte = next(&mut state) as u8;
            }
            let before = data;
            let value = if width == 64 {
                next(&mut state)
            } else {
                next(&mut state) & ((1u64 << width) - 1)
            };
            bitfield::set_bits(&mut data, offset, width, value);
            assert_eq!(bitfield::get_bits(&data, offset, width), value);
            for i in 0..96 {
                if i < offset || i >= offset + width {
                    assert_eq!(bit_of(&data, i), bit_of(&before, i));
                } else {
                    assert_eq!(bit_of(&data, i), (value >> (i - offset)) & 1 == 1);
                }
            }
        }
    }
}

#[test]
fn a_field_without_bits_reads_zero_and_writes_nothing() {
    let mut data: [u8; 2] = [0xa5, 0x5a];
    assert_eq!(bitfield::get_bits(&data, 0, 0), 0);
    assert_eq!(bitfield::get_bits(&data, 11, 0), 0);
    assert_eq!(bitfield::get_bits(&data, 1000, 0), 0);
    bitfield::set_bits(&mut data, 5, 0, 0);
    bitfield::set_bits(&mut data, 1000, 0, 0);
    assert_eq!(data, [0xa5, 0x5a]);
    let mut empty: [u8; 0] = [];
    assert_eq!(bitfield::get_bits(&empty, 0, 0), 0);
    bitfield::set_bits(&mut empty, 0, 0, 0);
}

#[test]
fn the_first_bit_of_the_field_is_the_lowest_bit_of_the_value() {
    let data: [u8; 2] = [0b1000_0000, 0b0000_0001];
    assert_eq!(bitfield::get_bits(&data, 7, 1), 1);
    assert_eq!(bitfield::get_bits(&data, 7, 2), 0b11);
    assert_eq!(bitfield::get_bits(&data, 6, 3), 0b110);
    assert_eq!(bitfield::get_bits(&data, 0, 16), 0x0180);
}

#[derive(Debug, PartialEq, Clone, Copy)]
enum Direction {
    North,
    East,
    South,
    West,
}

impl Specifier for Direction {
    const BITS: usize = 2;
    type TypeRepr = Direction;
    type IntRepr = u8;
    type Mod8 = TwoMod8;

    fn to_type_repr(int_repr: u8) -> Direction {
        match int_repr {
            0 => Direction::North,
            1 => Direction::East,
            2 => Direction::South,
            _ => Direction::West,
        }
    }

    fn to_int_repr(value: Direction) -> u8 {
        value as u8
    }
}

#[test]
fn an_enum_with_four_variants_is_a_two_bit_specifier() {
    let mut data: [u8; 1] = [0b1111_1111];
    Direction::set(&mut data, 3, Direction::East);
    assert_eq!(data, [0b1110_1111]);
    assert_eq!(Direction::get(&data, 3), Direction::East);
    assert_eq!(Direction::get(&data, 0), Direction::West);
    Direction::set(&mut data, 0, Direction::North);
    assert_eq!(Direction::get(&data, 0), Direction::North);
    assert_eq!(Direction::get(&data, 3), Direction::East);
    Direction::set(&mut data, 6, Direction::South);
    assert_eq!(data, [0b1010_1100]);
}
