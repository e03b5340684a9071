use bitfield::{Bit, BitMut, BitRange, BitRangeMut};
use xhci_driver::bits::{
    get_bit32, get_bit64, get_bits32, get_bits64, get_high_bits64, get_low_word, set_bit32,
    set_bit64, set_bits32, set_bits64, set_high_bits64,
};

const WORDS32: [u32; 6] = [0, 1, 0xffff_ffff, 0x8000_0001, 0x1234_5678, 0xdead_beef];
const WORDS64: [u64; 6] = [
    0,
    1,
    u64::MAX,
    0x8000_0000_0000_0001,
    0x0123_4567_89ab_cdef,
    0xdead_beef_cafe_f00d,
];

#[test]
fn get_bits32_exact_values() {
    assert_eq!(get_bits32(0x0000_8400, 15, 10), 33);
    assert_eq!(get_bits32(0xffff_ffff, 31, 0), 0xffff_ffff);
    assert_eq!(get_bits32(0xffff_ffff, 0, 0), 1);
    assert_eq!(get_bits32(0x1234_5678, 23, 16), 0x34);
    assert_eq!(get_bits32(0x1234_5678, 31, 24), 0x12);
    assert_eq!(get_bits32(0x8000_0000, 31, 31), 1);
}

#[test]
fn set_bits32_exact_values() {
    assert_eq!(set_bits32(0, 15, 10, 33), 0x8400);
    assert_eq!(set_bits32(0xffff_ffff, 15, 10, 0), 0xffff_03ff);
    assert_eq!(set_bits32(0, 7, 0, 0x1ff), 0xff);
    assert_eq!(set_bits32(0x1234_5678, 31, 0, 0x9abc_def0), 0x9abc_def0);
    assert_eq!(set_bits32(0, 31, 31, 1), 0x8000_0000);
}

#[test]
fn bits32_agree_with_the_bitfield_crate() {
    for word in WORDS32 {
        for lsb in 0..32usize {
            for msb in lsb..32usize {
                let expected: u32 = word.bit_range(msb, lsb);
                assert_eq!(get_bits32(word, msb as u32, lsb as u32), expected);
                for value in WORDS32 {
                    let mut written = word;
                    written.set_bit_range(msb, lsb, value);
                    assert_eq!(set_bits32(word, msb as u32, lsb as u32, value), written);
                }
            }
        }
    }
}

#[test]
fn bits64_agree_with_the_bitfield_crate() {
    for word in WORDS64 {
        for lsb in 0..64usize {
            for msb in lsb..64usize {
                let expected: u64 = word.bit_range(msb, lsb);
                assert_eq!(get_bits64(word, msb as u64, lsb as u64), expected);
                for value in WORDS64 {
                    let mut written = word;
                    written.set_bit_range(msb, lsb, value);
                    assert_eq!(set_bits64(word, msb as u64, lsb as u64, value), written);
                }
            }
        }
    }
}

#[test]
fn single_bits_agree_with_the_bitfield_crate() {
    for word in WORDS32 {
        for index in 0..32usize {
            assert_eq!(get_bit32(word, index as u32), word.bit(index));
            for value in [false, true] {
                let mut written = word;
                written.set_bit(index, value);
                assert_eq!(set_bit32(word, index as u32, value), written);
            }
        }
    }
    for word in WORDS64 {
        for index in 0..64usize {
            assert_eq!(get_bit64(word, index as u64), word.bit(index));
            for value in [false, true] {
                let mut written = word;
                written.set_bit(index, value);
                assert_eq!(set_bit64(word, index as u64, value), written);
            }
        }
    }
}

#[test]
fn get_after_set_reads_the_low_bits_of_the_value() {
    for word in WORDS32 {
        for value in WORDS32 {
            assert_eq!(get_bits32(set_bits32(word, 15, 10, value), 15, 10), value & 0x3f);
            assert_eq!(get_bits32(set_bits32(word, 15, 10, value), 9, 0), word & 0x3ff);
            assert_eq!(get_bits32(set_bits32(word, 15, 10, value), 31, 16), word >> 16);
        }
    }
}

#[test]
fn high_bits_round_down() {
    assert_eq!(get_high_bits64(0x1234_5678_9abc_deff, 4), 0x1234_5678_9abc_def0);
    assert_eq!(get_high_bits64(0x1234_5678_9abc_deff, 6), 0x1234_5678_9abc_dec0);
    assert_eq!(get_high_bits64(0x3f, 6), 0);
    assert_eq!(get_high_bits64(0x40, 6), 0x40);
    assert_eq!(set_high_bits64(0xf, 4, 0x1000), 0x100f);
    assert_eq!(set_high_bits64(0xffff_ffff_ffff_ffff, 6, 0x1000), 0x103f);
    assert_eq!(set_high_bits64(0, 6, 0x107f), 0x1040);
}

#[test]
fn low_word_is_the_low_half() {
    assert_eq!(get_low_word(0x1122_3344_5566_7788), 0x5566_7788);
    assert_eq!(get_low_word(0xffff_ffff), 0xffff_ffff);
    assert_eq!(get_low_word(0x1_0000_0000), 0);
}
