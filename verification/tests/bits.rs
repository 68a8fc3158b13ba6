use mpu6050::bits::{get_bit, get_bits, set_bit, set_bits};

#[test]
fn set_bit_then_get_bit_returns_written_value() {
    for byte in [0x00u8, 0xffu8, 0x69u8, 0xa5u8] {
        for n in 0u8..8 {
            let mut set = byte;
            set_bit(&mut set, n, true);
            assert_eq!(get_bit(set, n), 1);

            let mut cleared = byte;
            set_bit(&mut cleared, n, false);
            assert_eq!(get_bit(cleared, n), 0);
        }
    }
}

#[test]
fn set_bit_leaves_other_bits_unchanged() {
    for byte in [0x00u8, 0xffu8, 0x69u8, 0xa5u8] {
        for n in 0u8..8 {
            for enable in [true, false] {
                let mut changed = byte;
                set_bit(&mut changed, n, enable);
                for i in 0u8..8 {
                    if i != n {
                        assert_eq!(get_bit(changed, i), get_bit(byte, i));
                    }
                }
            }
        }
    }
}

#[test]
fn get_bit_reads_each_position() {
    let byte = 0b0110_1001u8;
    let expected = [1u8, 0, 0, 1, 0, 1, 1, 0];
    for n in 0u8..8 {
        assert_eq!(get_bit(byte, n), expected[n as usize]);
    }
}

#[test]
fn get_bits_extracts_a_right_aligned_run() {
    // bits 4..=2 of 0110_1001 are 010
    assert_eq!(get_bits(0b0110_1001, 4, 3), 0b010);
    // bits 7..=6 are 01
    assert_eq!(get_bits(0b0110_1001, 7, 2), 0b01);
    // a single bit run
    assert_eq!(get_bits(0b0110_1001, 0, 1), 1);
    assert_eq!(get_bits(0b0110_1001, 3, 1), 1);
}

#[test]
fn set_bits_then_get_bits_returns_written_low_bits() {
    for byte in [0x00u8, 0xffu8, 0x69u8] {
        for start in 0u8..8 {
            for length in 1u8..=8 {
                if length > start + 1 {
                    continue;
                }
                for data in [0x00u8, 0x07u8, 0xffu8, 0x5au8] {
                    let mut written = byte;
                    set_bits(&mut written, start, length, data);
                    let low_mask: u8 = if length >= 8 { 0xff } else { (1u8 << length) - 1 };
                    assert_eq!(get_bits(written, start, length), data & low_mask);
                }
            }
        }
    }
}

#[test]
fn full_byte_run_replaces_the_whole_byte() {
    let mut byte = 0x69u8;
    set_bits(&mut byte, 7, 8, 0xa5);
    assert_eq!(byte, 0xa5);
    assert_eq!(get_bits(0xa5, 7, 8), 0xa5);
}

#[test]
fn set_bits_leaves_bits_outside_the_run_unchanged() {
    for byte in [0x00u8, 0xffu8, 0x69u8] {
        for start in 0u8..8 {
            for length in 1u8..=8 {
                if length > start + 1 {
                    continue;
                }
                let mut written = byte;
                set_bits(&mut written, start, length, 0xa5);
                let run_low = start + 1 - length;
                for i in 0u8..8 {
                    if i < run_low || i > start {
                        assert_eq!(get_bit(written, i), get_bit(byte, i));
                    }
                }
            }
        }
    }
}

#[test]
fn set_bits_example_from_the_register_map() {
    // writing 3 into the 2-bit range field ending at bit 4 of a zero byte
    let mut byte = 0u8;
    set_bits(&mut byte, 4, 2, 3);
    assert_eq!(byte, 0b0001_1000);
}
