use mpu6050::conversion::{decode_axes, read_word_2c};

#[test]
fn word_2c_boundary_values() {
    assert_eq!(read_word_2c(0x00, 0x00), 0);
    assert_eq!(read_word_2c(0x7f, 0xff), 32767);
    assert_eq!(read_word_2c(0x80, 0x00), -32768);
    assert_eq!(read_word_2c(0xff, 0xff), -1);
}

#[test]
fn word_2c_mixed_values() {
    assert_eq!(read_word_2c(0x00, 0x01), 1);
    assert_eq!(read_word_2c(0x01, 0x00), 256);
    assert_eq!(read_word_2c(0x40, 0x00), 16384);
    assert_eq!(read_word_2c(0x00, 0x83), 131);
    assert_eq!(read_word_2c(0xff, 0xfe), -2);
    assert_eq!(read_word_2c(0xc0, 0x00), -16384);
}

#[test]
fn decode_axes_splits_the_block_into_three_words() {
    let buf = vec![0x40u8, 0x00, 0xff, 0xff, 0x00, 0x01];
    assert_eq!(decode_axes(&buf), (16384, -1, 1));
}

#[test]
fn decode_axes_all_zero() {
    let buf = vec![0u8; 6];
    assert_eq!(decode_axes(&buf), (0, 0, 0));
}
