use fakon::can_utils::{
    byte_checksum_simple, counter_update, counter_update_skip, next_counter, nibble_sum_checksum, xor_nibble_checksum,
};

#[test]
fn checksum_sums_modulo_256() {
    assert_eq!(byte_checksum_simple(&[]), 0);
    assert_eq!(byte_checksum_simple(&[1, 2, 3]), 6);
    assert_eq!(byte_checksum_simple(&[1, 2, 3, 250]), 0);
    assert_eq!(byte_checksum_simple(&[0xFF, 0xFF]), 0xFE);
}

#[test]
fn counter_in_upper_nibble() {
    let mut b = 0x35u8;
    counter_update::<0xF0>(&mut b);
    assert_eq!(b, 0x45);
    let mut b = 0xF5u8;
    counter_update::<0xF0>(&mut b);
    assert_eq!(b, 0x05);
}

#[test]
fn counter_in_lower_nibble() {
    let mut b = 0xA3u8;
    counter_update::<0x0F>(&mut b);
    assert_eq!(b, 0xA4);
    // The field wraps inside the nibble; the bits above are kept.
    let mut b = 0x2Fu8;
    counter_update::<0x0F>(&mut b);
    assert_eq!(b, 0x20);
    let mut b = 0x0Fu8;
    counter_update::<0x0F>(&mut b);
    assert_eq!(b, 0x00);
    // A field in the middle of the byte.
    let mut b = 0b1011_1001u8;
    counter_update::<0b0011_1000>(&mut b);
    assert_eq!(b, 0b1000_0001);
}

#[test]
fn counter_skips_value() {
    let mut b = 0x07u8;
    counter_update_skip::<0x0F, 0x09>(&mut b);
    assert_eq!(b, 0x08);
    counter_update_skip::<0x0F, 0x09>(&mut b);
    assert_eq!(b, 0x0A);
    // Stepping onto the skipped value steps once more, wrapping in the mask.
    let mut d = 0xAEu8;
    counter_update_skip::<0x0F, 0x0F>(&mut d);
    assert_eq!(d, 0xA0);
    let mut c = 0x50u8;
    counter_update_skip::<0xF0, 0x60>(&mut c);
    assert_eq!(c, 0x70);
}

#[test]
fn rolling_counter_wraps() {
    assert_eq!(next_counter(0, 0, 15), 1);
    assert_eq!(next_counter(14, 0, 15), 15);
    assert_eq!(next_counter(15, 0, 15), 0);
    assert_eq!(next_counter(200, 1, 14), 1);
}

#[test]
fn xor_of_nibbles() {
    assert_eq!(xor_nibble_checksum(&[]), 0);
    assert_eq!(xor_nibble_checksum(&[0x12, 0x34]), 0x4);
    assert_eq!(xor_nibble_checksum(&[0xA5]), 0xF);
}

#[test]
fn sum_of_nibbles() {
    assert_eq!(nibble_sum_checksum(&[]), 0);
    assert_eq!(nibble_sum_checksum(&[0x12, 0x34]), 10);
    assert_eq!(nibble_sum_checksum(&[0xFF, 0xFF]), 12);
    assert_eq!(nibble_sum_checksum(&[0x01, 0x00, 0x55, 0x54, 0x15, 0x40, 0x01, 0x00]), 15);
}
