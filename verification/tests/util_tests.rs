use midi_mapper::util::{
    from_status_byte, mask14, mask7, msb_lsb_to_u14, status_byte, u14_to_msb_lsb,
};

#[test]
fn mask7_keeps_low_seven_bits() {
    assert_eq!(mask7(0x00), 0x00);
    assert_eq!(mask7(0x7f), 0x7f);
    assert_eq!(mask7(0x80), 0x00);
    assert_eq!(mask7(0xff), 0x7f);
    assert_eq!(mask7(0xc5), 0x45);
}

#[test]
fn mask14_keeps_low_fourteen_bits() {
    assert_eq!(mask14(0x0000), 0x0000);
    assert_eq!(mask14(0x3fff), 0x3fff);
    assert_eq!(mask14(0x4000), 0x0000);
    assert_eq!(mask14(0xffff), 0x3fff);
}

#[test]
fn u14_split_exact_values() {
    assert_eq!(u14_to_msb_lsb(0), (0, 0));
    assert_eq!(u14_to_msb_lsb(127), (0, 127));
    assert_eq!(u14_to_msb_lsb(128), (1, 0));
    assert_eq!(u14_to_msb_lsb(0x3fff), (0x7f, 0x7f));
    assert_eq!(u14_to_msb_lsb(394), (3, 10));
}

#[test]
fn u14_assemble_exact_values() {
    assert_eq!(msb_lsb_to_u14(0, 0), 0);
    assert_eq!(msb_lsb_to_u14(3, 10), 394);
    assert_eq!(msb_lsb_to_u14(0x7f, 0x7f), 0x3fff);
    // inputs above seven bits are masked first
    assert_eq!(msb_lsb_to_u14(0x83, 0x8a), 394);
}

#[test]
fn u14_round_trip() {
    for value in [0u16, 1, 127, 128, 394, 8192, 0x3fff] {
        let (msb, lsb) = u14_to_msb_lsb(value);
        assert_eq!(msb_lsb_to_u14(msb, lsb), value);
    }
}

#[test]
fn status_byte_packs_nibbles() {
    assert_eq!(status_byte(0x09, 3), 0x93);
    assert_eq!(status_byte(0x0b, 0), 0xb0);
    assert_eq!(status_byte(0xfe, 15), 0xef);
}

#[test]
fn from_status_byte_splits_nibbles() {
    assert_eq!(from_status_byte(0x93), (0x09, 0x03));
    assert_eq!(from_status_byte(0xb0), (0x0b, 0x00));
    assert_eq!(from_status_byte(0xef), (0x0e, 0x0f));
    assert_eq!(from_status_byte(0x00), (0x00, 0x00));
}

#[test]
fn status_byte_round_trip() {
    for sb in [0x80u8, 0x93, 0xb7, 0xe0, 0xff, 0x15] {
        let (status, channel) = from_status_byte(sb);
        assert_eq!(status_byte(status, channel), sb);
    }
}
