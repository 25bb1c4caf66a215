use yeahboy::bits::{pack_u16, unpack_u16};

#[test]
fn pack_puts_the_first_byte_high() {
    assert_eq!(pack_u16(0x12, 0x34), 0x1234);
    assert_eq!(pack_u16(0x00, 0xFF), 0x00FF);
    assert_eq!(pack_u16(0xFF, 0x00), 0xFF00);
}

#[test]
fn unpack_gives_high_then_low() {
    assert_eq!(unpack_u16(0x1234), (0x12, 0x34));
    assert_eq!(unpack_u16(0x0000), (0x00, 0x00));
    assert_eq!(unpack_u16(0xFFFF), (0xFF, 0xFF));
}

#[test]
fn pack_of_unpack_is_the_word() {
    for v in 0..=0xFFFFu16 {
        let (high, low) = unpack_u16(v);
        assert_eq!(pack_u16(high, low), v);
    }
}

#[test]
fn unpack_of_pack_is_the_pair() {
    for high in 0..=255u8 {
        for low in 0..=255u8 {
            assert_eq!(unpack_u16(pack_u16(high, low)), (high, low));
        }
    }
}
