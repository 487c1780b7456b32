use epd_waveshare_uart::color::EpdColor;

#[test]
fn from_u8() {
    assert_eq!(EpdColor::Black, EpdColor::from(0u8));
    assert_eq!(EpdColor::White, EpdColor::from(3u8));
    assert_eq!(EpdColor::Gray, EpdColor::from(2u8));
    assert_eq!(EpdColor::DarkGray, EpdColor::from(1u8));
}

#[test]
fn u8_conversion_black() {
    assert_eq!(
        EpdColor::from(EpdColor::Black.get_bit_value()),
        EpdColor::Black
    );
    assert_eq!(EpdColor::from(0u8).get_bit_value(), 0u8);
}

#[test]
fn u8_conversion_white() {
    assert_eq!(
        EpdColor::from(EpdColor::White.get_bit_value()),
        EpdColor::White
    );
    assert_eq!(EpdColor::from(3u8).get_bit_value(), 3u8);
}

#[test]
fn bit_values_round_trip() {
    for v in 0u8..=3 {
        assert_eq!(EpdColor::from_u8(v).get_bit_value(), v);
        assert_eq!(EpdColor::try_from_u8(v), Some(EpdColor::from_u8(v)));
    }
}

#[test]
fn out_of_range_bytes_are_rejected() {
    for v in 4u8..=255 {
        assert_eq!(EpdColor::try_from_u8(v), None);
    }
}

#[test]
fn byte_values() {
    assert_eq!(EpdColor::Black.get_byte_value(), 0x00);
    assert_eq!(EpdColor::DarkGray.get_byte_value(), 0x55);
    assert_eq!(EpdColor::Gray.get_byte_value(), 0xaa);
    assert_eq!(EpdColor::White.get_byte_value(), 0xff);
}

#[test]
fn inverse_pairs() {
    assert_eq!(EpdColor::Black.inverse(), EpdColor::White);
    assert_eq!(EpdColor::White.inverse(), EpdColor::Black);
    assert_eq!(EpdColor::Gray.inverse(), EpdColor::DarkGray);
    assert_eq!(EpdColor::DarkGray.inverse(), EpdColor::Gray);
}

#[test]
fn inverse_twice_is_identity() {
    for c in [EpdColor::Black, EpdColor::DarkGray, EpdColor::Gray, EpdColor::White] {
        assert_eq!(c.inverse().inverse(), c);
    }
}
