use eei_vfd::color::{Color, OutOfColorRangeParseError};

#[test]
fn from_u8() {
    assert_eq!(Color::Dark, Color::from(0u8));
    assert_eq!(Color::Green, Color::from(1u8));
}

#[test]
fn u8_conversion_black() {
    assert_eq!(Color::from(Color::Dark.get_bit_value()), Color::Dark);
    assert_eq!(Color::from(0u8).get_bit_value(), 0u8);
}

#[test]
fn u8_conversion_white() {
    assert_eq!(Color::from(Color::Green.get_bit_value()), Color::Green);
    assert_eq!(Color::from(1u8).get_bit_value(), 1u8);
}

#[test]
fn every_nonzero_byte_is_green() {
    for val in 1..=u8::MAX {
        assert_eq!(Color::from(val), Color::Green);
        assert_eq!(Color::from_u8(val), Color::Green);
    }
    assert_eq!(Color::from_u8(0), Color::Dark);
}

#[test]
fn byte_values() {
    assert_eq!(Color::Dark.get_byte_value(), 0x00);
    assert_eq!(Color::Green.get_byte_value(), 0xff);
}

#[test]
fn inverse_swaps() {
    assert_eq!(Color::Dark.inverse(), Color::Green);
    assert_eq!(Color::Green.inverse(), Color::Dark);
    assert_eq!(Color::Green.inverse().inverse(), Color::Green);
}

#[test]
fn parse_error_keeps_byte() {
    assert_eq!(OutOfColorRangeParseError::_new(7), OutOfColorRangeParseError(7));
}
