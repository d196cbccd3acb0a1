//! Two-valued colour of a monochrome VFD pixel.
use vstd::prelude::*;

verus! {

/// When trying to parse u8 to one of the color types
#[derive(Debug, PartialEq, Eq, Structural)]
pub struct OutOfColorRangeParseError(pub u8);

impl OutOfColorRangeParseError {
    /// Creates the error for the byte that could not be parsed.
    pub fn _new(size: u8) -> (r: OutOfColorRangeParseError)
        ensures
            r.0 == size,
    {
        OutOfColorRangeParseError(size)
    }
}

/// Only for the monochrome displays
#[derive(Clone, Copy, PartialEq, Eq, Structural, Debug)]
pub enum Color {
    /// Unlit pixel
    Dark,
    /// Lit pixel
    Green,
}

impl Color {
    /// The bit that encodes the colour: 0 for `Dark`, 1 for `Green`.
    pub open spec fn bit_spec(self) -> u8 {
        match self {
            Color::Green => 1,
            Color::Dark => 0,
        }
    }

    /// A byte of eight pixels of the colour: 0x00 for `Dark`, 0xff for `Green`.
    pub open spec fn byte_spec(self) -> u8 {
        match self {
            Color::Green => 0xff,
            Color::Dark => 0x00,
        }
    }

    /// The colour that a raw byte stands for: 0 is `Dark`, anything else `Green`.
    pub open spec fn from_u8_spec(val: u8) -> Color {
        if val == 0 {
            Color::Dark
        } else {
            Color::Green
        }
    }

    /// The other colour.
    pub open spec fn inverse_spec(self) -> Color {
        match self {
            Color::Green => Color::Dark,
            Color::Dark => Color::Green,
        }
    }

    /// Get the color encoding of the color for one bit
    pub fn get_bit_value(self) -> (r: u8)
        ensures
            r == self.bit_spec(),
    {
        match self {
            Color::Green => 1u8,
            Color::Dark => 0u8,
        }
    }

    /// Gets a full byte of dark or lit pixels
    pub fn get_byte_value(self) -> (r: u8)
        ensures
            r == self.byte_spec(),
    {
        match self {
            Color::Green => 0xff,
            Color::Dark => 0x00,
        }
    }

    /// Parses from u8 to Color
    pub fn from_u8(val: u8) -> (r: Self)
        ensures
            r == Color::from_u8_spec(val),
    {
        match val {
            0 => Color::Dark,
            _ => Color::Green,
        }
    }

    /// Returns the inverse of the given color.
    ///
    /// Dark returns Green and Green returns Dark
    pub fn inverse(self) -> (r: Color)
        ensures
            r == self.inverse_spec(),
    {
        match self {
            Color::Green => Color::Dark,
            Color::Dark => Color::Green,
        }
    }
}

impl From<u8> for Color {
    fn from(value: u8) -> (r: Self)
        ensures
            r == Color::from_u8_spec(value),
    {
        Color::from_u8(value)
    }
}

impl vstd::std_specs::convert::FromSpecImpl<u8> for Color {
    open spec fn obeys_from_spec() -> bool {
        true
    }

    open spec fn from_spec(v: u8) -> Color {
        Color::from_u8_spec(v)
    }
}

/// Parsing the bit of a colour gives the colour back, and the bit of a
/// parsed byte is 0 exactly when the byte is 0.
pub proof fn lemma_bit_round_trip(c: Color, v: u8)
    ensures
        Color::from_u8_spec(c.bit_spec()) == c,
        Color::from_u8_spec(v).bit_spec() == (if v == 0 { 0u8 } else { 1u8 }),
        c.inverse_spec().inverse_spec() == c,
        c.inverse_spec() != c,
{
}

} // verus!
