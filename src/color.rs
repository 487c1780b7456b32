//! Black, dark gray, gray and white: the four tones of the panel.
use vstd::prelude::*;

verus! {

#[derive(Debug, Clone, Copy, PartialEq, Eq, Structural)]
pub enum EpdColor {
    Black,
    DarkGray,
    Gray,
    White,
}

/// The two-bit value that stands for a color in protocol arguments.
pub open spec fn bit_value(c: EpdColor) -> u8 {
    match c {
        EpdColor::Black => 0,
        EpdColor::DarkGray => 1,
        EpdColor::Gray => 2,
        EpdColor::White => 3,
    }
}

/// A full byte of four pixels of one color.
pub open spec fn byte_value(c: EpdColor) -> u8 {
    match c {
        EpdColor::Black => 0x00,
        EpdColor::DarkGray => 0x55,
        EpdColor::Gray => 0xaa,
        EpdColor::White => 0xff,
    }
}

/// The color whose two-bit value is `v`; defined for `v <= 3`.
pub open spec fn color_of_bits(v: u8) -> EpdColor
    recommends
        v <= 3,
{
    if v == 0 {
        EpdColor::Black
    } else if v == 1 {
        EpdColor::DarkGray
    } else if v == 2 {
        EpdColor::Gray
    } else {
        EpdColor::White
    }
}

/// Decoding a protocol byte: the color of a two-bit value, and none for any
/// other byte.
pub open spec fn decode_bits(v: u8) -> Option<EpdColor> {
    if v <= 3 {
        Some(color_of_bits(v))
    } else {
        None
    }
}

pub open spec fn inverse_of(c: EpdColor) -> EpdColor {
    match c {
        EpdColor::White => EpdColor::Black,
        EpdColor::Black => EpdColor::White,
        EpdColor::Gray => EpdColor::DarkGray,
        EpdColor::DarkGray => EpdColor::Gray,
    }
}

impl EpdColor {
    /// The color encoding of the color in a protocol argument.
    pub fn get_bit_value(self) -> (r: u8)
        ensures
            r == bit_value(self),
            r <= 3,
    {
        match self {
            EpdColor::White => 3u8,
            EpdColor::Black => 0u8,
            EpdColor::DarkGray => 1u8,
            EpdColor::Gray => 2u8,
        }
    }

    /// A full byte of pixels of this color.
    pub fn get_byte_value(self) -> (r: u8)
        ensures
            r == byte_value(self),
    {
        match self {
            EpdColor::White => 0xff,
            EpdColor::Black => 0x00,
            EpdColor::DarkGray => 0x55,
            EpdColor::Gray => 0xaa,
        }
    }

    /// Parses a two-bit value; any other byte is out of the protocol and not
    /// accepted.
    pub fn from_u8(val: u8) -> (r: EpdColor)
        requires
            val <= 3,
        ensures
            r == color_of_bits(val),
            bit_value(r) == val,
    {
        match val {
            0 => EpdColor::Black,
            1 => EpdColor::DarkGray,
            2 => EpdColor::Gray,
            _ => EpdColor::White,
        }
    }

    /// The color of a two-bit value, as `from_u8`.
    pub fn from(value: u8) -> (r: EpdColor)
        requires
            value <= 3,
        ensures
            r == color_of_bits(value),
            bit_value(r) == value,
    {
        EpdColor::from_u8(value)
    }

    /// Decodes a byte of the protocol: `None` for any byte above 3.
    pub fn try_from_u8(val: u8) -> (r: Option<EpdColor>)
        ensures
            r == decode_bits(val),
    {
        if val <= 3 {
            Some(EpdColor::from_u8(val))
        } else {
            None
        }
    }

    /// Returns the inverse of the color: black and white swap, and so do gray
    /// and dark gray.
    pub fn inverse(self) -> (r: EpdColor)
        ensures
            r == inverse_of(self),
            inverse_of(r) == self,
    {
        match self {
            EpdColor::White => EpdColor::Black,
            EpdColor::Black => EpdColor::White,
            EpdColor::Gray => EpdColor::DarkGray,
            EpdColor::DarkGray => EpdColor::Gray,
        }
    }
}

/// Decoding and encoding the two-bit value are inverse to each other: each of
/// the values 0 to 3 decodes to a color whose value it is, every color decodes
/// back from its own value, and every byte from 4 to 255 fails to decode and is
/// the value of no color.
pub proof fn lemma_color_bijection(v: u8, c: EpdColor)
    ensures
        v <= 3 ==> decode_bits(v) is Some && bit_value(decode_bits(v).unwrap()) == v,
        decode_bits(bit_value(c)) == Some(c),
        v > 3 ==> decode_bits(v) is None && forall|d: EpdColor| bit_value(d) != v,
{
}

/// Inverting twice gives the color back.
pub proof fn lemma_inverse_involution(c: EpdColor)
    ensures
        inverse_of(inverse_of(c)) == c,
        inverse_of(EpdColor::Black) == EpdColor::White,
        inverse_of(EpdColor::Gray) == EpdColor::DarkGray,
{
}

} // verus!
