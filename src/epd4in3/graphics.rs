//! A whole-panel buffer for the 4.3 inch panel in packed form: four two-bit
//! pixels to the byte.
//!
//! The driver itself works on the unpacked form, one [`EpdColor`] per pixel
//! in row-major order: that is what [`crate::graphics::VarDisplay`] holds and
//! what [`crate::epd4in3::EPD4in3::next_update`] reads. The packed form only
//! holds a whole panel of bytes in a given color; nothing draws into it or
//! sends it.
use crate::color::{byte_value, EpdColor};
use crate::epd4in3::{DEFAULT_BACKGROUND_COLOR, HEIGHT, WIDTH};
use crate::graphics::DisplayRotation;
use vstd::prelude::*;

verus! {

/// The bytes of a packed buffer of the whole panel.
pub const BUFFER_LEN: usize = 120000;

/// A full-size packed buffer of the 4.3 inch panel, with its rotation.
pub struct Display4in3 {
    buffer: Vec<u8>,
    rotation: DisplayRotation,
}

impl View for Display4in3 {
    type V = Seq<u8>;

    closed spec fn view(&self) -> Seq<u8> {
        self.buffer@
    }
}

impl Display4in3 {
    pub closed spec fn spec_rotation(&self) -> DisplayRotation {
        self.rotation
    }

    /// The packed bytes, row by row.
    pub fn buffer(&self) -> (r: &[u8])
        ensures
            r@ == self@,
    {
        self.buffer.as_slice()
    }

    pub fn set_rotation(&mut self, rotation: DisplayRotation)
        ensures
            final(self).spec_rotation() == rotation,
            final(self)@ == old(self)@,
    {
        self.rotation = rotation;
    }

    pub fn rotation(&self) -> (r: DisplayRotation)
        ensures
            r == self.spec_rotation(),
    {
        self.rotation
    }
}

impl Default for Display4in3 {
    /// A buffer of the whole panel in the default background color, unrotated.
    fn default() -> (r: Self)
        ensures
            r@ == Seq::new(
                (WIDTH as int * HEIGHT as int / 4) as nat,
                |i: int| byte_value(DEFAULT_BACKGROUND_COLOR),
            ),
            r.spec_rotation() == DisplayRotation::Rotate0,
    {
        let fill = DEFAULT_BACKGROUND_COLOR.get_byte_value();
        let mut buffer: Vec<u8> = Vec::new();
        let mut i: usize = 0;
        while i < BUFFER_LEN
            invariant
                i <= BUFFER_LEN,
                buffer@.len() == i,
                fill == byte_value(DEFAULT_BACKGROUND_COLOR),
                forall|j: int| 0 <= j < i ==> buffer@[j] == fill,
            decreases BUFFER_LEN - i,
        {
            buffer.push(fill);
            i = i + 1;
        }
        let r = Display4in3 { buffer, rotation: DisplayRotation::default() };
        assert(r@ =~= Seq::new(
            (WIDTH as int * HEIGHT as int / 4) as nat,
            |i: int| byte_value(DEFAULT_BACKGROUND_COLOR),
        ));
        r
    }
}

} // verus!
