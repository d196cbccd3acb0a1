//! Full-size frame buffer of the GP1287BI.
use vstd::prelude::*;

use crate::buffer_len_spec;
use crate::gp1287bi::{DEFAULT_BACKGROUND_COLOR, HEIGHT, NUM_DISPLAY_BITS, WIDTH};
use crate::graphics::{Display, DisplayRotation};

verus! {

/// Full size buffer for use with the GP1287BI
///
/// Can also be manually constructed and be used together with VarDisplay
pub struct Display256x50 {
    buffer: Vec<u8>,
    rotation: DisplayRotation,
}

impl Default for Display256x50 {
    /// A buffer of the whole panel in the default background colour, unrotated.
    fn default() -> (r: Self)
        ensures
            r.buffer_view() == Seq::new(
                NUM_DISPLAY_BITS as nat,
                |i: int| DEFAULT_BACKGROUND_COLOR.byte_spec(),
            ),
            r.rotation_view() == DisplayRotation::Rotate0,
            r.size_view() == (WIDTH, HEIGHT),
            buffer_len_spec(WIDTH as int, HEIGHT as int) == NUM_DISPLAY_BITS,
    {
        let background = DEFAULT_BACKGROUND_COLOR.get_byte_value();
        let mut buffer: Vec<u8> = Vec::new();
        let mut i: usize = 0;
        while i < NUM_DISPLAY_BITS as usize
            invariant
                i <= NUM_DISPLAY_BITS,
                buffer@ == Seq::new(i as nat, |j: int| DEFAULT_BACKGROUND_COLOR.byte_spec()),
                background == DEFAULT_BACKGROUND_COLOR.byte_spec(),
            decreases NUM_DISPLAY_BITS - i,
        {
            buffer.push(background);
            i = i + 1;
            assert(buffer@ =~= Seq::new(i as nat, |j: int| DEFAULT_BACKGROUND_COLOR.byte_spec()));
        }
        Display256x50 { buffer, rotation: DisplayRotation::default() }
    }
}

impl Display for Display256x50 {
    closed spec fn buffer_view(&self) -> Seq<u8> {
        self.buffer@
    }

    closed spec fn rotation_view(&self) -> DisplayRotation {
        self.rotation
    }

    closed spec fn size_view(&self) -> (u32, u32) {
        (WIDTH, HEIGHT)
    }

    fn size(&self) -> (r: (u32, u32)) {
        (WIDTH, HEIGHT)
    }

    fn buffer(&self) -> (r: &[u8]) {
        self.buffer.as_slice()
    }

    fn get_mut_buffer(&mut self) -> (r: &mut [u8]) {
        self.buffer.as_mut_slice()
    }

    fn set_rotation(&mut self, rotation: DisplayRotation) {
        self.rotation = rotation;
    }

    fn rotation(&self) -> (r: DisplayRotation) {
        self.rotation
    }
}

} // verus!
