//! Graphics support: the packed 1-bit frame buffer and its addressing.
use vstd::prelude::*;

use crate::color::Color;
use crate::{buffer_len_spec, bytes_per_row};

verus! {

/// Rotation of the logical canvas relative to the panel
#[derive(Clone, Copy, PartialEq, Eq, Structural, Debug)]
pub enum DisplayRotation {
    /// No rotation
    Rotate0,
    /// Rotate by 90 degrees clockwise
    Rotate90,
    /// Rotate by 180 degrees clockwise
    Rotate180,
    /// Rotate 270 degrees clockwise
    Rotate270,
}

impl Default for DisplayRotation {
    fn default() -> (r: Self)
        ensures
            r == DisplayRotation::Rotate0,
    {
        DisplayRotation::Rotate0
    }
}

/// Display specific pixel output configuration
///
/// Chromatic displays treat the bits of their colour planes differently.
/// With [DisplayColorRendering::Positive] a colour pixel is rendered where its
/// bit is set; with [DisplayColorRendering::Negative] where it is cleared.
#[derive(Clone, Copy, PartialEq, Eq, Structural, Debug)]
pub enum DisplayColorRendering {
    /// Positive: chromatic doesn't override white, white bit cleared for black, white bit set for white, both bits set for chromatic
    Positive,
    /// Negative: chromatic does override white, both bits cleared for black, white bit set for white, red bit set for black
    Negative,
}

/// A point of the logical canvas; either coordinate may be negative.
#[derive(Clone, Copy, PartialEq, Eq, Structural, Debug)]
pub struct Point {
    /// Column
    pub x: i32,
    /// Row
    pub y: i32,
}

/// A point together with the colour to draw there.
#[derive(Clone, Copy, PartialEq, Eq, Structural, Debug)]
pub struct Pixel(pub Point, pub Color);

/// Whether `(x, y)` lies off a `width` by `height` canvas seen through `rotation`.
/// A quarter turn swaps the axes that the bounds apply to.
pub open spec fn is_outside(
    x: int,
    y: int,
    width: int,
    height: int,
    rotation: DisplayRotation,
) -> bool {
    x < 0 || y < 0 || match rotation {
        DisplayRotation::Rotate0 | DisplayRotation::Rotate180 => x >= width || y >= height,
        DisplayRotation::Rotate90 | DisplayRotation::Rotate270 => y >= width || x >= height,
    }
}

/// Where the logical point `(x, y)` lands in the unrotated buffer.
pub open spec fn rotated(
    x: int,
    y: int,
    width: int,
    height: int,
    rotation: DisplayRotation,
) -> (int, int) {
    match rotation {
        DisplayRotation::Rotate0 => (x, y),
        DisplayRotation::Rotate90 => (width - 1 - y, x),
        DisplayRotation::Rotate180 => (width - 1 - x, height - 1 - y),
        DisplayRotation::Rotate270 => (y, height - 1 - x),
    }
}

/// Index of the byte that holds the pixel at `(x, y)`.
pub open spec fn byte_index(
    x: int,
    y: int,
    width: int,
    height: int,
    rotation: DisplayRotation,
) -> int {
    let (nx, ny) = rotated(x, y, width, height, rotation);
    nx / 8 + bytes_per_row(width) * ny
}

/// Mask of the bit that holds the pixel at `(x, y)`; the leftmost pixel of a
/// byte is its most significant bit.
pub open spec fn bit_mask(
    x: int,
    y: int,
    width: int,
    height: int,
    rotation: DisplayRotation,
) -> u8 {
    let (nx, ny) = rotated(x, y, width, height, rotation);
    0x80u8 >> ((nx % 8) as u8)
}

/// The buffer after drawing `pixel`: a point off the canvas changes nothing,
/// `Dark` clears the pixel's bit and `Green` sets it.
pub open spec fn drawn(
    buffer: Seq<u8>,
    width: int,
    height: int,
    rotation: DisplayRotation,
    pixel: Pixel,
) -> Seq<u8> {
    let x = pixel.0.x as int;
    let y = pixel.0.y as int;
    if is_outside(x, y, width, height, rotation) {
        buffer
    } else {
        let i = byte_index(x, y, width, height, rotation);
        let m = bit_mask(x, y, width, height, rotation);
        buffer.update(
            i,
            match pixel.1 {
                Color::Dark => buffer[i] & !m,
                Color::Green => buffer[i] | m,
            },
        )
    }
}

/// The buffer after drawing each of `pixels` in turn.
pub open spec fn drawn_all(
    buffer: Seq<u8>,
    width: int,
    height: int,
    rotation: DisplayRotation,
    pixels: Seq<Pixel>,
) -> Seq<u8>
    decreases pixels.len(),
{
    if pixels.len() == 0 {
        buffer
    } else {
        drawn(
            drawn_all(buffer, width, height, rotation, pixels.drop_last()),
            width,
            height,
            rotation,
            pixels.last(),
        )
    }
}

/// Every point inside the rotated canvas is addressed by a byte of the buffer
/// and a single bit of that byte.
pub proof fn lemma_inside_addresses_buffer(
    x: int,
    y: int,
    width: int,
    height: int,
    rotation: DisplayRotation,
)
    requires
        !is_outside(x, y, width, height, rotation),
    ensures
        0 <= rotated(x, y, width, height, rotation).0 < width,
        0 <= rotated(x, y, width, height, rotation).1 < height,
        0 <= byte_index(x, y, width, height, rotation) < buffer_len_spec(width, height),
        bit_mask(x, y, width, height, rotation) == 0x80u8 >> ((rotated(
            x,
            y,
            width,
            height,
            rotation,
        ).0 % 8) as u8),
{
    let (nx, ny) = rotated(x, y, width, height, rotation);
    let row = bytes_per_row(width);
    assert(0 <= nx / 8 < row);
    assert(0 <= row * ny <= row * (height - 1)) by (nonlinear_arith)
        requires
            0 <= ny <= height - 1,
            row > 0,
    ;
    assert(row * (height - 1) + row == row * height) by (nonlinear_arith);
}

// Checks if a point is outside the defined display
fn outside_display(p: Point, width: u32, height: u32, rotation: DisplayRotation) -> (r: bool)
    ensures
        r == is_outside(p.x as int, p.y as int, width as int, height as int, rotation),
{
    if p.x < 0 || p.y < 0 {
        return true;
    }
    let x = p.x as u32;
    let y = p.y as u32;
    match rotation {
        DisplayRotation::Rotate0 | DisplayRotation::Rotate180 => {
            if x >= width || y >= height {
                return true;
            }
        },
        DisplayRotation::Rotate90 | DisplayRotation::Rotate270 => {
            if y >= width || x >= height {
                return true;
            }
        },
    }
    false
}

fn find_rotation(x: u32, y: u32, width: u32, height: u32, rotation: DisplayRotation) -> (r: (
    u32,
    u32,
))
    requires
        !is_outside(x as int, y as int, width as int, height as int, rotation),
    ensures
        (r.0 as int, r.1 as int) == rotated(x as int, y as int, width as int, height as int, rotation),
{
    let nx;
    let ny;
    match rotation {
        DisplayRotation::Rotate0 => {
            nx = x;
            ny = y;
        },
        DisplayRotation::Rotate90 => {
            nx = width - 1 - y;
            ny = x;
        },
        DisplayRotation::Rotate180 => {
            nx = width - 1 - x;
            ny = height - 1 - y;
        },
        DisplayRotation::Rotate270 => {
            nx = y;
            ny = height - 1 - x;
        },
    }
    (nx, ny)
}

// Returns the index in the byte buffer and the mask of the bit inside that byte
fn find_position(x: u32, y: u32, width: u32, height: u32, rotation: DisplayRotation) -> (r: (
    usize,
    u8,
))
    requires
        !is_outside(x as int, y as int, width as int, height as int, rotation),
        buffer_len_spec(width as int, height as int) <= usize::MAX,
    ensures
        r.0 == byte_index(x as int, y as int, width as int, height as int, rotation),
        r.0 < buffer_len_spec(width as int, height as int),
        r.1 == bit_mask(x as int, y as int, width as int, height as int, rotation),
{
    proof {
        lemma_inside_addresses_buffer(x as int, y as int, width as int, height as int, rotation);
    }
    let (nx, ny) = find_rotation(x, y, width, height, rotation);
    let row: usize = (width / 8) as usize + if width % 8 == 0 { 0 } else { 1 };
    assert(row == bytes_per_row(width as int));
    assert(row * (ny as int) <= buffer_len_spec(width as int, height as int)) by (nonlinear_arith)
        requires
            ny < height,
            row >= 0,
            buffer_len_spec(width as int, height as int) == row * height,
    ;
    let index = (nx / 8) as usize + row * (ny as usize);
    (index, 0x80u8 >> ((nx % 8) as u8))
}

/// Draws `pixel` into `buffer`, laid out for a `width` by `height` canvas seen
/// through `rotation`. A pixel off the canvas is clipped: nothing changes.
pub fn draw_pixel(
    buffer: &mut [u8],
    width: u32,
    height: u32,
    rotation: DisplayRotation,
    pixel: Pixel,
)
    requires
        buffer_len_spec(width as int, height as int) <= old(buffer)@.len(),
    ensures
        final(buffer)@ == drawn(old(buffer)@, width as int, height as int, rotation, pixel),
        final(buffer)@.len() == old(buffer)@.len(),
{
    let Pixel(point, color) = pixel;
    if outside_display(point, width, height, rotation) {
        return;
    }
    let len = buffer.len();
    assert(buffer_len_spec(width as int, height as int) <= len);
    // Give us index inside the buffer and the bit-position in that u8 which needs to be changed
    let (index, bit) = find_position(point.x as u32, point.y as u32, width, height, rotation);

    // "Draw" the Pixel on that bit
    match color {
        Color::Dark => {
            buffer[index] = buffer[index] & !bit;
        },
        Color::Green => {
            buffer[index] = buffer[index] | bit;
        },
    }
}

/// The colour that `buffer` holds at `(x, y)`: `Green` where the pixel's bit is set.
pub open spec fn color_at(
    buffer: Seq<u8>,
    width: int,
    height: int,
    rotation: DisplayRotation,
    x: int,
    y: int,
) -> Color {
    let i = byte_index(x, y, width, height, rotation);
    if buffer[i] & bit_mask(x, y, width, height, rotation) != 0 {
        Color::Green
    } else {
        Color::Dark
    }
}

proof fn lemma_single_bit(b: u8, k: u8)
    by (bit_vector)
    requires
        k < 8,
    ensures
        ((b & !(0x80u8 >> k)) | (0x80u8 >> k)) == b | (0x80u8 >> k),
        ((b | (0x80u8 >> k)) & !(0x80u8 >> k)) == b & !(0x80u8 >> k),
        (b | (0x80u8 >> k)) | (0x80u8 >> k) == b | (0x80u8 >> k),
        (b & !(0x80u8 >> k)) & !(0x80u8 >> k) == b & !(0x80u8 >> k),
        b & (0x80u8 >> k) != 0 ==> b | (0x80u8 >> k) == b,
        b & (0x80u8 >> k) == 0 ==> b & !(0x80u8 >> k) == b,
        (b | (0x80u8 >> k)) & (0x80u8 >> k) != 0,
        (b & !(0x80u8 >> k)) & (0x80u8 >> k) == 0,
{
}

/// Drawing a colour at a point and then drawing another there is the same as
/// drawing the second alone; so drawing the same pixel twice is drawing it once.
/// Drawing the colour that a point already shows changes nothing, so drawing the
/// inverse colour and then the present one restores the buffer.
pub proof fn lemma_draw_round_trip(
    buffer: Seq<u8>,
    width: int,
    height: int,
    rotation: DisplayRotation,
    point: Point,
    first: Color,
    second: Color,
)
    requires
        buffer_len_spec(width, height) <= buffer.len(),
    ensures
        drawn(drawn(buffer, width, height, rotation, Pixel(point, first)), width, height, rotation, Pixel(point, second))
            == drawn(buffer, width, height, rotation, Pixel(point, second)),
        !is_outside(point.x as int, point.y as int, width, height, rotation) && color_at(
            buffer,
            width,
            height,
            rotation,
            point.x as int,
            point.y as int,
        ) == second ==> drawn(buffer, width, height, rotation, Pixel(point, second)) == buffer,
        !is_outside(point.x as int, point.y as int, width, height, rotation) ==> color_at(
            drawn(buffer, width, height, rotation, Pixel(point, second)),
            width,
            height,
            rotation,
            point.x as int,
            point.y as int,
        ) == second,
{
    let x = point.x as int;
    let y = point.y as int;
    if !is_outside(x, y, width, height, rotation) {
        lemma_inside_addresses_buffer(x, y, width, height, rotation);
        let i = byte_index(x, y, width, height, rotation);
        let k = (rotated(x, y, width, height, rotation).0 % 8) as u8;
        lemma_single_bit(buffer[i], k);
        let once = drawn(buffer, width, height, rotation, Pixel(point, first));
        let twice = drawn(once, width, height, rotation, Pixel(point, second));
        let direct = drawn(buffer, width, height, rotation, Pixel(point, second));
        assert(twice =~= direct);
        if color_at(buffer, width, height, rotation, x, y) == second {
            assert(direct =~= buffer);
        }
    }
}

/// A pixel off the canvas is clipped: drawing it leaves the buffer as it was.
/// Negative coordinates are off the canvas under every rotation, and the column
/// `width` is off it without rotation.
pub proof fn lemma_clipped_draw(
    buffer: Seq<u8>,
    width: int,
    height: int,
    rotation: DisplayRotation,
    pixel: Pixel,
)
    requires
        pixel.0.x < 0 || pixel.0.y < 0 || (rotation == DisplayRotation::Rotate0 && pixel.0.x
            == width),
    ensures
        drawn(buffer, width, height, rotation, pixel) == buffer,
{
}

/// Necessary methods for all displays to implement for drawing
///
/// Adds support for:
/// - Drawing single pixels through the buffer addressing
/// - Rotations
/// - Clearing
pub trait Display {
    /// The bytes of the frame buffer.
    spec fn buffer_view(&self) -> Seq<u8>;

    /// The rotation that drawing applies.
    spec fn rotation_view(&self) -> DisplayRotation;

    /// Width and height of the canvas in pixels.
    spec fn size_view(&self) -> (u32, u32);

    /// Width and height of the canvas in pixels.
    fn size(&self) -> (r: (u32, u32))
        ensures
            r == self.size_view(),
    ;

    /// Clears the buffer of the display with the chosen background color
    fn clear_buffer(&mut self, background_color: Color)
        ensures
            final(self).buffer_view().len() == old(self).buffer_view().len(),
            forall|i: int|
                0 <= i < final(self).buffer_view().len() ==> #[trigger] final(self).buffer_view()[i]
                    == background_color.byte_spec(),
            final(self).rotation_view() == old(self).rotation_view(),
            final(self).size_view() == old(self).size_view(),
    {
        let buffer = self.get_mut_buffer();
        let n = buffer.len();
        let mut i: usize = 0;
        while i < n
            invariant
                buffer@.len() == n,
                0 <= i <= n,
                forall|j: int| 0 <= j < i ==> #[trigger] buffer@[j] == background_color.byte_spec(),
            decreases n - i,
        {
            buffer[i] = background_color.get_byte_value();
            i = i + 1;
        }
    }

    /// Returns the buffer
    fn buffer(&self) -> (r: &[u8])
        ensures
            r@ == self.buffer_view(),
    ;

    /// Returns a mutable buffer
    fn get_mut_buffer(&mut self) -> (r: &mut [u8])
        ensures
            r@ == old(self).buffer_view(),
            final(self).buffer_view() == final(r)@,
            final(self).rotation_view() == old(self).rotation_view(),
            final(self).size_view() == old(self).size_view(),
    ;

    /// Sets the rotation of the display
    fn set_rotation(&mut self, rotation: DisplayRotation)
        ensures
            final(self).rotation_view() == rotation,
            final(self).buffer_view() == old(self).buffer_view(),
            final(self).size_view() == old(self).size_view(),
    ;

    /// Get the current rotation of the display
    fn rotation(&self) -> (r: DisplayRotation)
        ensures
            r == self.rotation_view(),
    ;

    /// Draws one pixel into a buffer laid out for a `width` by `height` canvas.
    /// A pixel off the canvas is clipped: nothing changes.
    fn draw_helper(&mut self, width: u32, height: u32, pixel: Pixel)
        requires
            buffer_len_spec(width as int, height as int) <= old(self).buffer_view().len(),
        ensures
            final(self).buffer_view() == drawn(
                old(self).buffer_view(),
                width as int,
                height as int,
                old(self).rotation_view(),
                pixel,
            ),
            final(self).buffer_view().len() == old(self).buffer_view().len(),
            final(self).rotation_view() == old(self).rotation_view(),
            final(self).size_view() == old(self).size_view(),
    {
        let rotation = self.rotation();
        let buffer = self.get_mut_buffer();
        draw_pixel(buffer, width, height, rotation, pixel);
    }

    /// Draws each pixel in turn on the display's own canvas; pixels off the
    /// canvas are clipped.
    fn draw_iter(&mut self, pixels: &Vec<Pixel>)
        requires
            buffer_len_spec(old(self).size_view().0 as int, old(self).size_view().1 as int)
                <= old(self).buffer_view().len(),
        ensures
            final(self).buffer_view() == drawn_all(
                old(self).buffer_view(),
                old(self).size_view().0 as int,
                old(self).size_view().1 as int,
                old(self).rotation_view(),
                pixels@,
            ),
            final(self).rotation_view() == old(self).rotation_view(),
            final(self).size_view() == old(self).size_view(),
    {
        let mut i: usize = 0;
        while i < pixels.len()
            invariant
                self.size_view() == old(self).size_view(),
                self.rotation_view() == old(self).rotation_view(),
                buffer_len_spec(self.size_view().0 as int, self.size_view().1 as int)
                    <= self.buffer_view().len(),
                0 <= i <= pixels@.len(),
                self.buffer_view() == drawn_all(
                    old(self).buffer_view(),
                    self.size_view().0 as int,
                    self.size_view().1 as int,
                    self.rotation_view(),
                    pixels@.subrange(0, i as int),
                ),
            decreases pixels@.len() - i,
        {
            let (width, height) = self.size();
            self.draw_helper(width, height, pixels[i]);
            assert(pixels@.subrange(0, i + 1).drop_last() == pixels@.subrange(0, i as int));
            i = i + 1;
        }
        assert(pixels@.subrange(0, i as int) == pixels@);
    }
}

/// Construction of a display failed: the buffer is shorter than the canvas needs.
#[derive(Debug, PartialEq, Eq, Structural)]
pub struct BufferSizeError {
    /// Bytes the canvas needs
    pub required: u64,
    /// Bytes the buffer holds
    pub actual: usize,
}

/// A variable Display without a predefined buffer
///
/// The buffer can be created as following:
/// `vec![background.get_byte_value(); buffer_len(width, height)]`
pub struct VarDisplay {
    width: u32,
    height: u32,
    rotation: DisplayRotation,
    buffer: Vec<u8>,
}

impl VarDisplay {
    /// Create a new variable sized display.
    ///
    /// Buffersize must be at least (width + 7) / 8 * height bytes; a shorter
    /// buffer is refused.
    pub fn new(width: u32, height: u32, buffer: Vec<u8>) -> (r: Result<VarDisplay, BufferSizeError>)
        ensures
            r is Ok <==> buffer_len_spec(width as int, height as int) <= buffer@.len(),
            r matches Ok(d) ==> {
                &&& d.size_view() == (width, height)
                &&& d.rotation_view() == DisplayRotation::Rotate0
                &&& d.buffer_view() == buffer@
            },
            r matches Err(e) ==> e.required == buffer_len_spec(width as int, height as int)
                && e.actual == buffer@.len(),
    {
        let row: u64 = (width / 8) as u64 + if width % 8 == 0 { 0 } else { 1 };
        assert(row == crate::bytes_per_row(width as int));
        assert(row * height <= 0x2000_0000u64 * 0x1_0000_0000u64) by (nonlinear_arith)
            requires
                row <= 0x2000_0000u64,
                height <= 0xffff_ffffu64,
        ;
        let required: u64 = row * (height as u64);
        let actual = buffer.len();
        if (actual as u64) < required {
            return Err(BufferSizeError { required, actual });
        }
        Ok(VarDisplay { width, height, rotation: DisplayRotation::default(), buffer })
    }
}

impl Display for VarDisplay {
    closed spec fn buffer_view(&self) -> Seq<u8> {
        self.buffer@
    }

    closed spec fn rotation_view(&self) -> DisplayRotation {
        self.rotation
    }

    closed spec fn size_view(&self) -> (u32, u32) {
        (self.width, self.height)
    }

    fn size(&self) -> (r: (u32, u32)) {
        (self.width, self.height)
    }

    fn buffer(&self) -> (r: &[u8]) {
        self.buffer.as_slice()
    }

    fn get_mut_buffer(&mut self) -> (r: &mut [u8]) {
        self.buffer.as_mut_slice()
    }

    fn set_rotation(&mut self, rotation: DisplayRotation) {
        self.rotation = rotation;
    }

    fn rotation(&self) -> (r: DisplayRotation) {
        self.rotation
    }
}

} // verus!
