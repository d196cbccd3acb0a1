//! A driver for EEI Tech VFD panels driven over SPI.
//!
//! The library holds the logic of the driver: the packed 1-bit frame buffer
//! and its addressing under rotation, the framing of command transactions,
//! and the command plans of the GP1287BI panel. Performing the plans on real
//! hardware is left to the caller.
use vstd::prelude::*;

pub mod color;
pub mod traits;
pub mod gp1287bi;
pub mod graphics;
pub mod interface;

verus! {

/// Bytes needed for one row of `width` pixels, eight pixels to a byte.
pub open spec fn bytes_per_row(width: int) -> int {
    (width + 7) / 8
}

/// Bytes needed for a frame buffer of `width` by `height` pixels.
pub open spec fn buffer_len_spec(width: int, height: int) -> int {
    bytes_per_row(width) * height
}

/// Computes the needed buffer length. Takes care of rounding up in case width
/// is not divisible by 8.
///
/// ```text
///  unused
///  bits        width
/// <----><------------------------>
/// [XXXXX210][76543210]...[76543210] ^
/// [XXXXX210][76543210]...[76543210] | height
/// [XXXXX210][76543210]...[76543210] v
/// ```
pub fn buffer_len(width: usize, height: usize) -> (r: usize)
    requires
        buffer_len_spec(width as int, height as int) <= usize::MAX,
    ensures
        r == buffer_len_spec(width as int, height as int),
{
    let row: usize = width / 8 + if width % 8 == 0 { 0 } else { 1 };
    assert(row == bytes_per_row(width as int));
    row * height
}

} // verus!
