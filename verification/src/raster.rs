//! Raster conventions for writing traced pixels into an image.
//!
//! The tracer scans rows from the bottom of the image plane upward, while
//! the image buffer puts row zero at the top, so every scanline index is
//! flipped before the write.

use vstd::prelude::*;

verus! {

/// The image row a scanline lands on: scanline zero is the bottom of the
/// image plane, image row zero is the top of the picture.
pub open spec fn flipped_row(row: int, height: int) -> int {
    height - 1 - row
}

/// Maps a scanline index to the image row it is written to.
pub fn output_row(row: u32, height: u32) -> (r: u32)
    requires
        row < height,
    ensures
        r == flipped_row(row as int, height as int),
        r < height,
{
    height - 1 - row
}

/// Flipping a row twice gives back the row: writing the scan bottom-up into
/// a top-down buffer reorders the rows without losing or doubling any.
pub proof fn flipped_row_involutes(row: int, height: int)
    ensures
        flipped_row(flipped_row(row, height), height) == row,
{
}

} // verus!
