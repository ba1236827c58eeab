//! Looking a colour up in an image.

use vstd::prelude::*;

verus! {

/// The pixel of an image of the given size from which a texture reads, for
/// the column `i` and the row `j` that the surface coordinates came to:
/// the same pixel, but the last column or row where the image ends before.
pub fn texel(i: u32, j: u32, width: u32, height: u32) -> (r: (u32, u32))
    requires
        width > 0,
        height > 0,
    ensures
        r.0 == (if i >= width {
            width - 1
        } else {
            i as int
        }),
        r.1 == (if j >= height {
            height - 1
        } else {
            j as int
        }),
{
    let mut i = i;
    let mut j = j;
    // Surface coordinates of exactly one fall just outside the image.
    if i >= width {
        i = width - 1;
    }
    if j >= height {
        j = height - 1;
    }
    (i, j)
}

} // verus!
