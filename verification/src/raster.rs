//! Raster-order enumeration of pixel coordinates. Rendering walks the image
//! top row first and left to right within a row; the coordinate list drives
//! the per-pixel sampling work and fixes the order the output lines take.
use vstd::prelude::*;

use vstd::arithmetic::div_mod::lemma_fundamental_div_mod_converse;

verus! {

/// All pixel coordinates of a `width` by `height` image as (row, column)
/// pairs in raster order: the `k`th entry is row `k / width`, column
/// `k % width`.
pub fn pixel_coordinates(width: u32, height: u32) -> (v: Vec<(u32, u32)>)
    requires
        width * height <= usize::MAX,
    ensures
        v@.len() == width * height,
        forall|k: int|
            0 <= k < v@.len() ==> (#[trigger] v@[k]).0 == k / (width as int) && v@[k].1 == k % (
            width as int),
{
    let mut v: Vec<(u32, u32)> = Vec::new();
    let mut row: u32 = 0;
    while row < height
        invariant
            row <= height,
            width * height <= usize::MAX,
            v@.len() == row * width,
            forall|k: int|
                0 <= k < v@.len() ==> (#[trigger] v@[k]).0 == k / (width as int) && v@[k].1 == k
                    % (width as int),
        decreases height - row,
    {
        let mut col: u32 = 0;
        proof {
            assert((row + 1) * width <= height * width) by (nonlinear_arith)
                requires
                    row < height,
                    width >= 0,
            ;
            assert(height * width == width * height) by (nonlinear_arith);
            assert((row + 1) * width == row * width + width) by (nonlinear_arith);
        }
        while col < width
            invariant
                col <= width,
                row < height,
                row * width + width <= usize::MAX,
                v@.len() == row * width + col,
                forall|k: int|
                    0 <= k < v@.len() ==> (#[trigger] v@[k]).0 == k / (width as int) && v@[k].1
                        == k % (width as int),
            decreases width - col,
        {
            v.push((row, col));
            proof {
                let k = v@.len() - 1;
                lemma_fundamental_div_mod_converse(
                    k,
                    width as int,
                    row as int,
                    col as int,
                );
            }
            col = col + 1;
        }
        proof {
            assert((row + 1) * width == row * width + width) by (nonlinear_arith);
        }
        row = row + 1;
    }
    proof {
        assert(height * width == width * height) by (nonlinear_arith);
    }
    v
}

} // verus!
