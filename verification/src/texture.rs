//! The decision rule of the checkerboard texture. Scaling a hit point and
//! taking the floor of each coordinate is floating-point and happens outside
//! the core; the choice between the two sub-textures is the parity of the
//! resulting integer lattice cell, and that rule lives here.
use vstd::prelude::*;

verus! {

/// Whether the lattice cell at integer coordinates (`x`, `y`, `z`) is an
/// "even" cell of the checkerboard: the coordinate sum has even parity, so
/// the even sub-texture is sampled there.
pub fn checker_is_even(x: i32, y: i32, z: i32) -> (r: bool)
    ensures
        r == ((x + y + z) % 2 == 0),
{
    let s: i64 = x as i64 + y as i64 + z as i64;
    let m: i64 = match s.checked_rem_euclid(2) {
        Some(v) => v,
        None => 0,
    };
    m == 0
}

} // verus!
