//! Verified core of an offline path-tracing renderer: the selector for the
//! built-in demo scenes, the raster-order pixel enumeration that drives
//! rendering, the integer lattice hashing behind Perlin noise, and the exact
//! text encoding of the rendered image. The geometric and radiometric parts
//! of the renderer are floating-point throughout and live outside this crate,
//! consuming and feeding the values specified here.

pub mod color;
pub mod perlin;
pub mod ppm;
pub mod raster;
pub mod scene;
pub mod texture;
