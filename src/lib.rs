//! Integer core of a sample-based path tracer: random integer draws, the
//! permutation tables behind lattice noise, PPM text encoding and the
//! bookkeeping of an output picture.

pub mod perlin;
pub mod picture;
pub mod texture;
pub mod color;
pub mod image_buf;
pub mod integrator;
pub mod materials;
pub mod util;
