//! Integer core of a recursive ray tracer: the recursion-depth policy of the
//! shading step, the checkerboard floor's tiling, and the 8-bit frame buffer
//! with its binary pixel map encoding.

pub mod checker;
pub mod image;
pub mod trace;
