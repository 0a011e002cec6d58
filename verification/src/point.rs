//! Points with floating-point coordinates, carried bit for bit.

use vstd::prelude::*;

verus! {

/// A point whose coordinates are single-precision floats, each carried as
/// its IEEE 754 bit pattern. The library moves coordinates around and never
/// computes with them.
#[derive(Clone, Copy, Debug, PartialEq, Eq, Structural)]
pub struct Point {
    pub x: u32,
    pub y: u32,
}

} // verus!
