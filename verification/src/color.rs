//! Plain-value carriers for the scalar data a scene holds.
//!
//! The rendering host works with IEEE-754 single-precision components; the
//! verified model never computes on them, it only stores, copies and compares
//! them. Each component is therefore carried as its 32-bit pattern, which
//! preserves every value exactly and keeps equality meaningful.

use vstd::prelude::*;

verus! {

/// An RGB color; each channel is the bit pattern of a single-precision value.
#[derive(PartialEq, Eq, Structural, Clone, Copy, Debug)]
pub struct Rgb {
    pub r: u32,
    pub g: u32,
    pub b: u32,
}

impl Rgb {
    /// Packs three channel bit patterns into a color.
    pub fn new(r: u32, g: u32, b: u32) -> (c: Rgb)
        ensures
            c == (Rgb { r, g, b }),
    {
        Rgb { r, g, b }
    }
}

/// A point or translation in space; components are single-precision bit patterns.
#[derive(PartialEq, Eq, Structural, Clone, Copy, Debug)]
pub struct Position {
    pub x: u32,
    pub y: u32,
    pub z: u32,
}

impl Position {
    /// Packs three coordinate bit patterns into a position.
    pub fn new(x: u32, y: u32, z: u32) -> (p: Position)
        ensures
            p == (Position { x, y, z }),
    {
        Position { x, y, z }
    }
}

/// A two-dimensional extent; components are single-precision bit patterns.
#[derive(PartialEq, Eq, Structural, Clone, Copy, Debug)]
pub struct Size2 {
    pub width: u32,
    pub height: u32,
}

impl Size2 {
    /// Packs two extent bit patterns into a size.
    pub fn new(width: u32, height: u32) -> (s: Size2)
        ensures
            s == (Size2 { width, height }),
    {
        Size2 { width, height }
    }
}

} // verus!
