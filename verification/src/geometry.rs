use vstd::prelude::*;

verus! {

/// The computed footprint of a node: a non-negative extent on both axes.
#[derive(Clone, Copy, Debug, PartialEq, Eq, Structural)]
pub struct Size {
    pub width: u16,
    pub height: u16,
}

/// An absolute position. Both coordinates are signed: a node may be placed
/// outside the visible viewport, and clipping is a rendering-time concern.
#[derive(Clone, Copy, Debug, PartialEq, Eq, Structural)]
pub struct Pos {
    pub x: i32,
    pub y: i32,
}

} // verus!
