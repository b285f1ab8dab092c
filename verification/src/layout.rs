use vstd::prelude::*;

use crate::geometry::Pos;
use crate::geometry::Size;

verus! {

/// The primary direction along which a stack arranges its children.
#[derive(Clone, Copy, Debug, PartialEq, Eq, Structural)]
pub enum Axis {
    Horizontal,
    Vertical,
}

/// Iteration order along the axis: forward from the near edge, or backward
/// from the far edge.
#[derive(Clone, Copy, Debug, PartialEq, Eq, Structural)]
pub enum Direction {
    Forward,
    Backward,
}

impl Default for Direction {
    /// The direction a node falls back to when it sets none.
    fn default() -> (r: Direction)
        ensures
            r == Direction::Forward,
    {
        Direction::Forward
    }
}

/// The sizing mode handed to the distribution engine: `Bounded` keeps the
/// children inside the constraint envelope, `Unbounded` lets the engine
/// overrun the envelope's maxima. Which nodes should ever pick `Unbounded`
/// is an open design question, so the mode is a caller-supplied toggle
/// rather than a constant of this core.
#[derive(Clone, Copy, Debug, PartialEq, Eq, Structural)]
pub enum ConstraintMode {
    Bounded,
    Unbounded,
}

/// Why a sizing pass failed.
#[derive(Clone, Copy, Debug, PartialEq, Eq, Structural)]
pub enum LayoutError {
    /// The children cannot fit in the space they were offered. Callers may
    /// treat this as recoverable.
    InsufficientSpace,
    /// Any other failure surfaced by a child or by the distribution engine.
    Failed,
}

/// The per-visit signal of a positioning traversal: `Stop` requests early
/// termination. The stack's own visits always answer `Continue`; the signal
/// exists for other consumers of the traversal.
#[derive(Clone, Copy, Debug, PartialEq, Eq, Structural)]
pub enum Signal {
    Continue,
    Stop,
}

/// The allowed size envelope passed down during sizing: a minimum and a
/// maximum per dimension.
#[derive(Clone, Copy, Debug, PartialEq, Eq, Structural)]
pub struct Constraints {
    pub min_width: u16,
    pub min_height: u16,
    pub max_width: u16,
    pub max_height: u16,
}

impl Constraints {
    /// Both dimensions offer a non-empty range.
    pub open spec fn is_valid(self) -> bool {
        self.min_width <= self.max_width && self.min_height <= self.max_height
    }

    /// Forces the width to exactly `width`: minimum and maximum collapse to
    /// it, whatever range was inherited.
    pub fn make_width_tight(&mut self, width: u16)
        ensures
            final(self).min_width == width,
            final(self).max_width == width,
            final(self).min_height == old(self).min_height,
            final(self).max_height == old(self).max_height,
    {
        self.min_width = width;
        self.max_width = width;
    }

    /// Forces the height to exactly `height`: minimum and maximum collapse
    /// to it, whatever range was inherited.
    pub fn make_height_tight(&mut self, height: u16)
        ensures
            final(self).min_height == height,
            final(self).max_height == height,
            final(self).min_width == old(self).min_width,
            final(self).max_width == old(self).max_width,
    {
        self.min_height = height;
        self.max_height = height;
    }
}

/// The request handed to the size-distribution engine: the (possibly
/// overridden) constraints, the stack's fixed axis, and the sizing mode.
#[derive(Clone, Copy, Debug, PartialEq, Eq, Structural)]
pub struct DistributionRequest {
    pub constraints: Constraints,
    pub axis: Axis,
    pub mode: ConstraintMode,
}

/// What a positioning pass is given: the container's origin and its resolved
/// inner size, which anchors backward walks at the far edge.
#[derive(Clone, Copy, Debug, PartialEq, Eq, Structural)]
pub struct PositionCtx {
    pub pos: Pos,
    pub inner_size: Size,
}

} // verus!
