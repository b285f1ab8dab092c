//! A directional stack-layout core for a retained widget tree.
//!
//! The stack orchestrator derives effective sizing constraints from a node's
//! attribute overrides, hands them to a size-distribution engine, and then
//! walks the already-sized children a second time to assign each an absolute
//! position along the stack's axis, in forward or backward order.

pub mod attributes;
pub mod geometry;
pub mod layout;
pub mod single;
pub mod stacks;
