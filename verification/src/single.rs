use vstd::prelude::*;

use crate::geometry::Size;
use crate::layout::LayoutError;

verus! {

/// The legacy single-child layout: lays out at most one generated child
/// against padded constraints, and treats a child that cannot fit as a
/// silent, recoverable condition rather than a failure of the pass.
pub struct Single;

impl Single {
    /// Completes a single-child sizing pass from the child layout's outcome.
    /// No generated child leaves the reported size untouched; a laid-out
    /// child's size is adopted; a child that failed for want of space is
    /// swallowed, the size again untouched; any other failure propagates
    /// unchanged.
    pub fn layout(&self, size: &mut Size, outcome: Option<Result<Size, LayoutError>>) -> (r:
        Result<(), LayoutError>)
        ensures
            match outcome {
                None => r == Ok::<(), LayoutError>(()) && *final(size) == *old(size),
                Some(Ok(s)) => r == Ok::<(), LayoutError>(()) && *final(size) == s,
                Some(Err(LayoutError::InsufficientSpace)) => r == Ok::<(), LayoutError>(())
                    && *final(size) == *old(size),
                Some(Err(e)) => r == Err::<(), LayoutError>(e) && *final(size) == *old(size),
            },
    {
        match outcome {
            None => Ok(()),
            Some(Ok(s)) => {
                *size = s;
                Ok(())
            },
            Some(Err(LayoutError::InsufficientSpace)) => Ok(()),
            Some(Err(e)) => Err(e),
        }
    }
}

} // verus!
