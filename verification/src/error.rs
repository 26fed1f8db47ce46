//! The error taxonomy of the reprojection pipeline.

use vstd::prelude::*;

verus! {

/// Why a reprojection request is refused.  Every error is raised before
/// any destination-side conversion work, so a failed request never leaves
/// a partially transformed target.
#[derive(Debug, Clone, Copy, PartialEq, Eq, Structural)]
pub enum ProjectionError {
    /// Source and target ellipsoids differ in at least one field.
    /// Converting data between two different ellipsoids is unsupported,
    /// and guessing a conversion would silently produce wrong coordinates,
    /// so the request fails loudly instead.
    EllipsoidMismatch,
    /// An execution strategy a backend does not recognize.  Every strategy
    /// currently defined is supported by both backends, so no present
    /// input produces this variant; it reserves the error surface for
    /// strategies a backend may not implement.
    UnsupportedStrategy,
}

} // verus!
