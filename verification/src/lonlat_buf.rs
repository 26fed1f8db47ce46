//! The geographic coordinate buffer: the common intermediate every
//! backend converts in and out of.

use vstd::prelude::*;
use crate::ellipsoid::Ellipsoid;
use crate::error::ProjectionError;

verus! {

/// A batch of geographic coordinates: an ordered sequence of
/// (longitude, latitude) pairs in degrees, as double-precision encodings,
/// on a given ellipsoid.  It carries no reference-system tag because the
/// geographic representation is itself the common intermediate.
pub struct LonLatBuf {
    /// The coordinates, in (longitude, latitude) order.
    pub data: Vec<(u64, u64)>,
    /// The ellipsoid the coordinates are expressed on.
    pub ellipsoid: Ellipsoid,
}

impl LonLatBuf {
    /// Rebases the buffer onto `target_ellipsoid`.  With an equal
    /// ellipsoid this is a no-op; no conversion between two different
    /// ellipsoids exists here, so any difference is refused outright and
    /// the buffer is left untouched.
    pub fn project_to_ellipsoid(&mut self, target_ellipsoid: Ellipsoid) -> (r: Result<
        (),
        ProjectionError,
    >)
        ensures
            (r is Ok) <==> old(self).ellipsoid == target_ellipsoid,
            (r is Err) ==> r == Err::<(), ProjectionError>(ProjectionError::EllipsoidMismatch),
            *final(self) == *old(self),
    {
        if self.ellipsoid == target_ellipsoid {
            Ok(())
        } else {
            Err(ProjectionError::EllipsoidMismatch)
        }
    }
}

} // verus!
