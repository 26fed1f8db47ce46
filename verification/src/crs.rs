//! The closed set of coordinate reference systems the pipeline dispatches
//! over, each variant carrying the parameters of its backend.

use vstd::prelude::*;
use crate::merc::MercatorSystem;
use crate::utm::UTMSystem;

verus! {

/// A coordinate reference system tag: identifies which projection backend
/// owns a batch of coordinates and carries that backend's parameters.
#[derive(Debug, Clone, Copy, PartialEq, Eq, Structural)]
pub enum Crs {
    /// The UTM backend, with its zone.
    UTM(UTMSystem),
    /// The Mercator backend.
    Mercator(MercatorSystem),
}

} // verus!
