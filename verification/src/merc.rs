//! The Mercator coordinate reference system: the decisions of the
//! conversion that are exact functions of the coordinate encodings.
//!
//! The forward conversion clamps latitudes to the band where the projection
//! is defined, and the inverse conversion runs a bounded fixed-point
//! iteration for the footpoint latitude; the clamp and the stopping rule of
//! that iteration are exact functions of the encodings and are verified
//! here, while the surrounding double-precision arithmetic lives outside
//! the verified library.

use vstd::prelude::*;
use crate::coordinate_buf::CoordinateBuf;
use crate::crs::Crs;
use crate::ellipsoid::Ellipsoid;
use crate::float_bits::{gt_bits, lt_bits, magnitude_bits};
use crate::float_bits::{bits_abs, bits_gt, bits_lt};
use crate::lonlat_buf::LonLatBuf;
use crate::multithreading::{map_batch, MultithreadingStrategy};

verus! {

/// The Mercator coordinate reference system.
#[derive(Debug, Clone, Copy, PartialEq, Eq, Structural)]
pub struct MercatorSystem;

impl MercatorSystem {
    /// Converts a batch of Mercator coordinates to geographic ones, given
    /// the per-point inverse conversion, under `strategy`: the result
    /// keeps the batch's length and order, with slot `i` converted from
    /// slot `i`, and carries the ellipsoid it was converted on.
    pub fn to_lon_lat_with<F: Fn((u64, u64)) -> (u64, u64) + Sync>(
        &self,
        data: Vec<(u64, u64)>,
        ellipsoid: &Ellipsoid,
        strategy: &mut MultithreadingStrategy,
        kernel: F,
    ) -> (result: LonLatBuf)
        requires
            forall|p: (u64, u64)| #[trigger] call_requires(kernel, (p,)),
        ensures
            result.ellipsoid == *ellipsoid,
            result.data@.len() == data@.len(),
            forall|i: int|
                0 <= i < data@.len() ==> call_ensures(
                    kernel,
                    (data@[i],),
                    #[trigger] result.data@[i],
                ),
    {
        let mut data = data;
        map_batch(strategy, &mut data, kernel);
        LonLatBuf { data, ellipsoid: *ellipsoid }
    }

    /// Converts a batch of geographic coordinates to Mercator units,
    /// given the per-point forward conversion, under `strategy`: the
    /// result keeps length and order and is tagged with this system and
    /// the ellipsoid.
    pub fn from_lon_lat_with<F: Fn((u64, u64)) -> (u64, u64) + Sync>(
        &self,
        data: Vec<(u64, u64)>,
        ellipsoid: &Ellipsoid,
        strategy: &mut MultithreadingStrategy,
        kernel: F,
    ) -> (result: CoordinateBuf)
        requires
            forall|p: (u64, u64)| #[trigger] call_requires(kernel, (p,)),
        ensures
            result.crs == Crs::Mercator(*self),
            result.ellipsoid == *ellipsoid,
            result.data@.len() == data@.len(),
            forall|i: int|
                0 <= i < data@.len() ==> call_ensures(
                    kernel,
                    (data@[i],),
                    #[trigger] result.data@[i],
                ),
    {
        let mut data = data;
        map_batch(strategy, &mut data, kernel);
        CoordinateBuf { data, crs: Crs::Mercator(*self), ellipsoid: *ellipsoid }
    }
}

/// Encoding of 89.5 degrees, the northern edge of the band the forward
/// conversion accepts; latitudes above it are clamped down to it, keeping
/// clear of the asymptote at the pole.
pub const MAX_MERCATOR_LAT: u64 = 0x4056600000000000;

/// Encoding of -89.5 degrees, the southern edge of the accepted band.
pub const MIN_MERCATOR_LAT: u64 = 0xC056600000000000;

/// Encoding of 1e-10, the tolerance of the footpoint-latitude iteration.
pub const PHI_ITERATION_TOLERANCE: u64 = 0x3DDB7CDFD9D7BDBB;

/// How many times the footpoint-latitude iteration counter is decremented
/// before the loop gives up and returns its best estimate.
pub const PHI_ITERATION_LIMIT: u32 = 15;

/// The latitude the forward conversion actually projects: `lat` clamped
/// into the band from -89.5 to 89.5 degrees.  NaN passes through.
pub open spec fn spec_clamp_lat(lat: u64) -> u64 {
    if gt_bits(lat, MAX_MERCATOR_LAT) {
        MAX_MERCATOR_LAT
    } else if lt_bits(lat, MIN_MERCATOR_LAT) {
        MIN_MERCATOR_LAT
    } else {
        lat
    }
}

/// Clamps a latitude encoding into the band the forward conversion
/// projects.
pub fn clamp_latitude(lat: u64) -> (r: u64)
    ensures
        r == spec_clamp_lat(lat),
{
    if bits_gt(lat, MAX_MERCATOR_LAT) {
        MAX_MERCATOR_LAT
    } else if bits_lt(lat, MIN_MERCATOR_LAT) {
        MIN_MERCATOR_LAT
    } else {
        lat
    }
}

/// Every latitude above the northern edge clamps to the same value the
/// edge itself clamps to, so the forward conversion treats them all
/// identically to 89.5 degrees.
pub proof fn lemma_clamp_high(lat: u64)
    requires
        gt_bits(lat, MAX_MERCATOR_LAT),
    ensures
        spec_clamp_lat(lat) == spec_clamp_lat(MAX_MERCATOR_LAT),
        spec_clamp_lat(lat) == MAX_MERCATOR_LAT,
{
}

/// Every latitude below the southern edge clamps to the same value the
/// edge itself clamps to, so the forward conversion treats them all
/// identically to -89.5 degrees.
pub proof fn lemma_clamp_low(lat: u64)
    requires
        lt_bits(lat, MIN_MERCATOR_LAT),
    ensures
        spec_clamp_lat(lat) == spec_clamp_lat(MIN_MERCATOR_LAT),
        spec_clamp_lat(lat) == MIN_MERCATOR_LAT,
{
}

/// Has the footpoint-latitude iteration converged: is the magnitude of
/// the latest update strictly below the tolerance?
pub open spec fn spec_phi_iteration_converged(dphi: u64) -> bool {
    lt_bits(magnitude_bits(dphi), PHI_ITERATION_TOLERANCE)
}

/// Stopping rule of the footpoint-latitude iteration.
pub fn phi_iteration_converged(dphi: u64) -> (r: bool)
    ensures
        r == spec_phi_iteration_converged(dphi),
{
    bits_lt(bits_abs(dphi), PHI_ITERATION_TOLERANCE)
}

/// The control state of the bounded footpoint-latitude solve: a refinement
/// budget that runs down step by step.  The solve refines its estimate
/// until an update magnitude drops below the tolerance or the budget is
/// spent, whichever comes first, and then keeps the last estimate — a
/// best-effort bound, not a convergence guarantee.
pub struct PhiIteration {
    /// How many further refinement steps the solve may still take.
    pub budget: u32,
}

impl PhiIteration {
    /// A fresh control state with the full refinement budget.
    pub fn start() -> (s: PhiIteration)
        ensures
            s.budget == PHI_ITERATION_LIMIT,
    {
        PhiIteration { budget: PHI_ITERATION_LIMIT }
    }

    /// Accounts one refinement step whose update was `dphi` and decides
    /// whether the solve stops here: it does exactly when the update
    /// magnitude is below the tolerance or the budget was already spent.
    pub fn should_stop(&mut self, dphi: u64) -> (stop: bool)
        ensures
            stop == (spec_phi_iteration_converged(dphi) || old(self).budget == 0),
            final(self).budget == if old(self).budget > 0 {
                (old(self).budget - 1) as u32
            } else {
                0u32
            },
    {
        let stop = phi_iteration_converged(dphi) || self.budget == 0;
        if self.budget > 0 {
            self.budget = self.budget - 1;
        }
        stop
    }
}

} // verus!
