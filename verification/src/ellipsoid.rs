//! The reference-ellipsoid model.
//!
//! An ellipsoid is a pure value: semi-major axis, semi-minor axis and the
//! positioning parameters, each held as the 64-bit encoding of a
//! double-precision value in meters.  Equality is exact, field by field, on
//! the encodings — deliberately no tolerance, since converting between two
//! ellipsoids that differ at all is unsupported and must fail loudly rather
//! than approximate.

use vstd::prelude::*;
use crate::float_bits::{is_finite_bits, lt_bits};
use crate::float_bits::{bits_is_finite, bits_lt};

verus! {

/// Geometric parameters of a reference ellipsoid, as double-precision
/// encodings.  The value is immutable once built and compares field-wise.
#[derive(Debug, Clone, Copy, PartialEq, Eq, Structural)]
pub struct Ellipsoid {
    /// Semi-major axis, in meters.
    pub a: u64,
    /// Semi-minor axis, in meters.
    pub b: u64,
    /// Offset in relation to an earth-centric coordinate system.
    pub offset: u64,
    /// Rotation in relation to an earth-centric coordinate system.
    pub rotation: u64,
    /// Scaling in relation to an earth-centric coordinate system.
    pub scaling: u64,
}

/// Well-formedness of an ellipsoid: both axes are finite and
/// `a > b > 0` as encoded values.
pub open spec fn spec_valid_ellipsoid(e: Ellipsoid) -> bool {
    &&& is_finite_bits(e.a)
    &&& is_finite_bits(e.b)
    &&& lt_bits(0u64, e.b)
    &&& lt_bits(e.b, e.a)
}

impl Ellipsoid {
    /// Builds an ellipsoid from its parameters; the caller supplies axes
    /// that satisfy the `a > b > 0` invariant.
    pub fn new(a: u64, b: u64, offset: u64, rotation: u64, scaling: u64) -> (e: Ellipsoid)
        requires
            is_finite_bits(a),
            is_finite_bits(b),
            lt_bits(0u64, b),
            lt_bits(b, a),
        ensures
            e == (Ellipsoid { a, b, offset, rotation, scaling }),
            spec_valid_ellipsoid(e),
    {
        Ellipsoid { a, b, offset, rotation, scaling }
    }

    /// Does this ellipsoid satisfy the `a > b > 0` invariant, with both
    /// axes finite?
    pub fn is_valid(&self) -> (r: bool)
        ensures
            r == spec_valid_ellipsoid(*self),
    {
        bits_is_finite(self.a) && bits_is_finite(self.b) && bits_lt(0, self.b) && bits_lt(
            self.b,
            self.a,
        )
    }
}

/// The WGS 1984 ellipsoid: `a` encodes 6378137.0 m and `b` encodes
/// 6356752.314245 m; the positioning parameters are zero.
pub open spec fn spec_wgs_1984() -> Ellipsoid {
    Ellipsoid {
        a: 0x415854A640000000u64,
        b: 0x41583FC4141C970Fu64,
        offset: 0u64,
        rotation: 0u64,
        scaling: 0u64,
    }
}

/// Returns the WGS 1984 ellipsoid.
pub fn wgs_1984() -> (e: Ellipsoid)
    ensures
        e == spec_wgs_1984(),
        spec_valid_ellipsoid(e),
{
    Ellipsoid {
        a: 0x415854A640000000,
        b: 0x41583FC4141C970F,
        offset: 0,
        rotation: 0,
        scaling: 0,
    }
}

/// The WGS 1984 ellipsoid as a named unit type with parameter accessors.
#[derive(Debug, Clone, Copy)]
pub struct WGS84Ellipsoid;

impl WGS84Ellipsoid {
    /// Semi-major axis of WGS 1984: the encoding of 6378137.0 m.
    pub fn get_a(&self) -> (r: u64)
        ensures
            r == spec_wgs_1984().a,
    {
        0x415854A640000000
    }

    /// Semi-minor axis of WGS 1984: the encoding of 6356752.314245 m.
    pub fn get_b(&self) -> (r: u64)
        ensures
            r == spec_wgs_1984().b,
    {
        0x41583FC4141C970F
    }

    /// Offset of WGS 1984 in relation to an earth-centric system: zero.
    pub fn get_offset(&self) -> (r: u64)
        ensures
            r == spec_wgs_1984().offset,
    {
        0
    }

    /// Rotation of WGS 1984 in relation to an earth-centric system: zero.
    pub fn get_rotation(&self) -> (r: u64)
        ensures
            r == spec_wgs_1984().rotation,
    {
        0
    }

    /// Scaling of WGS 1984 in relation to an earth-centric system: zero.
    pub fn get_scaling(&self) -> (r: u64)
        ensures
            r == spec_wgs_1984().scaling,
    {
        0
    }

    /// The same parameters gathered into an `Ellipsoid` value.
    pub fn to_ellipsoid(&self) -> (e: Ellipsoid)
        ensures
            e == spec_wgs_1984(),
            spec_valid_ellipsoid(e),
    {
        wgs_1984()
    }
}

} // verus!
