//! The UTM coordinate reference system: the zone model and the decisions
//! of the transverse-Mercator conversion that are exact functions of the
//! coordinate encodings.
//!
//! The per-point conversion itself is double-precision arithmetic and lives
//! outside the verified library; everything the conversion *decides* — which
//! zone a longitude falls in (with the Norway and Svalbard carve-outs), and
//! whether a northing carries the false-northing offset — is an exact
//! function of the encodings and is verified here.

use vstd::prelude::*;
use crate::coordinate_buf::CoordinateBuf;
use crate::crs::Crs;
use crate::ellipsoid::Ellipsoid;
use crate::float_bits::{ge_bits, gt_bits, lt_bits};
use crate::float_bits::{bits_ge, bits_gt, bits_lt};
use crate::lonlat_buf::LonLatBuf;
use crate::multithreading::{map_batch, MultithreadingStrategy};

verus! {

/// The UTM coordinate reference system, tagged with its zone index.
#[derive(Debug, Clone, Copy, PartialEq, Eq, Structural)]
pub struct UTMSystem {
    /// The UTM zone the coordinates belong to, in `1..=60`.
    pub utm_zone: u8,
}

impl UTMSystem {
    /// Converts a batch of this zone's coordinates to geographic ones,
    /// given the per-point inverse conversion, under `strategy`: the
    /// result keeps the batch's length and order, with slot `i` converted
    /// from slot `i`, and carries the ellipsoid it was converted on.
    pub fn to_lon_lat_with<F: Fn((u64, u64)) -> (u64, u64) + Sync>(
        &self,
        data: Vec<(u64, u64)>,
        ellipsoid: &Ellipsoid,
        strategy: &mut MultithreadingStrategy,
        kernel: F,
    ) -> (result: LonLatBuf)
        requires
            forall|p: (u64, u64)| #[trigger] call_requires(kernel, (p,)),
        ensures
            result.ellipsoid == *ellipsoid,
            result.data@.len() == data@.len(),
            forall|i: int|
                0 <= i < data@.len() ==> call_ensures(
                    kernel,
                    (data@[i],),
                    #[trigger] result.data@[i],
                ),
    {
        let mut data = data;
        map_batch(strategy, &mut data, kernel);
        LonLatBuf { data, ellipsoid: *ellipsoid }
    }

    /// Converts a batch of geographic coordinates into this zone's units,
    /// given the per-point forward conversion, under `strategy`: the
    /// result keeps length and order and is tagged with this system and
    /// the ellipsoid.
    pub fn from_lon_lat_with<F: Fn((u64, u64)) -> (u64, u64) + Sync>(
        &self,
        data: Vec<(u64, u64)>,
        ellipsoid: &Ellipsoid,
        strategy: &mut MultithreadingStrategy,
        kernel: F,
    ) -> (result: CoordinateBuf)
        requires
            forall|p: (u64, u64)| #[trigger] call_requires(kernel, (p,)),
        ensures
            result.crs == Crs::UTM(*self),
            result.ellipsoid == *ellipsoid,
            result.data@.len() == data@.len(),
            forall|i: int|
                0 <= i < data@.len() ==> call_ensures(
                    kernel,
                    (data@[i],),
                    #[trigger] result.data@[i],
                ),
    {
        let mut data = data;
        map_batch(strategy, &mut data, kernel);
        CoordinateBuf { data, crs: Crs::UTM(*self), ellipsoid: *ellipsoid }
    }
}

/// Encoding of 0.9996, the UTM scale factor applied along the central
/// meridian.
pub const UTM_SCALE_FACTOR: u64 = 0x3FEFFCB923A29C78;

/// Encoding of 500000.0 m, the false easting added to every UTM easting.
pub const FALSE_EASTING: u64 = 0x411E848000000000;

/// Encoding of 10000000.0 m, the false northing.
pub const FALSE_NORTHING: u64 = 0x416312D000000000;

/// Encoding of 3.0 degrees.
pub const DEG_3: u64 = 0x4008000000000000;
/// Encoding of 6.0 degrees.
pub const DEG_6: u64 = 0x4018000000000000;
/// Encoding of 9.0 degrees.
pub const DEG_9: u64 = 0x4022000000000000;
/// Encoding of 12.0 degrees.
pub const DEG_12: u64 = 0x4028000000000000;
/// Encoding of 18.0 degrees.
pub const DEG_18: u64 = 0x4032000000000000;
/// Encoding of 21.0 degrees.
pub const DEG_21: u64 = 0x4035000000000000;
/// Encoding of 24.0 degrees.
pub const DEG_24: u64 = 0x4038000000000000;
/// Encoding of 30.0 degrees.
pub const DEG_30: u64 = 0x403E000000000000;
/// Encoding of 33.0 degrees.
pub const DEG_33: u64 = 0x4040800000000000;
/// Encoding of 36.0 degrees.
pub const DEG_36: u64 = 0x4042000000000000;
/// Encoding of 56.0 degrees.
pub const DEG_56: u64 = 0x404C000000000000;
/// Encoding of 64.0 degrees.
pub const DEG_64: u64 = 0x4050000000000000;
/// Encoding of 72.0 degrees.
pub const DEG_72: u64 = 0x4052000000000000;
/// Encoding of 84.0 degrees.
pub const DEG_84: u64 = 0x4055000000000000;

/// The western edge of UTM zone `k`, in degrees of longitude
/// (`6*k - 186`), as a double-precision encoding.  Out-of-range indices
/// are clamped to the outermost edges.
pub open spec fn zone_west_edge(k: int) -> u64 {
    if k <= 1 {
        0xC066800000000000u64  // -180 degrees
    } else if k == 2 {
        0xC065C00000000000u64  // -174 degrees
    } else if k == 3 {
        0xC065000000000000u64  // -168 degrees
    } else if k == 4 {
        0xC064400000000000u64  // -162 degrees
    } else if k == 5 {
        0xC063800000000000u64  // -156 degrees
    } else if k == 6 {
        0xC062C00000000000u64  // -150 degrees
    } else if k == 7 {
        0xC062000000000000u64  // -144 degrees
    } else if k == 8 {
        0xC061400000000000u64  // -138 degrees
    } else if k == 9 {
        0xC060800000000000u64  // -132 degrees
    } else if k == 10 {
        0xC05F800000000000u64  // -126 degrees
    } else if k == 11 {
        0xC05E000000000000u64  // -120 degrees
    } else if k == 12 {
        0xC05C800000000000u64  // -114 degrees
    } else if k == 13 {
        0xC05B000000000000u64  // -108 degrees
    } else if k == 14 {
        0xC059800000000000u64  // -102 degrees
    } else if k == 15 {
        0xC058000000000000u64  // -96 degrees
    } else if k == 16 {
        0xC056800000000000u64  // -90 degrees
    } else if k == 17 {
        0xC055000000000000u64  // -84 degrees
    } else if k == 18 {
        0xC053800000000000u64  // -78 degrees
    } else if k == 19 {
        0xC052000000000000u64  // -72 degrees
    } else if k == 20 {
        0xC050800000000000u64  // -66 degrees
    } else if k == 21 {
        0xC04E000000000000u64  // -60 degrees
    } else if k == 22 {
        0xC04B000000000000u64  // -54 degrees
    } else if k == 23 {
        0xC048000000000000u64  // -48 degrees
    } else if k == 24 {
        0xC045000000000000u64  // -42 degrees
    } else if k == 25 {
        0xC042000000000000u64  // -36 degrees
    } else if k == 26 {
        0xC03E000000000000u64  // -30 degrees
    } else if k == 27 {
        0xC038000000000000u64  // -24 degrees
    } else if k == 28 {
        0xC032000000000000u64  // -18 degrees
    } else if k == 29 {
        0xC028000000000000u64  // -12 degrees
    } else if k == 30 {
        0xC018000000000000u64  // -6 degrees
    } else if k == 31 {
        0x0000000000000000u64  // 0 degrees
    } else if k == 32 {
        0x4018000000000000u64  // 6 degrees
    } else if k == 33 {
        0x4028000000000000u64  // 12 degrees
    } else if k == 34 {
        0x4032000000000000u64  // 18 degrees
    } else if k == 35 {
        0x4038000000000000u64  // 24 degrees
    } else if k == 36 {
        0x403E000000000000u64  // 30 degrees
    } else if k == 37 {
        0x4042000000000000u64  // 36 degrees
    } else if k == 38 {
        0x4045000000000000u64  // 42 degrees
    } else if k == 39 {
        0x4048000000000000u64  // 48 degrees
    } else if k == 40 {
        0x404B000000000000u64  // 54 degrees
    } else if k == 41 {
        0x404E000000000000u64  // 60 degrees
    } else if k == 42 {
        0x4050800000000000u64  // 66 degrees
    } else if k == 43 {
        0x4052000000000000u64  // 72 degrees
    } else if k == 44 {
        0x4053800000000000u64  // 78 degrees
    } else if k == 45 {
        0x4055000000000000u64  // 84 degrees
    } else if k == 46 {
        0x4056800000000000u64  // 90 degrees
    } else if k == 47 {
        0x4058000000000000u64  // 96 degrees
    } else if k == 48 {
        0x4059800000000000u64  // 102 degrees
    } else if k == 49 {
        0x405B000000000000u64  // 108 degrees
    } else if k == 50 {
        0x405C800000000000u64  // 114 degrees
    } else if k == 51 {
        0x405E000000000000u64  // 120 degrees
    } else if k == 52 {
        0x405F800000000000u64  // 126 degrees
    } else if k == 53 {
        0x4060800000000000u64  // 132 degrees
    } else if k == 54 {
        0x4061400000000000u64  // 138 degrees
    } else if k == 55 {
        0x4062000000000000u64  // 144 degrees
    } else if k == 56 {
        0x4062C00000000000u64  // 150 degrees
    } else if k == 57 {
        0x4063800000000000u64  // 156 degrees
    } else if k == 58 {
        0x4064400000000000u64  // 162 degrees
    } else if k == 59 {
        0x4065000000000000u64  // 168 degrees
    } else {
        0x4065C00000000000u64  // 174 degrees
    }
}

/// Executable table of `zone_west_edge`.
fn west_edge(k: u8) -> (r: u64)
    requires
        2 <= k <= 60,
    ensures
        r == zone_west_edge(k as int),
{
    match k {
        2 => 0xC065C00000000000,  // -174 degrees
        3 => 0xC065000000000000,  // -168 degrees
        4 => 0xC064400000000000,  // -162 degrees
        5 => 0xC063800000000000,  // -156 degrees
        6 => 0xC062C00000000000,  // -150 degrees
        7 => 0xC062000000000000,  // -144 degrees
        8 => 0xC061400000000000,  // -138 degrees
        9 => 0xC060800000000000,  // -132 degrees
        10 => 0xC05F800000000000,  // -126 degrees
        11 => 0xC05E000000000000,  // -120 degrees
        12 => 0xC05C800000000000,  // -114 degrees
        13 => 0xC05B000000000000,  // -108 degrees
        14 => 0xC059800000000000,  // -102 degrees
        15 => 0xC058000000000000,  // -96 degrees
        16 => 0xC056800000000000,  // -90 degrees
        17 => 0xC055000000000000,  // -84 degrees
        18 => 0xC053800000000000,  // -78 degrees
        19 => 0xC052000000000000,  // -72 degrees
        20 => 0xC050800000000000,  // -66 degrees
        21 => 0xC04E000000000000,  // -60 degrees
        22 => 0xC04B000000000000,  // -54 degrees
        23 => 0xC048000000000000,  // -48 degrees
        24 => 0xC045000000000000,  // -42 degrees
        25 => 0xC042000000000000,  // -36 degrees
        26 => 0xC03E000000000000,  // -30 degrees
        27 => 0xC038000000000000,  // -24 degrees
        28 => 0xC032000000000000,  // -18 degrees
        29 => 0xC028000000000000,  // -12 degrees
        30 => 0xC018000000000000,  // -6 degrees
        31 => 0x0000000000000000,  // 0 degrees
        32 => 0x4018000000000000,  // 6 degrees
        33 => 0x4028000000000000,  // 12 degrees
        34 => 0x4032000000000000,  // 18 degrees
        35 => 0x4038000000000000,  // 24 degrees
        36 => 0x403E000000000000,  // 30 degrees
        37 => 0x4042000000000000,  // 36 degrees
        38 => 0x4045000000000000,  // 42 degrees
        39 => 0x4048000000000000,  // 48 degrees
        40 => 0x404B000000000000,  // 54 degrees
        41 => 0x404E000000000000,  // 60 degrees
        42 => 0x4050800000000000,  // 66 degrees
        43 => 0x4052000000000000,  // 72 degrees
        44 => 0x4053800000000000,  // 78 degrees
        45 => 0x4055000000000000,  // 84 degrees
        46 => 0x4056800000000000,  // 90 degrees
        47 => 0x4058000000000000,  // 96 degrees
        48 => 0x4059800000000000,  // 102 degrees
        49 => 0x405B000000000000,  // 108 degrees
        50 => 0x405C800000000000,  // 114 degrees
        51 => 0x405E000000000000,  // 120 degrees
        52 => 0x405F800000000000,  // 126 degrees
        53 => 0x4060800000000000,  // 132 degrees
        54 => 0x4061400000000000,  // 138 degrees
        55 => 0x4062000000000000,  // 144 degrees
        56 => 0x4062C00000000000,  // 150 degrees
        57 => 0x4063800000000000,  // 156 degrees
        58 => 0x4064400000000000,  // 162 degrees
        59 => 0x4065000000000000,  // 168 degrees
        60 => 0x4065C00000000000,  // 174 degrees
        _ => 0xC066800000000000,  // unreachable under the precondition
    }
}

/// The zone whose longitude band contains `lon`, before the Norway and
/// Svalbard carve-outs: the largest `k` whose west edge lies at or below
/// `lon`.  Longitudes below -180 degrees, above 180 degrees or NaN clamp
/// to zones 1 and 60 respectively.
pub open spec fn spec_naive_zone_from(lon: u64, k: int) -> int
    decreases k,
{
    if k <= 1 {
        1
    } else if ge_bits(lon, zone_west_edge(k)) {
        k
    } else {
        spec_naive_zone_from(lon, k - 1)
    }
}

/// The naive 6-degree-wide zone of `lon`.
pub open spec fn spec_naive_zone(lon: u64) -> int {
    spec_naive_zone_from(lon, 60)
}

/// Is `lat` inside the Norway exception band (zone 32 V widening)?
pub open spec fn spec_norway_band(lat: u64) -> bool {
    gt_bits(lat, DEG_56) && lt_bits(lat, DEG_64)
}

/// Is `lat` inside the Svalbard exception band (zones 31 X to 37 X)?
pub open spec fn spec_svalbard_band(lat: u64) -> bool {
    gt_bits(lat, DEG_72) && lt_bits(lat, DEG_84)
}

/// The zone adjustment the Svalbard exception applies to a longitude.
/// The six longitude bands are pairwise disjoint, so at most one applies.
pub open spec fn spec_svalbard_adjust(lon: u64) -> int {
    if gt_bits(lon, DEG_6) && lt_bits(lon, DEG_9) {
        -1
    } else if gt_bits(lon, DEG_9) && lt_bits(lon, DEG_12) {
        1
    } else if gt_bits(lon, DEG_18) && lt_bits(lon, DEG_21) {
        -1
    } else if gt_bits(lon, DEG_21) && lt_bits(lon, DEG_24) {
        1
    } else if gt_bits(lon, DEG_30) && lt_bits(lon, DEG_33) {
        -1
    } else if gt_bits(lon, DEG_33) && lt_bits(lon, DEG_36) {
        1
    } else {
        0
    }
}

/// The UTM zone of a geographic point: the naive zone corrected by the
/// Norway and Svalbard exceptions.
pub open spec fn spec_utm_zone(lon: u64, lat: u64) -> int {
    let naive = spec_naive_zone(lon);
    if spec_norway_band(lat) {
        if gt_bits(lon, DEG_3) && lt_bits(lon, DEG_6) {
            naive + 1
        } else {
            naive
        }
    } else if spec_svalbard_band(lat) {
        naive + spec_svalbard_adjust(lon)
    } else {
        naive
    }
}

proof fn lemma_naive_zone_from_range(lon: u64, k: int)
    requires
        1 <= k,
    ensures
        1 <= spec_naive_zone_from(lon, k) <= k,
    decreases k,
{
    if k > 1 && !ge_bits(lon, zone_west_edge(k)) {
        lemma_naive_zone_from_range(lon, k - 1);
    }
}

proof fn lemma_naive_zone_skip(lon: u64, hi: int, m: int)
    requires
        1 <= m <= hi <= 60,
        forall|j: int| m < j <= hi ==> !ge_bits(lon, zone_west_edge(j)),
    ensures
        spec_naive_zone_from(lon, hi) == spec_naive_zone_from(lon, m),
    decreases hi - m,
{
    if hi > m {
        assert(!ge_bits(lon, zone_west_edge(hi)));
        lemma_naive_zone_skip(lon, hi - 1, m);
    }
}

/// A longitude at or above the west edge of zone `m` and below every
/// later edge has naive zone `m`.
proof fn lemma_naive_zone_pinned(lon: u64, m: int)
    requires
        2 <= m <= 60,
        ge_bits(lon, zone_west_edge(m)),
        forall|j: int| m < j <= 60 ==> !ge_bits(lon, zone_west_edge(j)),
    ensures
        spec_naive_zone(lon) == m,
{
    lemma_naive_zone_skip(lon, 60, m);
}

/// A longitude at or above the west edge of zone `m` and strictly below a
/// positive bound `hi` has naive zone `m`, provided every west edge past
/// zone `m` lies at or above `hi`.
proof fn lemma_band_zone(lon: u64, m: int, hi: u64)
    requires
        31 <= m <= 60,
        ge_bits(lon, zone_west_edge(m)),
        lt_bits(lon, hi),
        hi < 0x7FF0000000000000,
        forall|j: int| m < j <= 60 ==> hi <= #[trigger] zone_west_edge(j) < 0x7FF0000000000000u64,
    ensures
        spec_naive_zone(lon) == m,
{
    assert forall|j: int| m < j <= 60 implies !ge_bits(lon, zone_west_edge(j)) by {
        assert(hi <= zone_west_edge(j) < 0x7FF0000000000000u64);
        assert(lt_bits(lon, zone_west_edge(j)));
    }
    lemma_naive_zone_pinned(lon, m);
}

/// In the Norway band carve-out longitudes (3 to 6 degrees) the naive
/// zone is 31.
proof fn lemma_norway_naive(lon: u64)
    requires
        gt_bits(lon, DEG_3),
        lt_bits(lon, DEG_6),
    ensures
        spec_naive_zone(lon) == 31,
{
    assert(ge_bits(lon, zone_west_edge(31)));
    assert forall|j: int| 31 < j <= 60 implies
        DEG_6 <= #[trigger] zone_west_edge(j) < 0x7FF0000000000000u64 by {
    }
    lemma_band_zone(lon, 31, DEG_6);
}

/// For longitudes strictly between 6 and 12 degrees the naive zone is 32.
proof fn lemma_band_6_12(lon: u64)
    requires
        gt_bits(lon, DEG_6),
        lt_bits(lon, DEG_12),
    ensures
        spec_naive_zone(lon) == 32,
{
    assert(ge_bits(lon, zone_west_edge(32)));
    assert forall|j: int| 32 < j <= 60 implies
        DEG_12 <= #[trigger] zone_west_edge(j) < 0x7FF0000000000000u64 by {
    }
    lemma_band_zone(lon, 32, DEG_12);
}

/// For longitudes strictly between 18 and 24 degrees the naive zone is 34.
proof fn lemma_band_18_24(lon: u64)
    requires
        gt_bits(lon, DEG_18),
        lt_bits(lon, DEG_24),
    ensures
        spec_naive_zone(lon) == 34,
{
    assert(ge_bits(lon, zone_west_edge(34)));
    assert forall|j: int| 34 < j <= 60 implies
        DEG_24 <= #[trigger] zone_west_edge(j) < 0x7FF0000000000000u64 by {
    }
    lemma_band_zone(lon, 34, DEG_24);
}

/// For longitudes strictly between 30 and 36 degrees the naive zone is 36.
proof fn lemma_band_30_36(lon: u64)
    requires
        gt_bits(lon, DEG_30),
        lt_bits(lon, DEG_36),
    ensures
        spec_naive_zone(lon) == 36,
{
    assert(ge_bits(lon, zone_west_edge(36)));
    assert forall|j: int| 36 < j <= 60 implies
        DEG_36 <= #[trigger] zone_west_edge(j) < 0x7FF0000000000000u64 by {
    }
    lemma_band_zone(lon, 36, DEG_36);
}

/// The naive zone of a longitude encoding: the largest zone whose west
/// edge lies at or below it.
fn naive_zone(lon: u64) -> (z: u8)
    ensures
        z == spec_naive_zone(lon),
        1 <= z <= 60,
{
    proof {
        lemma_naive_zone_from_range(lon, 60);
    }
    let mut k: u8 = 60;
    loop
        invariant
            2 <= k <= 60,
            spec_naive_zone(lon) == spec_naive_zone_from(lon, k as int),
            1 <= spec_naive_zone(lon) <= 60,
        decreases k,
    {
        if bits_ge(lon, west_edge(k)) {
            return k;
        }
        if k == 2 {
            assert(spec_naive_zone_from(lon, 2) == spec_naive_zone_from(lon, 1));
            return 1;
        }
        k = k - 1;
    }
}

/// The UTM zone `lon` falls in, with the Norway and Svalbard carve-outs
/// applied; the result always lies in `1..=60`.
pub fn get_utm_zone(lon: u64, lat: u64) -> (zone: u8)
    ensures
        zone == spec_utm_zone(lon, lat),
        1 <= zone <= 60,
{
    let naive = naive_zone(lon);
    if bits_gt(lat, DEG_56) && bits_lt(lat, DEG_64) {
        // Zone V, Norway
        if bits_gt(lon, DEG_3) && bits_lt(lon, DEG_6) {
            proof {
                lemma_norway_naive(lon);
            }
            naive + 1
        } else {
            naive
        }
    } else if bits_gt(lat, DEG_72) && bits_lt(lat, DEG_84) {
        // Zone X, Svalbard
        if bits_gt(lon, DEG_6) && bits_lt(lon, DEG_9) {
            proof {
                lemma_band_6_12(lon);
            }
            naive - 1
        } else if bits_gt(lon, DEG_9) && bits_lt(lon, DEG_12) {
            proof {
                lemma_band_6_12(lon);
            }
            naive + 1
        } else if bits_gt(lon, DEG_18) && bits_lt(lon, DEG_21) {
            proof {
                lemma_band_18_24(lon);
            }
            naive - 1
        } else if bits_gt(lon, DEG_21) && bits_lt(lon, DEG_24) {
            proof {
                lemma_band_18_24(lon);
            }
            naive + 1
        } else if bits_gt(lon, DEG_30) && bits_lt(lon, DEG_33) {
            proof {
                lemma_band_30_36(lon);
            }
            naive - 1
        } else if bits_gt(lon, DEG_33) && bits_lt(lon, DEG_36) {
            proof {
                lemma_band_30_36(lon);
            }
            naive + 1
        } else {
            naive
        }
    } else {
        naive
    }
}

/// Forward conversion decision: the false northing is added exactly to
/// scaled northings that are strictly positive.
pub fn northing_gets_false_northing(y: u64) -> (r: bool)
    ensures
        r == gt_bits(y, 0u64),
{
    bits_gt(y, 0)
}

/// Inverse conversion decision: an encoded northing carries the false
/// northing exactly when it exceeds it.  The forward pass adds the offset
/// only to strictly positive raw northings, so an encoded value at or
/// below the offset cannot carry one.
pub fn northing_carries_false_northing(y: u64) -> (r: bool)
    ensures
        r == gt_bits(y, FALSE_NORTHING),
{
    bits_gt(y, FALSE_NORTHING)
}

} // verus!
