//! UTM zone selection, including the Norway and Svalbard carve-outs.

use proj5::get_utm_zone;

fn zone(lon: f64, lat: f64) -> u8 {
    get_utm_zone(lon.to_bits(), lat.to_bits())
}

#[test]
fn zone_of_plain_longitudes() {
    assert_eq!(zone(0.0, 0.0), 31);
    assert_eq!(zone(-0.0001, 0.0), 30);
    assert_eq!(zone(-180.0, 0.0), 1);
    assert_eq!(zone(-174.0001, 0.0), 1);
    assert_eq!(zone(-174.0, 0.0), 2);
    assert_eq!(zone(179.9, 0.0), 60);
    assert_eq!(zone(174.0, 0.0), 60);
    assert_eq!(zone(105.0, 13.41), 48);
    assert_eq!(zone(-77.0, 39.0), 18);
    assert_eq!(zone(114.96, 13.41), 50);
}

#[test]
fn zone_matches_naive_formula_outside_exception_bands() {
    let mut lon: f64 = -179.77;
    while lon < 180.0 {
        let expected: u8 = (((lon + 180.0) / 6.0).floor() + 1.0) as u8;
        assert_eq!(zone(lon, 20.0), expected, "lon {}", lon);
        assert_eq!(zone(lon, -45.0), expected, "lon {}", lon);
        lon += 0.7;
    }
}

#[test]
fn zone_norway_carve_out() {
    // Inside the band and the widened slice of zone 32 V
    assert_eq!(zone(4.5, 60.0), 32);
    assert_eq!(zone(3.5, 56.5), 32);
    assert_eq!(zone(5.9, 63.9), 32);
    // Inside the band, outside the slice
    assert_eq!(zone(15.0, 60.0), 33);
    assert_eq!(zone(6.5, 60.0), 32);
    assert_eq!(zone(2.9, 60.0), 31);
    // Same longitudes outside the latitude band
    assert_eq!(zone(4.5, 55.9), 31);
    assert_eq!(zone(4.5, 64.1), 31);
    assert_eq!(zone(4.5, 56.0), 31);
    assert_eq!(zone(4.5, 64.0), 31);
}

#[test]
fn zone_svalbard_carve_outs() {
    assert_eq!(zone(7.5, 75.0), 31);
    assert_eq!(zone(10.5, 75.0), 33);
    assert_eq!(zone(15.0, 75.0), 33);
    assert_eq!(zone(19.5, 75.0), 33);
    assert_eq!(zone(22.5, 75.0), 35);
    assert_eq!(zone(27.0, 75.0), 35);
    assert_eq!(zone(31.5, 75.0), 35);
    assert_eq!(zone(34.5, 75.0), 37);
    // Strict edges: 9 degrees east sits in no carve-out slice
    assert_eq!(zone(9.0, 75.0), 32);
    // Same longitudes outside the latitude band
    assert_eq!(zone(10.5, 72.0), 32);
    assert_eq!(zone(10.5, 84.0), 32);
    assert_eq!(zone(10.5, 71.9), 32);
}

#[test]
fn zone_clamps_out_of_range_input() {
    assert_eq!(zone(200.0, 0.0), 60);
    assert_eq!(zone(-200.0, 0.0), 1);
    assert_eq!(zone(f64::NAN, 0.0), 1);
    assert_eq!(zone(15.0, f64::NAN), 33);
}

#[test]
fn zone_carve_out_edges_are_strict() {
    // In the Norway band, 3 and 6 degrees sit outside the widened slice
    assert_eq!(zone(3.0, 60.0), 31);
    assert_eq!(zone(6.0, 60.0), 32);
    // In the Svalbard band, 12 degrees closes a slice strictly
    assert_eq!(zone(12.0, 75.0), 33);
    assert_eq!(zone(11.9, 75.0), 33);
    assert_eq!(zone(12.1, 75.0), 33);
}
