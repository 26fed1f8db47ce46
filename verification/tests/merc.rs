//! Mercator decisions: the latitude clamp and the footpoint-iteration
//! stopping rule.

use proj5::merc::{
    clamp_latitude, phi_iteration_converged, MAX_MERCATOR_LAT, MIN_MERCATOR_LAT,
    PHI_ITERATION_LIMIT, PHI_ITERATION_TOLERANCE,
};

#[test]
fn clamp_constants_encode_the_band() {
    assert_eq!(f64::from_bits(MAX_MERCATOR_LAT), 89.5);
    assert_eq!(f64::from_bits(MIN_MERCATOR_LAT), -89.5);
    assert_eq!(f64::from_bits(PHI_ITERATION_TOLERANCE), 1e-10);
    assert_eq!(PHI_ITERATION_LIMIT, 15);
}

#[test]
fn clamp_above_band_behaves_like_the_edge() {
    let clamped: u64 = clamp_latitude((95.0f64).to_bits());
    assert_eq!(clamped, (89.5f64).to_bits());
    assert_eq!(clamped, clamp_latitude((89.5f64).to_bits()));
    assert_eq!(clamp_latitude((90.0f64).to_bits()), (89.5f64).to_bits());
    assert_eq!(clamp_latitude(f64::INFINITY.to_bits()), (89.5f64).to_bits());
}

#[test]
fn clamp_below_band_behaves_like_the_edge() {
    let clamped: u64 = clamp_latitude((-95.0f64).to_bits());
    assert_eq!(clamped, (-89.5f64).to_bits());
    assert_eq!(clamped, clamp_latitude((-89.5f64).to_bits()));
    assert_eq!(clamp_latitude(f64::NEG_INFINITY.to_bits()), (-89.5f64).to_bits());
}

#[test]
fn clamp_inside_band_is_identity() {
    for &lat in [-89.5f64, -45.0, -0.0, 0.0, 13.41, 60.0, 89.5].iter() {
        assert_eq!(clamp_latitude(lat.to_bits()), lat.to_bits(), "lat {}", lat);
    }
    let nan: u64 = f64::NAN.to_bits();
    assert_eq!(clamp_latitude(nan), nan);
}

#[test]
fn iteration_stops_strictly_below_tolerance() {
    assert!(phi_iteration_converged((5e-11f64).to_bits()));
    assert!(phi_iteration_converged((-5e-11f64).to_bits()));
    assert!(phi_iteration_converged((0.0f64).to_bits()));
    assert!(!phi_iteration_converged((1e-10f64).to_bits()));
    assert!(!phi_iteration_converged((-1e-10f64).to_bits()));
    assert!(!phi_iteration_converged((1e-9f64).to_bits()));
    assert!(!phi_iteration_converged(f64::NAN.to_bits()));
}

#[test]
fn iteration_budget_runs_down_before_giving_up() {
    let mut control = proj5::merc::PhiIteration::start();
    assert_eq!(control.budget, 15);
    let coarse: u64 = (0.5f64).to_bits();
    let mut steps: u32 = 0;
    loop {
        steps += 1;
        if control.should_stop(coarse) {
            break;
        }
        assert!(steps < 100);
    }
    // One step per budget unit, plus the final exhausted step
    assert_eq!(steps, 16);
    assert_eq!(control.budget, 0);
}

#[test]
fn iteration_stops_at_once_on_a_converged_update() {
    let mut control = proj5::merc::PhiIteration::start();
    assert!(control.should_stop((1e-12f64).to_bits()));
    assert_eq!(control.budget, 14);
}
