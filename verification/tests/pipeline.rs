//! Containers, the reprojection decision stage and the execution
//! strategy value.

use proj5::coordinate_buf::{CoordinateBuf, CoordinateSource, ProjectionPlan};
use proj5::crs::Crs;
use proj5::ellipsoid::{wgs_1984, Ellipsoid};
use proj5::error::ProjectionError;
use proj5::lonlat_buf::LonLatBuf;
use proj5::merc::MercatorSystem;
use proj5::multithreading::MultithreadingStrategy;
use proj5::utm::{
    northing_carries_false_northing, northing_gets_false_northing, UTMSystem, FALSE_EASTING,
    FALSE_NORTHING, UTM_SCALE_FACTOR,
};

fn pair(x: f64, y: f64) -> (u64, u64) {
    (x.to_bits(), y.to_bits())
}

fn utm_source(zone: u8, data: Vec<(u64, u64)>, ellipsoid: Ellipsoid) -> CoordinateSource {
    CoordinateSource::CoordinateBuf(Box::new(CoordinateBuf {
        data,
        crs: Crs::UTM(UTMSystem { utm_zone: zone }),
        ellipsoid,
    }))
}

fn mercator_target(ellipsoid: Ellipsoid) -> CoordinateSource {
    CoordinateSource::CoordinateBuf(Box::new(CoordinateBuf {
        data: Vec::new(),
        crs: Crs::Mercator(MercatorSystem),
        ellipsoid,
    }))
}

#[test]
fn plan_names_both_legs() {
    let source: CoordinateSource =
        utm_source(48, vec![pair(377299.0, 1483035.0)], wgs_1984());
    let target: CoordinateSource = mercator_target(wgs_1984());
    let plan: ProjectionPlan = source.plan_project(&target).unwrap();
    assert_eq!(
        plan.source_to_geographic,
        Some(Crs::UTM(UTMSystem { utm_zone: 48 }))
    );
    assert_eq!(plan.geographic_to_target, Some(Crs::Mercator(MercatorSystem)));
}

#[test]
fn plan_skips_geographic_sides() {
    let source: CoordinateSource = CoordinateSource::LonLatBuf(Box::new(LonLatBuf {
        data: vec![pair(15.0, 60.0)],
        ellipsoid: wgs_1984(),
    }));
    let target: CoordinateSource = CoordinateSource::LonLatBuf(Box::new(LonLatBuf {
        data: Vec::new(),
        ellipsoid: wgs_1984(),
    }));
    let plan: ProjectionPlan = source.plan_project(&target).unwrap();
    assert_eq!(plan.source_to_geographic, None);
    assert_eq!(plan.geographic_to_target, None);
}

#[test]
fn plan_refuses_differing_ellipsoids() {
    let mut other: Ellipsoid = wgs_1984();
    other.a = (f64::from_bits(other.a) + 1e-9).to_bits();
    let source: CoordinateSource = utm_source(48, vec![pair(1.0, 2.0)], wgs_1984());
    let target: CoordinateSource = mercator_target(other);
    assert_eq!(
        source.plan_project(&target),
        Err(ProjectionError::EllipsoidMismatch)
    );
    // And symmetrically
    let source2: CoordinateSource = utm_source(48, vec![pair(1.0, 2.0)], other);
    let target2: CoordinateSource = mercator_target(wgs_1984());
    assert_eq!(
        source2.plan_project(&target2),
        Err(ProjectionError::EllipsoidMismatch)
    );
}

#[test]
fn container_accessors_round_trip() {
    let data: Vec<(u64, u64)> = vec![pair(1.0, 2.0), pair(3.0, 4.0)];
    let mut source: CoordinateSource = utm_source(7, data.clone(), wgs_1984());
    assert_eq!(source.get_ellipsoid(), wgs_1984());
    assert_eq!(source.get_crs(), Some(Crs::UTM(UTMSystem { utm_zone: 7 })));
    assert_eq!(source.get_data_ref(), &data);
    source.get_data_ref_mut().push(pair(5.0, 6.0));
    assert_eq!(source.get_data_ref().len(), 3);
    assert_eq!(source.get_crs(), Some(Crs::UTM(UTMSystem { utm_zone: 7 })));
    let out: Vec<(u64, u64)> = source.into_data();
    assert_eq!(out[2], pair(5.0, 6.0));
}

#[test]
fn rebase_onto_equal_ellipsoid_is_a_no_op() {
    let mut buf: LonLatBuf = LonLatBuf {
        data: vec![pair(15.0, 60.0)],
        ellipsoid: wgs_1984(),
    };
    assert_eq!(buf.project_to_ellipsoid(wgs_1984()), Ok(()));
    assert_eq!(buf.data, vec![pair(15.0, 60.0)]);
}

#[test]
fn rebase_onto_differing_ellipsoid_is_refused() {
    let mut other: Ellipsoid = wgs_1984();
    other.b = (f64::from_bits(other.b) - 1e-9).to_bits();
    let mut buf: LonLatBuf = LonLatBuf {
        data: vec![pair(15.0, 60.0)],
        ellipsoid: wgs_1984(),
    };
    assert_eq!(
        buf.project_to_ellipsoid(other),
        Err(ProjectionError::EllipsoidMismatch)
    );
    assert_eq!(buf.data, vec![pair(15.0, 60.0)]);
    assert_eq!(buf.ellipsoid, wgs_1984());
}

#[test]
fn utm_constants_encode_the_standard_offsets() {
    assert_eq!(f64::from_bits(UTM_SCALE_FACTOR), 0.9996);
    assert_eq!(f64::from_bits(FALSE_EASTING), 500000.0);
    assert_eq!(f64::from_bits(FALSE_NORTHING), 10000000.0);
}

#[test]
fn false_northing_decisions() {
    // Forward: only strictly positive scaled northings take the offset
    assert!(northing_gets_false_northing((5.0f64).to_bits()));
    assert!(!northing_gets_false_northing((0.0f64).to_bits()));
    assert!(!northing_gets_false_northing((-0.0f64).to_bits()));
    assert!(!northing_gets_false_northing((-5.0f64).to_bits()));
    // Inverse: only encodings above the offset carry it
    assert!(northing_carries_false_northing((11483035.0f64).to_bits()));
    assert!(!northing_carries_false_northing((1483035.0f64).to_bits()));
    assert!(!northing_carries_false_northing((10000000.0f64).to_bits()));
    assert!(!northing_carries_false_northing((-4430000.0f64).to_bits()));
}

#[test]
fn strategies_are_constructible() {
    let sequential: MultithreadingStrategy = MultithreadingStrategy::SingleCore;
    match sequential {
        MultithreadingStrategy::SingleCore => {}
        MultithreadingStrategy::MultiCore(_) => panic!("expected the sequential strategy"),
    }
    let pool: scoped_threadpool::Pool = scoped_threadpool::Pool::new(2);
    let parallel: MultithreadingStrategy = MultithreadingStrategy::MultiCore(pool);
    match parallel {
        MultithreadingStrategy::SingleCore => panic!("expected the pooled strategy"),
        MultithreadingStrategy::MultiCore(p) => assert_eq!(p.thread_count(), 2),
    }
}

fn shift_x(p: (u64, u64)) -> (u64, u64) {
    ((f64::from_bits(p.0) + 1.0).to_bits(), p.1)
}

fn double_y(p: (u64, u64)) -> (u64, u64) {
    (p.0, (f64::from_bits(p.1) * 2.0).to_bits())
}

#[test]
fn project_with_runs_both_legs_in_input_order() {
    let source: CoordinateSource = utm_source(
        1,
        vec![pair(1.0, 3.0), pair(2.0, 5.0), pair(-4.0, 0.5)],
        wgs_1984(),
    );
    let mut target: CoordinateSource = mercator_target(wgs_1984());
    let mut strategy: MultithreadingStrategy = MultithreadingStrategy::SingleCore;
    let outcome = source.project_with(&mut target, &mut strategy, shift_x, double_y);
    assert_eq!(outcome, Ok(()));
    assert_eq!(
        target.get_data_ref(),
        &vec![pair(2.0, 6.0), pair(3.0, 10.0), pair(-3.0, 1.0)]
    );
    assert_eq!(target.get_crs(), Some(Crs::Mercator(MercatorSystem)));
    assert_eq!(target.get_ellipsoid(), wgs_1984());
}

#[test]
fn project_with_skips_a_geographic_source() {
    let source: CoordinateSource = CoordinateSource::LonLatBuf(Box::new(LonLatBuf {
        data: vec![pair(10.0, 20.0)],
        ellipsoid: wgs_1984(),
    }));
    let mut target: CoordinateSource = mercator_target(wgs_1984());
    let mut strategy: MultithreadingStrategy = MultithreadingStrategy::SingleCore;
    let outcome = source.project_with(&mut target, &mut strategy, shift_x, double_y);
    assert_eq!(outcome, Ok(()));
    // Only the target-side kernel ran
    assert_eq!(target.get_data_ref(), &vec![pair(10.0, 40.0)]);
}

#[test]
fn project_with_skips_a_geographic_target() {
    let source: CoordinateSource = utm_source(1, vec![pair(10.0, 20.0)], wgs_1984());
    let mut target: CoordinateSource = CoordinateSource::LonLatBuf(Box::new(LonLatBuf {
        data: vec![pair(0.0, 0.0), pair(0.0, 0.0)],
        ellipsoid: wgs_1984(),
    }));
    let mut strategy: MultithreadingStrategy = MultithreadingStrategy::SingleCore;
    let outcome = source.project_with(&mut target, &mut strategy, shift_x, double_y);
    assert_eq!(outcome, Ok(()));
    // Only the source-side kernel ran, and the target data was replaced
    assert_eq!(target.get_data_ref(), &vec![pair(11.0, 20.0)]);
}

#[test]
fn project_with_fails_without_touching_the_target() {
    let mut other: Ellipsoid = wgs_1984();
    other.rotation = (2.5f64).to_bits();
    let source: CoordinateSource = utm_source(1, vec![pair(1.0, 2.0)], wgs_1984());
    let sentinel: Vec<(u64, u64)> = vec![pair(7.0, 8.0)];
    let mut target: CoordinateSource = CoordinateSource::CoordinateBuf(Box::new(CoordinateBuf {
        data: sentinel.clone(),
        crs: Crs::Mercator(MercatorSystem),
        ellipsoid: other,
    }));
    let mut strategy: MultithreadingStrategy = MultithreadingStrategy::SingleCore;
    let outcome = source.project_with(&mut target, &mut strategy, shift_x, double_y);
    assert_eq!(outcome, Err(ProjectionError::EllipsoidMismatch));
    assert_eq!(target.get_data_ref(), &sentinel);
    assert_eq!(target.get_crs(), Some(Crs::Mercator(MercatorSystem)));
    assert_eq!(target.get_ellipsoid(), other);
}

#[test]
fn project_with_agrees_across_strategies() {
    let n: usize = 1200;
    let mut points: Vec<(u64, u64)> = Vec::with_capacity(n);
    for i in 0..n {
        points.push(pair(0.31 * (i as f64), -50.0 + 0.09 * (i as f64)));
    }
    let mut sequential_target: CoordinateSource = mercator_target(wgs_1984());
    let mut pooled_target: CoordinateSource = mercator_target(wgs_1984());
    let mut sequential: MultithreadingStrategy = MultithreadingStrategy::SingleCore;
    let mut pooled: MultithreadingStrategy =
        MultithreadingStrategy::MultiCore(scoped_threadpool::Pool::new(4));
    let source_a: CoordinateSource = utm_source(31, points.clone(), wgs_1984());
    let source_b: CoordinateSource = utm_source(31, points, wgs_1984());
    assert_eq!(
        source_a.project_with(&mut sequential_target, &mut sequential, shift_x, double_y),
        Ok(())
    );
    assert_eq!(
        source_b.project_with(&mut pooled_target, &mut pooled, shift_x, double_y),
        Ok(())
    );
    assert_eq!(sequential_target.get_data_ref(), pooled_target.get_data_ref());
    assert_eq!(sequential_target.get_data_ref().len(), n);
}

#[test]
fn backend_batch_methods_tag_their_output() {
    let mut strategy: MultithreadingStrategy = MultithreadingStrategy::SingleCore;
    let system: UTMSystem = UTMSystem { utm_zone: 5 };
    let native: CoordinateBuf =
        system.from_lon_lat_with(vec![pair(1.0, 2.0)], &wgs_1984(), &mut strategy, shift_x);
    assert_eq!(native.crs, Crs::UTM(UTMSystem { utm_zone: 5 }));
    assert_eq!(native.ellipsoid, wgs_1984());
    assert_eq!(native.data, vec![pair(2.0, 2.0)]);

    let geographic: LonLatBuf =
        MercatorSystem.to_lon_lat_with(vec![pair(1.0, 2.0)], &wgs_1984(), &mut strategy, double_y);
    assert_eq!(geographic.ellipsoid, wgs_1984());
    assert_eq!(geographic.data, vec![pair(1.0, 4.0)]);

    let tagged: CoordinateBuf =
        MercatorSystem.from_lon_lat_with(vec![pair(3.0, 4.0)], &wgs_1984(), &mut strategy, shift_x);
    assert_eq!(tagged.crs, Crs::Mercator(MercatorSystem));
    assert_eq!(tagged.data, vec![pair(4.0, 4.0)]);

    let inverse: LonLatBuf =
        system.to_lon_lat_with(vec![pair(3.0, 4.0)], &wgs_1984(), &mut strategy, double_y);
    assert_eq!(inverse.ellipsoid, wgs_1984());
    assert_eq!(inverse.data, vec![pair(3.0, 8.0)]);
}
