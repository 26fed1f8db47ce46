//! Coordinate containers and the reprojection pipeline's decision stage.

use vstd::prelude::*;
use crate::crs::Crs;
use crate::ellipsoid::Ellipsoid;
use crate::error::ProjectionError;
use crate::lonlat_buf::LonLatBuf;
use crate::multithreading::{map_batch, MultithreadingStrategy};

verus! {

/// How one output point of a reprojection relates to its input point:
/// through the source backend's per-point conversion where the source has
/// a reference system, then through the target backend's where the target
/// has one; a geographic side passes the point through unchanged.
pub open spec fn spec_point_reprojected<
    F: Fn((u64, u64)) -> (u64, u64),
    G: Fn((u64, u64)) -> (u64, u64),
>(
    to_geographic: F,
    from_geographic: G,
    source_crs: Option<Crs>,
    target_crs: Option<Crs>,
    input: (u64, u64),
    output: (u64, u64),
) -> bool {
    match (source_crs, target_crs) {
        (Option::None, Option::None) => output == input,
        (Option::Some(_), Option::None) => call_ensures(to_geographic, (input,), output),
        (Option::None, Option::Some(_)) => call_ensures(from_geographic, (input,), output),
        (Option::Some(_), Option::Some(_)) => exists|mid: (u64, u64)|
            #[trigger] call_ensures(to_geographic, (input,), mid) && call_ensures(
                from_geographic,
                (mid,),
                output,
            ),
    }
}

/// A batch of native coordinates: an ordered sequence of (x, y) pairs as
/// double-precision encodings, interpreted according to the tagged
/// reference system, on a given ellipsoid.
pub struct CoordinateBuf {
    /// The coordinates, in (x, y) order.
    pub data: Vec<(u64, u64)>,
    /// The coordinate reference system the data is expressed in.
    pub crs: Crs,
    /// The ellipsoid used in this reference system.
    pub ellipsoid: Ellipsoid,
}

/// A container entering or leaving the pipeline: either native
/// coordinates tagged with their reference system, or geographic
/// coordinates, which are the common intermediate itself.
pub enum CoordinateSource {
    /// Native coordinates with their reference-system tag.
    CoordinateBuf(Box<CoordinateBuf>),
    /// Geographic (longitude, latitude) coordinates.
    LonLatBuf(Box<LonLatBuf>),
}

/// The two conversion legs a reprojection runs once its ellipsoid check
/// has passed: source to geographic, then geographic to target.  A `None`
/// leg means that side already is geographic and the leg is skipped.
#[derive(Debug, Clone, Copy, PartialEq, Eq)]
pub struct ProjectionPlan {
    /// The backend that brings the source data to geographic
    /// coordinates, or `None` when the source is geographic already.
    pub source_to_geographic: Option<Crs>,
    /// The backend that takes geographic data on to the target, or
    /// `None` when the target is the geographic representation.
    pub geographic_to_target: Option<Crs>,
}

impl CoordinateSource {
    /// The coordinate pairs the container holds, in order.
    pub open spec fn spec_data(self) -> Seq<(u64, u64)> {
        match self {
            CoordinateSource::CoordinateBuf(buf) => buf.data@,
            CoordinateSource::LonLatBuf(buf) => buf.data@,
        }
    }

    /// The ellipsoid the container's data is expressed on.
    pub open spec fn spec_ellipsoid(self) -> Ellipsoid {
        match self {
            CoordinateSource::CoordinateBuf(buf) => buf.ellipsoid,
            CoordinateSource::LonLatBuf(buf) => buf.ellipsoid,
        }
    }

    /// The reference system of the container's data, or `None` for the
    /// geographic representation.
    pub open spec fn spec_crs(self) -> Option<Crs> {
        match self {
            CoordinateSource::CoordinateBuf(buf) => Some(buf.crs),
            CoordinateSource::LonLatBuf(buf) => None,
        }
    }

    /// Consumes the container and extracts its data.
    pub fn into_data(self) -> (data: Vec<(u64, u64)>)
        ensures
            data@ == self.spec_data(),
    {
        match self {
            CoordinateSource::CoordinateBuf(buf) => buf.data,
            CoordinateSource::LonLatBuf(buf) => buf.data,
        }
    }

    /// The data as a shared reference.
    pub fn get_data_ref(&self) -> (data: &Vec<(u64, u64)>)
        ensures
            data@ == self.spec_data(),
    {
        match self {
            CoordinateSource::CoordinateBuf(buf) => &buf.data,
            CoordinateSource::LonLatBuf(buf) => &buf.data,
        }
    }

    /// The data as an exclusive reference; the container's tag and
    /// ellipsoid stay as they were, whatever the caller writes through
    /// the reference.
    pub fn get_data_ref_mut(&mut self) -> (data: &mut Vec<(u64, u64)>)
        ensures
            data@ == old(self).spec_data(),
            final(self).spec_data() == final(data)@,
            final(self).spec_crs() == old(self).spec_crs(),
            final(self).spec_ellipsoid() == old(self).spec_ellipsoid(),
    {
        match self {
            CoordinateSource::CoordinateBuf(buf) => &mut buf.data,
            CoordinateSource::LonLatBuf(buf) => &mut buf.data,
        }
    }

    /// The ellipsoid, by value.
    pub fn get_ellipsoid(&self) -> (e: Ellipsoid)
        ensures
            e == self.spec_ellipsoid(),
    {
        match self {
            CoordinateSource::CoordinateBuf(buf) => buf.ellipsoid,
            CoordinateSource::LonLatBuf(buf) => buf.ellipsoid,
        }
    }

    /// The reference-system tag, or `None` for geographic data.
    pub fn get_crs(&self) -> (c: Option<Crs>)
        ensures
            c == self.spec_crs(),
    {
        match self {
            CoordinateSource::CoordinateBuf(buf) => Some(buf.crs),
            CoordinateSource::LonLatBuf(buf) => None,
        }
    }

    /// The decision stage of a reprojection from `self` into `target`:
    /// compares the ellipsoids by value and, when they agree, names the
    /// two conversion legs to run.  A disagreement in any field is
    /// refused before any conversion work, so a failing request can never
    /// partially transform the target.
    pub fn plan_project(&self, target: &CoordinateSource) -> (r: Result<
        ProjectionPlan,
        ProjectionError,
    >)
        ensures
            (r is Ok) <==> self.spec_ellipsoid() == target.spec_ellipsoid(),
            (r is Err) ==> r == Err::<ProjectionPlan, ProjectionError>(
                ProjectionError::EllipsoidMismatch,
            ),
            (r is Ok) ==> r == Ok::<ProjectionPlan, ProjectionError>(
                (ProjectionPlan {
                    source_to_geographic: self.spec_crs(),
                    geographic_to_target: target.spec_crs(),
                }),
            ),
    {
        let source_ellipsoid = self.get_ellipsoid();
        let target_ellipsoid = target.get_ellipsoid();
        if source_ellipsoid == target_ellipsoid {
            Ok(
                ProjectionPlan {
                    source_to_geographic: self.get_crs(),
                    geographic_to_target: target.get_crs(),
                },
            )
        } else {
            Err(ProjectionError::EllipsoidMismatch)
        }
    }

    /// Projects `self` into `target`, given the two per-point conversion
    /// kernels, overwriting the target's data in place and leaving its
    /// tag and ellipsoid as they were.  `to_geographic` is run over the
    /// batch exactly when the source carries a reference system, then
    /// `from_geographic` exactly when the target carries one, both under
    /// `strategy`, and slot `i` of the result always comes from slot `i`
    /// of the source.  When the ellipsoids differ the call fails with
    /// `EllipsoidMismatch` before any conversion work and leaves the
    /// target untouched.
    pub fn project_with<
        F: Fn((u64, u64)) -> (u64, u64) + Sync,
        G: Fn((u64, u64)) -> (u64, u64) + Sync,
    >(
        self,
        target: &mut CoordinateSource,
        strategy: &mut MultithreadingStrategy,
        to_geographic: F,
        from_geographic: G,
    ) -> (r: Result<(), ProjectionError>)
        requires
            forall|p: (u64, u64)| #[trigger] call_requires(to_geographic, (p,)),
            forall|p: (u64, u64)| #[trigger] call_requires(from_geographic, (p,)),
        ensures
            (r is Ok) <==> self.spec_ellipsoid() == old(target).spec_ellipsoid(),
            (r is Err) ==> r == Err::<(), ProjectionError>(ProjectionError::EllipsoidMismatch)
                && *final(target) == *old(target),
            (r is Ok) ==> final(target).spec_crs() == old(target).spec_crs(),
            (r is Ok) ==> final(target).spec_ellipsoid() == old(target).spec_ellipsoid(),
            (r is Ok) ==> final(target).spec_data().len() == self.spec_data().len(),
            (r is Ok) ==> forall|i: int|
                0 <= i < self.spec_data().len() ==> spec_point_reprojected(
                    to_geographic,
                    from_geographic,
                    self.spec_crs(),
                    old(target).spec_crs(),
                    self.spec_data()[i],
                    #[trigger] final(target).spec_data()[i],
                ),
    {
        let plan = match self.plan_project(&*target) {
            Ok(plan) => plan,
            Err(e) => {
                return Err(e);
            },
        };
        let ghost source_crs = self.spec_crs();
        let ghost target_crs = old(target).spec_crs();
        let mut data = self.into_data();
        let ghost input_seq = data@;
        if plan.source_to_geographic.is_some() {
            map_batch(strategy, &mut data, to_geographic);
        }
        let ghost mid_seq = data@;
        if plan.geographic_to_target.is_some() {
            map_batch(strategy, &mut data, from_geographic);
        }
        proof {
            assert forall|i: int| 0 <= i < input_seq.len() implies spec_point_reprojected(
                to_geographic,
                from_geographic,
                source_crs,
                target_crs,
                input_seq[i],
                #[trigger] data@[i],
            ) by {
                if source_crs is Some && target_crs is Some {
                    assert(call_ensures(to_geographic, (input_seq[i],), mid_seq[i]));
                    assert(call_ensures(from_geographic, (mid_seq[i],), data@[i]));
                }
            }
        }
        let out = target.get_data_ref_mut();
        *out = data;
        Ok(())
    }
}

} // verus!
