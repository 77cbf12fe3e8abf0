//! The ICP engine: builds the index once, then iterates correspondence
//! search, alignment and convergence evaluation. The rotation for each
//! iteration is recovered from the cross-covariance matrix by the caller
//! (by singular value decomposition, which needs real arithmetic) and handed
//! back to [`IcpEngine::step`]; the engine validates it, composes the
//! correction, refreshes the correspondences and decides whether to stop.

use vstd::prelude::*;
use crate::convergence::spec_registration_error;
use crate::correspondence::{corrs_ok, Correspondence};
use crate::covariance::{cov_sum, CovMatrix};
use crate::index::SpatialIndex;
use crate::matrix::{is_proper_rotation, Mat3};
use crate::point::{all_in_range, center_of_mass, centroid, in_range, pt_abs_le, pts_view, Point3, PointView};
use crate::transform::{
    alignment_correction, correction_translation, spec_compose, transform_wf, RigidTransform,
    TransformView,
};
use crate::TRANS_MAX;

verus! {

/// Configuration of a registration run.
#[derive(Clone, Copy, PartialEq, Eq, Structural, Debug)]
pub struct ICPParameters {
    /// Convergence bound on the registration error, in raw fixed-point
    /// units.
    pub termination_threshold: u64,
    /// Iteration budget: the run reports exhaustion instead of looping
    /// forever.
    pub max_iterations: u64,
}

impl Default for ICPParameters {
    /// A hundredth of a length unit at the default scale, and a budget of a
    /// hundred iterations.
    fn default() -> (d: ICPParameters)
        ensures
            d.termination_threshold == 10_000,
            d.max_iterations == 100,
    {
        ICPParameters { termination_threshold: 10_000, max_iterations: 100 }
    }
}

/// Rejected inputs: registration needs at least one point on each side.
#[derive(Clone, Copy, PartialEq, Eq, Structural, Debug)]
pub enum IcpError {
    EmptyMap,
    EmptyScan,
}

/// What one engine step reports.
#[derive(Clone, Copy, PartialEq, Eq, Structural, Debug)]
pub enum StepOutcome {
    /// Error still at or above the threshold and budget remains.
    Continue,
    /// Error below the threshold; the transform is final.
    Converged,
    /// The rotation handed back, or the composed transform, failed the
    /// properness or range check; the state is unchanged.
    DegenerateRotation,
    /// The iteration budget is exhausted without convergence.
    IterationLimitReached,
}

/// The registration state machine. The map set (inside the index), the scan
/// set and the centroids are fixed for the run; the transform is the running
/// estimate, refined once per step.
pub struct IcpEngine {
    pub index: SpatialIndex,
    pub scan: Vec<Point3>,
    pub map_centroid: Point3,
    pub scan_centroid: Point3,
    pub transform: RigidTransform,
    pub correspondences: Vec<Correspondence>,
    pub error: u64,
    pub iterations: u64,
    pub threshold: u64,
    pub max_iterations: u64,
    pub finished: bool,
}

impl IcpEngine {
    /// Model of the map point set.
    pub open spec fn mapv(&self) -> Seq<PointView> {
        self.index@
    }

    /// Model of the scan point set.
    pub open spec fn scanv(&self) -> Seq<PointView> {
        pts_view(self.scan@)
    }

    /// The engine invariant: inputs in range, centroids and correspondences
    /// as computed from the current transform, the transform well-formed
    /// with a proper rotation, and the error the mean residual.
    pub open spec fn wf(&self) -> bool {
        &&& self.mapv().len() > 0
        &&& self.scanv().len() > 0
        &&& self.scanv().len() <= 0x1_0000_0000
        &&& all_in_range(self.mapv())
        &&& all_in_range(self.scanv())
        &&& self.index.wf()
        &&& self.map_centroid@ == centroid(self.mapv())
        &&& in_range(self.map_centroid@)
        &&& self.scan_centroid@ == centroid(self.scanv())
        &&& in_range(self.scan_centroid@)
        &&& transform_wf(self.transform@)
        &&& is_proper_rotation(self.transform@.rot)
        &&& corrs_ok(self.mapv(), self.scanv(), self.transform@, self.correspondences@)
        &&& self.error == spec_registration_error(
            self.mapv(),
            self.scanv(),
            self.transform@,
            self.correspondences@,
        )
        &&& self.iterations <= self.max_iterations
    }

    /// Builds the engine: rejects empty inputs, builds the index and the
    /// centroids once, and computes the initial correspondences and error
    /// under the initial guess.
    pub fn new(
        points_map: Vec<Point3>,
        points_scan: Vec<Point3>,
        initial_guess: RigidTransform,
        parameters: &ICPParameters,
    ) -> (r: Result<IcpEngine, IcpError>)
        requires
            all_in_range(pts_view(points_map@)),
            all_in_range(pts_view(points_scan@)),
            points_scan@.len() <= 0x1_0000_0000,
            transform_wf(initial_guess@),
            is_proper_rotation(initial_guess@.rot),
        ensures
            r == Result::<IcpEngine, IcpError>::Err(IcpError::EmptyMap) <==> points_map@.len()
                == 0,
            r == Result::<IcpEngine, IcpError>::Err(IcpError::EmptyScan) <==> (points_map@.len()
                > 0 && points_scan@.len() == 0),
            points_map@.len() > 0 && points_scan@.len() > 0 ==> (r matches Ok(en) && en.wf()
                && en.mapv() == pts_view(points_map@) && en.scan@ == points_scan@ && en.transform@
                == initial_guess@ && en.iterations == 0 && en.error == spec_registration_error(
                en.mapv(),
                en.scanv(),
                initial_guess@,
                en.correspondences@,
            ) && en.threshold == parameters.termination_threshold && en.max_iterations
                == parameters.max_iterations && !en.finished),
    {
        if points_map.len() == 0 {
            return Err(IcpError::EmptyMap);
        }
        if points_scan.len() == 0 {
            return Err(IcpError::EmptyScan);
        }
        let map_centroid = center_of_mass(&points_map);
        let scan_centroid = center_of_mass(&points_scan);
        let index = SpatialIndex::new(points_map);
        let correspondences = crate::correspondence::calculate_correspondences(
            &index,
            &points_scan,
            &initial_guess,
        );
        let error = crate::convergence::registration_error(
            index.points(),
            &points_scan,
            &initial_guess,
            &correspondences,
        );
        Ok(
            IcpEngine {
                index,
                scan: points_scan,
                map_centroid,
                scan_centroid,
                transform: initial_guess,
                correspondences,
                error,
                iterations: 0,
                threshold: parameters.termination_threshold,
                max_iterations: parameters.max_iterations,
                finished: false,
            },
        )
    }

    /// The cross-covariance matrix of the current state, whose singular
    /// value decomposition yields the next rotation.
    pub fn cross_covariance(&self) -> (m: CovMatrix)
        requires
            self.wf(),
        ensures
            m@ == cov_sum(
                self.mapv(),
                self.scanv(),
                self.transform@,
                self.map_centroid@,
                self.scan_centroid@,
                self.correspondences@,
            ),
    {
        crate::covariance::cross_covariance(
            self.index.points(),
            &self.scan,
            &self.transform,
            &self.map_centroid,
            &self.scan_centroid,
            &self.correspondences,
        )
    }

    /// One ICP iteration, given the rotation recovered from the current
    /// cross-covariance matrix: validate the rotation, compose the
    /// correction onto the running transform, recompute correspondences and
    /// error, and decide whether to continue, stop, or report degeneracy.
    pub fn step(&mut self, rotation: &Mat3) -> (outcome: StepOutcome)
        requires
            old(self).wf(),
            !old(self).finished,
            old(self).iterations < old(self).max_iterations,
        ensures
            final(self).wf(),
            final(self).index@ == old(self).index@,
            final(self).scan@ == old(self).scan@,
            final(self).map_centroid == old(self).map_centroid,
            final(self).scan_centroid == old(self).scan_centroid,
            final(self).threshold == old(self).threshold,
            final(self).max_iterations == old(self).max_iterations,
            ({
                let corr = (TransformView {
                    rot: rotation@,
                    t: correction_translation(
                        rotation@,
                        old(self).transform@,
                        old(self).scan_centroid@,
                        old(self).map_centroid@,
                    ),
                });
                let composed = spec_compose(old(self).transform@, corr);
                let degenerate = !is_proper_rotation(rotation@) || !is_proper_rotation(
                    composed.rot,
                ) || !pt_abs_le(composed.t, TRANS_MAX as int);
                &&& (outcome == StepOutcome::DegenerateRotation <==> degenerate)
                &&& (degenerate ==> {
                    &&& final(self).transform == old(self).transform
                    &&& final(self).correspondences@ == old(self).correspondences@
                    &&& final(self).error == old(self).error
                    &&& final(self).iterations == old(self).iterations
                    &&& final(self).finished
                })
                &&& (!degenerate ==> {
                    &&& final(self).transform@ == composed
                    &&& is_proper_rotation(final(self).transform@.rot)
                    &&& corrs_ok(
                        final(self).mapv(),
                        final(self).scanv(),
                        composed,
                        final(self).correspondences@,
                    )
                    &&& final(self).error == spec_registration_error(
                        final(self).mapv(),
                        final(self).scanv(),
                        composed,
                        final(self).correspondences@,
                    )
                    &&& final(self).iterations == old(self).iterations + 1
                    &&& (outcome == StepOutcome::Converged <==> final(self).error < final(
                        self).threshold)
                    &&& (outcome == StepOutcome::IterationLimitReached <==> (final(self).error
                        >= final(self).threshold && final(self).iterations == final(
                        self).max_iterations))
                    &&& (outcome == StepOutcome::Continue <==> (final(self).error >= final(
                        self).threshold && final(self).iterations < final(self).max_iterations))
                    &&& (final(self).finished <==> outcome != StepOutcome::Continue)
                })
            }),
    {
        if !rotation.check_proper_rotation() {
            self.finished = true;
            return StepOutcome::DegenerateRotation;
        }
        let corr = alignment_correction(
            rotation,
            &self.transform,
            &self.scan_centroid,
            &self.map_centroid,
        );
        let composed = match self.transform.compose_checked(&corr) {
            Some(t) => t,
            None => {
                self.finished = true;
                return StepOutcome::DegenerateRotation;
            },
        };
        self.transform = composed;
        let cs = crate::correspondence::calculate_correspondences(
            &self.index,
            &self.scan,
            &self.transform,
        );
        self.correspondences = cs;
        let e = crate::convergence::registration_error(
            self.index.points(),
            &self.scan,
            &self.transform,
            &self.correspondences,
        );
        self.error = e;
        self.iterations = self.iterations + 1;
        if e < self.threshold {
            self.finished = true;
            StepOutcome::Converged
        } else if self.iterations == self.max_iterations {
            self.finished = true;
            StepOutcome::IterationLimitReached
        } else {
            StepOutcome::Continue
        }
    }
}

} // verus!
