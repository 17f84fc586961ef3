//! A boid: its limits, its weights, what it sees, and its velocity.

use vstd::prelude::*;
use crate::scalar::{Scalar, Vector};

verus! {

/// How strongly each of the four urges turns a boid.
///
/// These parameters are finicky: expect to tune them.
#[derive(Clone, Copy, Debug)]
pub struct BoidTurningStrength {
    /// How strongly the boid steers towards the middle of the boids it sees.
    pub coherence: Scalar,
    /// How strongly the boid turns away from boids too close to it.
    pub separation: Scalar,
    /// How strongly the boid takes up the average velocity of the boids it sees.
    pub alignment: Scalar,
    /// How strongly the boid turns away from its borders.
    pub border: Scalar,
}

impl BoidTurningStrength {
    /// No weight is negative, and each is a number.
    pub open spec fn well_formed(&self) -> bool {
        &&& Scalar::spec_zero().spec_le(self.coherence)
        &&& Scalar::spec_zero().spec_le(self.separation)
        &&& Scalar::spec_zero().spec_le(self.alignment)
        &&& Scalar::spec_zero().spec_le(self.border)
    }

    pub fn new(coherence: Scalar, separation: Scalar, alignment: Scalar, border: Scalar) -> (result:
        BoidTurningStrength)
        ensures
            result == (BoidTurningStrength { coherence, separation, alignment, border }),
    {
        BoidTurningStrength { coherence, separation, alignment, border }
    }

    /// Whether no weight is negative, and each is a number.
    pub fn is_well_formed(&self) -> (result: bool)
        ensures
            result == self.well_formed(),
    {
        let zero = Scalar::zero();
        zero.le(self.coherence) && zero.le(self.separation) && zero.le(self.alignment) && zero.le(
            self.border,
        )
    }
}

/// Where another boid is, as one boid sees it.
#[derive(Clone, Copy, Debug, PartialEq, Eq, Structural)]
pub enum Proximity {
    /// Farther away than the boid can see: it counts for nothing.
    Beyond,
    /// Within view: it counts for alignment and coherence.
    Visible,
    /// Within view and closer than the protected range: it counts for
    /// separation as well.
    Protected,
    /// Closer than the protected range, and at no distance at all: it
    /// counts for alignment and coherence, but there is no direction in
    /// which to get away from it.
    Coincident,
}

/// What a boid sees.
///
/// The field of view is kept for the rays of the debug display; it does not
/// narrow which boids are seen.
#[derive(Clone, Copy, Debug)]
pub struct BoidViewConfig {
    /// The field of view, in degrees.
    pub fov: u32,
    /// The distance below which a boid avoids another.
    /// Should not be larger than `view_range`.
    pub protected_range: Scalar,
    /// How far a boid can see.
    /// Should not be smaller than `protected_range`.
    pub view_range: Scalar,
}

impl BoidViewConfig {
    /// The protected range is no larger than the view range, and both are
    /// numbers.
    pub open spec fn well_formed(&self) -> bool {
        self.protected_range.spec_le(self.view_range)
    }

    /// Where a boid at the given distance is: within view up to and
    /// including the view range, protected strictly below the protected
    /// range, and coincident where that distance is zero.
    pub open spec fn spec_classify(&self, distance: Scalar) -> Proximity {
        if distance.spec_le(self.view_range) {
            if distance.spec_lt(self.protected_range) {
                if distance.spec_is_zero() {
                    Proximity::Coincident
                } else {
                    Proximity::Protected
                }
            } else {
                Proximity::Visible
            }
        } else {
            Proximity::Beyond
        }
    }

    /// The first and one past the last of the angles, in whole degrees from
    /// straight ahead, at which the debug display draws a ray: half the
    /// field of view to either side. A field of view that no `i32` holds
    /// has no rays.
    pub open spec fn spec_ray_angles(&self) -> (int, int) {
        if self.fov <= i32::MAX {
            (-(self.fov as int / 2), self.fov as int / 2)
        } else {
            (0, 0)
        }
    }

    pub fn new(fov: u32, protected_range: Scalar, view_range: Scalar) -> (result: BoidViewConfig)
        ensures
            result == (BoidViewConfig { fov, protected_range, view_range }),
    {
        BoidViewConfig { fov, protected_range, view_range }
    }

    /// Whether the protected range is no larger than the view range, and
    /// both are numbers.
    pub fn is_well_formed(&self) -> (result: bool)
        ensures
            result == self.well_formed(),
    {
        self.protected_range.le(self.view_range)
    }

    /// Where a boid at the given distance is.
    pub fn classify(&self, distance: Scalar) -> (result: Proximity)
        ensures
            result == self.spec_classify(distance),
    {
        if distance.le(self.view_range) {
            if distance.lt(self.protected_range) {
                if distance.is_zero() {
                    Proximity::Coincident
                } else {
                    Proximity::Protected
                }
            } else {
                Proximity::Visible
            }
        } else {
            Proximity::Beyond
        }
    }

    /// The angles at which the debug display draws a ray, from the first
    /// to one before the second.
    pub fn ray_angles(&self) -> (result: (i32, i32))
        ensures
            result.0 == self.spec_ray_angles().0,
            result.1 == self.spec_ray_angles().1,
    {
        if self.fov <= 0x7fff_ffff {
            let half: i32 = (self.fov / 2) as i32;
            (-half, half)
        } else {
            (0, 0)
        }
    }
}

/// Where the protected range is no larger than the view range, whoever is
/// closer than the protected range is within view: the protected range
/// alone decides who is too close.
pub proof fn lemma_protected_range_lies_within_view(view: BoidViewConfig, distance: Scalar)
    requires
        view.well_formed(),
    ensures
        view.spec_classify(distance) == Proximity::Protected <==> distance.spec_lt(
            view.protected_range,
        ) && !distance.spec_is_zero(),
        view.spec_classify(distance) == Proximity::Coincident <==> distance.spec_lt(
            view.protected_range,
        ) && distance.spec_is_zero(),
        view.spec_classify(distance) == Proximity::Visible <==> distance.spec_le(view.view_range)
            && !distance.spec_lt(view.protected_range),
{
}

/// The view range belongs to the view, and the protected range does not
/// belong to the protected zone.
pub proof fn lemma_ranges_at_their_limits(view: BoidViewConfig)
    requires
        view.well_formed(),
    ensures
        view.spec_classify(view.view_range) != Proximity::Beyond,
        view.spec_classify(view.protected_range) == Proximity::Visible,
{
}

/// The least and the greatest speed of a boid.
#[derive(Clone, Copy, Debug)]
pub struct BoidSpeed {
    min: Scalar,
    max: Scalar,
}

impl BoidSpeed {
    /// The least speed.
    pub closed spec fn spec_min(&self) -> Scalar {
        self.min
    }

    /// The greatest speed.
    pub closed spec fn spec_max(&self) -> Scalar {
        self.max
    }

    /// The least speed is not negative and not above the greatest, and both
    /// are numbers.
    pub open spec fn well_formed(&self) -> bool {
        Scalar::spec_zero().spec_le(self.spec_min()) && self.spec_min().spec_le(self.spec_max())
    }

    pub fn new(min: Scalar, max: Scalar) -> (result: BoidSpeed)
        ensures
            result.spec_min() == min,
            result.spec_max() == max,
    {
        BoidSpeed { min, max }
    }

    /// The least speed.
    pub fn min(&self) -> (result: Scalar)
        ensures
            result == self.spec_min(),
    {
        self.min
    }

    /// The greatest speed.
    pub fn max(&self) -> (result: Scalar)
        ensures
            result == self.spec_max(),
    {
        self.max
    }

    /// Whether the least speed is not negative and not above the greatest,
    /// and both are numbers.
    pub fn is_well_formed(&self) -> (result: bool)
        ensures
            result == self.well_formed(),
    {
        Scalar::zero().le(self.min) && self.min.le(self.max)
    }
}

/// What becomes of the velocity that steering has arrived at.
#[derive(Clone, Copy, Debug, PartialEq, Eq, Structural)]
pub enum Integration {
    /// The velocity has a length: its direction is kept, and its length is
    /// brought within the limits of the boid's speed.
    Clamped,
    /// The velocity has no length: the boid moves along the x axis at its
    /// least speed, so that it never comes to a standstill.
    Fallback,
}

/// What becomes of a velocity whose length, squared, is `length_squared`.
pub open spec fn spec_integration(length_squared: Scalar) -> Integration {
    if length_squared.spec_gt(Scalar::spec_zero()) {
        Integration::Clamped
    } else {
        Integration::Fallback
    }
}

/// What becomes of a velocity whose length, squared, is `length_squared`:
/// it is clamped where that is above zero, and replaced where it is not.
pub fn integration(length_squared: Scalar) -> (result: Integration)
    ensures
        result == spec_integration(length_squared),
{
    if length_squared.gt(Scalar::zero()) {
        Integration::Clamped
    } else {
        Integration::Fallback
    }
}

/// The boid itself: attach it to whatever should move like one.
#[derive(Clone, Copy, Debug)]
pub struct Boid {
    /// The least and the greatest speed.
    pub speed: BoidSpeed,
    /// The weights of the four urges.
    pub turning_strength: BoidTurningStrength,
    /// What the boid sees.
    pub view_config: BoidViewConfig,
    /// The velocity, which each step of the flock renews.
    pub velocity: Vector,
}

impl Boid {
    /// The limits, the weights and the view of the boid are well formed.
    pub open spec fn well_formed(&self) -> bool {
        &&& self.speed.well_formed()
        &&& self.turning_strength.well_formed()
        &&& self.view_config.well_formed()
    }

    /// A boid at rest.
    pub fn new(
        speed: BoidSpeed,
        turning_strength: BoidTurningStrength,
        view_config: BoidViewConfig,
    ) -> (result: Boid)
        ensures
            result == (Boid { speed, turning_strength, view_config, velocity: Vector::spec_zero() }),
    {
        Boid { speed, turning_strength, view_config, velocity: Vector::zero() }
    }

    /// The velocity of the boid.
    pub fn velocity(&self) -> (result: Vector)
        ensures
            result == self.velocity,
    {
        self.velocity
    }

    /// Whether the limits, the weights and the view of the boid are well
    /// formed.
    pub fn is_well_formed(&self) -> (result: bool)
        ensures
            result == self.well_formed(),
    {
        self.speed.is_well_formed() && self.turning_strength.is_well_formed()
            && self.view_config.is_well_formed()
    }
}

} // verus!
