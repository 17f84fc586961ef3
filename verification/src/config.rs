//! The settings that hold for the whole flock.

use vstd::prelude::*;
use crate::scalar::Vector;

verus! {

/// Whether the boids move in the plane or in space.
#[derive(Clone, Copy, Debug, PartialEq, Eq, Structural)]
pub enum BoidSpace {
    TwoDimensional,
    ThreeDimensional,
}

/// The settings of the flock.
#[derive(Clone, Copy, Debug, PartialEq, Eq, Structural)]
pub struct BoidsConfig {
    pub space: BoidSpace,
    pub debug: bool,
}

/// How a boid is turned once it has moved.
#[derive(Clone, Copy, Debug, PartialEq, Eq, Structural)]
pub enum Orientation {
    /// The boid stays as it is: a velocity of zero points nowhere.
    Unchanged,
    /// The boid keeps looking along its forward axis, and its up axis turns
    /// to its velocity.
    UpAlongVelocity,
    /// The boid looks along its velocity, and its up axis turns to what was
    /// its forward axis.
    ForwardAlongVelocity,
}

impl BoidsConfig {
    /// How a boid with the given velocity is turned.
    pub open spec fn spec_orientation(&self, velocity: Vector) -> Orientation {
        if velocity.spec_is_zero() {
            Orientation::Unchanged
        } else {
            match self.space {
                BoidSpace::TwoDimensional => Orientation::UpAlongVelocity,
                BoidSpace::ThreeDimensional => Orientation::ForwardAlongVelocity,
            }
        }
    }

    /// How a boid with the given velocity is turned: not at all while the
    /// velocity is zero, else as the space of the flock asks.
    pub fn orientation(&self, velocity: Vector) -> (result: Orientation)
        ensures
            result == self.spec_orientation(velocity),
    {
        if velocity.is_zero() {
            Orientation::Unchanged
        } else {
            match self.space {
                BoidSpace::TwoDimensional => Orientation::UpAlongVelocity,
                BoidSpace::ThreeDimensional => Orientation::ForwardAlongVelocity,
            }
        }
    }
}

} // verus!
