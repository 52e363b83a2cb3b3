//! Movement requests: named, transient instructions handed to a ledger.

use vstd::prelude::*;
use crate::scalar::Scalar;
use crate::vector::Vec3;

verus! {

/// What a request asks for. Two of them are equal where their encodings are.
#[derive(Clone, Copy, Debug, PartialEq, Eq, Hash)]
pub enum MovementModifier {
    /// A single kick, which spends itself within a few ticks unless renewed.
    Impulse { acceleration: Vec3 },
    /// A driving force with its own decay rate and an optional cap on speed.
    Momentum { acceleration: Vec3, dampening: Scalar, maximal_velocity: Option<Scalar> },
}

impl MovementModifier {
    pub open spec fn acceleration_spec(self) -> Vec3 {
        match self {
            MovementModifier::Impulse { acceleration } => acceleration,
            MovementModifier::Momentum { acceleration, .. } => acceleration,
        }
    }

    /// A ledger takes a request only if no axis of its acceleration is
    /// infinite or a NaN.
    pub open spec fn is_admissible_spec(self) -> bool {
        self.acceleration_spec().is_finite_spec()
    }

    pub fn acceleration(&self) -> (r: Vec3)
        ensures
            r == self.acceleration_spec(),
    {
        match self {
            MovementModifier::Impulse { acceleration } => *acceleration,
            MovementModifier::Momentum { acceleration, .. } => *acceleration,
        }
    }

    pub fn is_admissible(&self) -> (r: bool)
        ensures
            r == self.is_admissible_spec(),
    {
        self.acceleration().is_finite()
    }
}

/// A request: the name of a cause of motion and what it asks for.
#[derive(Clone, Debug, PartialEq, Eq, Hash)]
pub struct Movement {
    pub modifier: MovementModifier,
    pub name: String,
}

impl Movement {
    pub fn new(name: &str, modifier: MovementModifier) -> (r: Movement)
        ensures
            r.name@ == name@,
            r.modifier == modifier,
    {
        Movement { name: name.to_owned(), modifier }
    }
}

} // verus!
