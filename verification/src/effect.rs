//! The lasting state of one named cause of motion.

use vstd::prelude::*;
use crate::scalar::{Scalar, IMPULSE_DAMPENING_BITS, UNBOUNDED_BITS};
use crate::vector::Vec3;
use crate::request::MovementModifier;

verus! {

#[derive(Clone, Copy, Debug, PartialEq, Eq, Structural)]
pub struct MovementEffect {
    pub velocity: Vec3,
    pub acceleration: Vec3,
    pub dampening: Scalar,
    pub maximal_velocity: Scalar,
    /// Set when a request renewed the effect since the last dynamics pass.
    pub updated: bool,
}

impl MovementEffect {
    /// Neither the velocity nor the acceleration holds an infinity or a NaN.
    pub open spec fn is_finite_spec(self) -> bool {
        self.velocity.is_finite_spec() && self.acceleration.is_finite_spec()
    }

    /// The state a name has before anything was folded into it.
    pub open spec fn default_spec() -> MovementEffect {
        MovementEffect {
            velocity: Vec3::zero_spec(),
            acceleration: Vec3::zero_spec(),
            dampening: Scalar::zero_spec(),
            maximal_velocity: Scalar::zero_spec(),
            updated: false,
        }
    }

    /// The effect that a request leaves under its name, given what stood
    /// there before. An impulse replaces the state: it starts from rest with
    /// the dampening of impulses, and every other field as in the default
    /// state, the cap of zero included. A momentum overwrites the driving
    /// parameters and keeps the velocity; without a cap of its own it gets
    /// the largest finite number. Either way the effect is marked as renewed.
    pub open spec fn folded_spec(
        previous: Option<MovementEffect>,
        modifier: MovementModifier,
    ) -> MovementEffect {
        match modifier {
            MovementModifier::Impulse { acceleration } => MovementEffect {
                velocity: Vec3::zero_spec(),
                acceleration,
                dampening: Scalar { bits: IMPULSE_DAMPENING_BITS },
                maximal_velocity: Scalar::zero_spec(),
                updated: true,
            },
            MovementModifier::Momentum { acceleration, dampening, maximal_velocity } => {
                let base = match previous {
                    Some(effect) => effect,
                    None => MovementEffect::default_spec(),
                };
                MovementEffect {
                    velocity: base.velocity,
                    acceleration,
                    dampening,
                    maximal_velocity: match maximal_velocity {
                        Some(cap) => cap,
                        None => Scalar { bits: UNBOUNDED_BITS },
                    },
                    updated: true,
                }
            },
        }
    }

    pub fn is_finite(&self) -> (r: bool)
        ensures
            r == self.is_finite_spec(),
    {
        self.velocity.is_finite() && self.acceleration.is_finite()
    }

    pub fn folded(previous: Option<MovementEffect>, modifier: MovementModifier) -> (r:
        MovementEffect)
        ensures
            r == MovementEffect::folded_spec(previous, modifier),
            ({
                &&& modifier.is_admissible_spec()
                &&& (previous is Some ==> previous->0.is_finite_spec())
            }) ==> r.is_finite_spec(),
    {
        match modifier {
            MovementModifier::Impulse { acceleration } => MovementEffect {
                velocity: Vec3::zero(),
                acceleration,
                dampening: Scalar::from_bits(IMPULSE_DAMPENING_BITS),
                maximal_velocity: Scalar::zero(),
                updated: true,
            },
            MovementModifier::Momentum { acceleration, dampening, maximal_velocity } => {
                let velocity = match previous {
                    Some(effect) => effect.velocity,
                    None => Vec3::zero(),
                };
                let cap = match maximal_velocity {
                    Some(cap) => cap,
                    None => Scalar::from_bits(UNBOUNDED_BITS),
                };
                MovementEffect { velocity, acceleration, dampening, maximal_velocity: cap, updated: true }
            },
        }
    }
}

impl Default for MovementEffect {
    fn default() -> (r: MovementEffect)
        ensures
            r == MovementEffect::default_spec(),
    {
        MovementEffect {
            velocity: Vec3::zero(),
            acceleration: Vec3::zero(),
            dampening: Scalar::zero(),
            maximal_velocity: Scalar::zero(),
            updated: false,
        }
    }
}

} // verus!
