//! One effect's passage through a dynamics pass.
//!
//! The pass alternates decisions, which are made here, with arithmetic on
//! the numbers, which is asked of the caller: a step names the work it
//! wants next, and absorbs the result.

use vstd::prelude::*;
use crate::scalar::{Scalar, BLEND_WEIGHT_BITS};
use crate::vector::Vec3;
use crate::effect::MovementEffect;

verus! {

/// Where a step stands: the work it waits for.
#[derive(Clone, Copy, Debug, PartialEq, Eq, Structural)]
pub enum StepPhase {
    Decay,
    Accumulate,
    Blend,
    Clamp,
    Measure,
    Settled,
}

/// Arithmetic that a step asks of the caller.
#[derive(Clone, Copy, Debug, PartialEq, Eq, Structural)]
pub enum FloatWork {
    /// Multiply `velocity` and `acceleration` by `dampening` raised to the
    /// power `elapsed`.
    Decay { velocity: Vec3, acceleration: Vec3, dampening: Scalar, elapsed: Scalar },
    /// Add `acceleration` times `elapsed` to `velocity`.
    Accumulate { velocity: Vec3, acceleration: Vec3, elapsed: Scalar },
    /// Keep the length of `velocity` and turn it to the heading that lies
    /// between those of `acceleration` and `velocity`, `weight` of the way
    /// towards the latter. Neither vector is zero.
    Blend { velocity: Vec3, acceleration: Vec3, weight: Scalar },
    /// Shorten `velocity` to the length `maximal_velocity` where it is longer.
    Clamp { velocity: Vec3, maximal_velocity: Scalar },
    /// Take the lengths of `velocity` and `acceleration`.
    Measure { velocity: Vec3, acceleration: Vec3 },
    /// The step is settled and wants nothing.
    Nothing,
}

/// What the caller hands back for a piece of work.
#[derive(Clone, Copy, Debug, PartialEq, Eq, Structural)]
pub enum FloatResult {
    /// For `Decay`.
    Decayed { velocity: Vec3, acceleration: Vec3 },
    /// For `Accumulate`, `Blend` and `Clamp`.
    Velocity { velocity: Vec3 },
    /// For `Measure`.
    Lengths { velocity_length: Scalar, acceleration_length: Scalar },
}

/// A vector handed back, or the one that stood before where the new one
/// holds an infinity or a NaN: such a value never enters an effect.
pub open spec fn guarded(previous: Vec3, next: Vec3) -> Vec3 {
    if next.is_finite_spec() {
        next
    } else {
        previous
    }
}

#[derive(Clone, Copy, Debug, PartialEq, Eq, Structural)]
pub struct EffectStep {
    /// The effect as far as the pass has brought it.
    pub effect: MovementEffect,
    /// The seconds that the tick lasts.
    pub elapsed: Scalar,
    pub phase: StepPhase,
    /// Once settled: whether the effect stays in the ledger.
    pub retained: bool,
}

impl EffectStep {
    /// An effect that was renewed since the last pass skips the decay.
    pub open spec fn begin_spec(effect: MovementEffect, elapsed: Scalar) -> EffectStep {
        EffectStep {
            effect,
            elapsed,
            phase: if effect.updated {
                StepPhase::Accumulate
            } else {
                StepPhase::Decay
            },
            retained: false,
        }
    }

    pub open spec fn work_spec(self) -> FloatWork {
        match self.phase {
            StepPhase::Decay => FloatWork::Decay {
                velocity: self.effect.velocity,
                acceleration: self.effect.acceleration,
                dampening: self.effect.dampening,
                elapsed: self.elapsed,
            },
            StepPhase::Accumulate => FloatWork::Accumulate {
                velocity: self.effect.velocity,
                acceleration: self.effect.acceleration,
                elapsed: self.elapsed,
            },
            StepPhase::Blend => FloatWork::Blend {
                velocity: self.effect.velocity,
                acceleration: self.effect.acceleration,
                weight: Scalar { bits: BLEND_WEIGHT_BITS },
            },
            StepPhase::Clamp => FloatWork::Clamp {
                velocity: self.effect.velocity,
                maximal_velocity: self.effect.maximal_velocity,
            },
            StepPhase::Measure => FloatWork::Measure {
                velocity: self.effect.velocity,
                acceleration: self.effect.acceleration,
            },
            StepPhase::Settled => FloatWork::Nothing,
        }
    }

    /// The phase after accumulation: a zero vector has no heading, so the
    /// blend is left out where the velocity or the acceleration is zero.
    pub open spec fn after_accumulation(velocity: Vec3, acceleration: Vec3) -> StepPhase {
        if velocity.is_zero_spec() || acceleration.is_zero_spec() {
            StepPhase::Clamp
        } else {
            StepPhase::Blend
        }
    }

    /// An effect stays while its velocity or its acceleration is longer than
    /// the smallest magnitude.
    pub open spec fn stays(velocity_length: Scalar, acceleration_length: Scalar) -> bool {
        velocity_length.abs_exceeds_spec(Scalar::smallest_magnitude_spec())
            || acceleration_length.abs_exceeds_spec(Scalar::smallest_magnitude_spec())
    }

    /// The step after it took `result`. A result of another kind than the
    /// phase waits for changes nothing.
    pub open spec fn absorbed_spec(self, result: FloatResult) -> EffectStep {
        match (self.phase, result) {
            (StepPhase::Decay, FloatResult::Decayed { velocity, acceleration }) => EffectStep {
                effect: MovementEffect {
                    velocity: guarded(self.effect.velocity, velocity),
                    acceleration: guarded(self.effect.acceleration, acceleration),
                    ..self.effect
                },
                phase: StepPhase::Accumulate,
                ..self
            },
            (StepPhase::Accumulate, FloatResult::Velocity { velocity }) => {
                let next = guarded(self.effect.velocity, velocity);
                EffectStep {
                    effect: MovementEffect { velocity: next, ..self.effect },
                    phase: EffectStep::after_accumulation(next, self.effect.acceleration),
                    ..self
                }
            },
            (StepPhase::Blend, FloatResult::Velocity { velocity }) => EffectStep {
                effect: MovementEffect {
                    velocity: guarded(self.effect.velocity, velocity),
                    ..self.effect
                },
                phase: StepPhase::Clamp,
                ..self
            },
            (StepPhase::Clamp, FloatResult::Velocity { velocity }) => EffectStep {
                effect: MovementEffect {
                    velocity: guarded(self.effect.velocity, velocity).snapped_spec(),
                    updated: false,
                    ..self.effect
                },
                phase: StepPhase::Measure,
                ..self
            },
            (
                StepPhase::Measure,
                FloatResult::Lengths { velocity_length, acceleration_length },
            ) => EffectStep {
                phase: StepPhase::Settled,
                retained: EffectStep::stays(velocity_length, acceleration_length),
                ..self
            },
            _ => self,
        }
    }

    pub open spec fn is_settled_spec(self) -> bool {
        self.phase == StepPhase::Settled
    }

    pub fn begin(effect: MovementEffect, elapsed: Scalar) -> (r: EffectStep)
        ensures
            r == EffectStep::begin_spec(effect, elapsed),
            !r.is_settled_spec(),
    {
        let phase = if effect.updated {
            StepPhase::Accumulate
        } else {
            StepPhase::Decay
        };
        EffectStep { effect, elapsed, phase, retained: false }
    }

    /// The work that the step waits for.
    pub fn work(&self) -> (r: FloatWork)
        ensures
            r == self.work_spec(),
            (r == FloatWork::Nothing) == self.is_settled_spec(),
    {
        match self.phase {
            StepPhase::Decay => FloatWork::Decay {
                velocity: self.effect.velocity,
                acceleration: self.effect.acceleration,
                dampening: self.effect.dampening,
                elapsed: self.elapsed,
            },
            StepPhase::Accumulate => FloatWork::Accumulate {
                velocity: self.effect.velocity,
                acceleration: self.effect.acceleration,
                elapsed: self.elapsed,
            },
            StepPhase::Blend => FloatWork::Blend {
                velocity: self.effect.velocity,
                acceleration: self.effect.acceleration,
                weight: Scalar::from_bits(BLEND_WEIGHT_BITS),
            },
            StepPhase::Clamp => FloatWork::Clamp {
                velocity: self.effect.velocity,
                maximal_velocity: self.effect.maximal_velocity,
            },
            StepPhase::Measure => FloatWork::Measure {
                velocity: self.effect.velocity,
                acceleration: self.effect.acceleration,
            },
            StepPhase::Settled => FloatWork::Nothing,
        }
    }

    pub fn is_settled(&self) -> (r: bool)
        ensures
            r == self.is_settled_spec(),
    {
        match self.phase {
            StepPhase::Settled => true,
            _ => false,
        }
    }

    /// Takes the result of the work that the step waited for, decides what
    /// becomes of the effect, and moves on to the next phase.
    pub fn absorb(self, result: FloatResult) -> (r: EffectStep)
        ensures
            r == self.absorbed_spec(result),
            r.elapsed == self.elapsed,
            self.effect.is_finite_spec() ==> r.effect.is_finite_spec(),
    {
        let mut next = self;
        match (self.phase, result) {
            (StepPhase::Decay, FloatResult::Decayed { velocity, acceleration }) => {
                if velocity.is_finite() {
                    next.effect.velocity = velocity;
                }
                if acceleration.is_finite() {
                    next.effect.acceleration = acceleration;
                }
                next.phase = StepPhase::Accumulate;
            },
            (StepPhase::Accumulate, FloatResult::Velocity { velocity }) => {
                if velocity.is_finite() {
                    next.effect.velocity = velocity;
                }
                if next.effect.velocity.is_zero() || next.effect.acceleration.is_zero() {
                    next.phase = StepPhase::Clamp;
                } else {
                    next.phase = StepPhase::Blend;
                }
            },
            (StepPhase::Blend, FloatResult::Velocity { velocity }) => {
                if velocity.is_finite() {
                    next.effect.velocity = velocity;
                }
                next.phase = StepPhase::Clamp;
            },
            (StepPhase::Clamp, FloatResult::Velocity { velocity }) => {
                if velocity.is_finite() {
                    next.effect.velocity = velocity;
                }
                next.effect.velocity = next.effect.velocity.snapped();
                next.effect.updated = false;
                next.phase = StepPhase::Measure;
            },
            (StepPhase::Measure, FloatResult::Lengths { velocity_length, acceleration_length }) => {
                let eps = Scalar::smallest_magnitude();
                next.retained = velocity_length.abs_exceeds(eps)
                    || acceleration_length.abs_exceeds(eps);
                next.phase = StepPhase::Settled;
            },
            _ => {},
        }
        next
    }
}

} // verus!
