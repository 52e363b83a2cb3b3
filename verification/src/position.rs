//! The position of an entity, moved by its net velocity.

use vstd::prelude::*;
use crate::scalar::Scalar;
use crate::vector::Vec3;

verus! {

/// The authoritative position: continuous, never rounded.
#[derive(Clone, Copy, Debug, PartialEq, Eq, Structural)]
pub struct Position {
    pub translation: Vec3,
}

/// The net velocity: the sum of the velocities of the active effects.
#[derive(Clone, Copy, Debug, PartialEq, Eq, Structural)]
pub struct Velocity {
    pub velocity: Vec3,
}

impl Position {
    /// An entity moves in a tick only if its net velocity is longer than
    /// the smallest magnitude.
    pub open spec fn moves_spec(speed: Scalar) -> bool {
        speed.abs_exceeds_spec(Scalar::smallest_magnitude_spec())
    }

    pub fn moves(speed: Scalar) -> (r: bool)
        ensures
            r == Position::moves_spec(speed),
    {
        speed.abs_exceeds(Scalar::smallest_magnitude())
    }
}

/// Moves an entity by its net velocity. `speed` is the length of the net
/// velocity and `target` the position plus the net velocity times the
/// seconds elapsed. The position takes the target where the entity moves
/// at that speed; a target that holds an infinity or a NaN is not taken.
/// Returns whether the position changed hands, in which case what is shown
/// of the entity is to be set to the rounded position.
pub fn incorporate_velocity(position: &mut Position, speed: Scalar, target: Vec3) -> (moved: bool)
    ensures
        moved == (Position::moves_spec(speed) && target.is_finite_spec()),
        final(position).translation == if moved {
            target
        } else {
            old(position).translation
        },
{
    if Position::moves(speed) && target.is_finite() {
        position.translation = target;
        true
    } else {
        false
    }
}

impl Default for Position {
    fn default() -> (r: Position)
        ensures
            r.translation == Vec3::zero_spec(),
    {
        Position { translation: Vec3::zero() }
    }
}

impl Default for Velocity {
    fn default() -> (r: Velocity)
        ensures
            r.velocity == Vec3::zero_spec(),
    {
        Velocity { velocity: Vec3::zero() }
    }
}

} // verus!
