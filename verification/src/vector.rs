//! Three scalars: a velocity, an acceleration or a position.

use vstd::prelude::*;
use crate::scalar::Scalar;

verus! {

#[derive(Clone, Copy, Debug, PartialEq, Eq, Structural, Hash)]
pub struct Vec3 {
    pub x: Scalar,
    pub y: Scalar,
    pub z: Scalar,
}

/// What snapping makes of one axis: positive zero where the magnitude is
/// under the threshold, the axis itself elsewhere (a NaN stays).
pub open spec fn snapped_axis(axis: Scalar) -> Scalar {
    if axis.abs_below_spec(Scalar::smallest_magnitude_spec()) {
        Scalar::zero_spec()
    } else {
        axis
    }
}

impl Vec3 {
    /// No axis is infinite or a NaN.
    pub open spec fn is_finite_spec(self) -> bool {
        self.x.is_finite_spec() && self.y.is_finite_spec() && self.z.is_finite_spec()
    }

    /// Every axis is zero, of either sign.
    pub open spec fn is_zero_spec(self) -> bool {
        self.x.is_zero_spec() && self.y.is_zero_spec() && self.z.is_zero_spec()
    }

    pub open spec fn zero_spec() -> Vec3 {
        Vec3 { x: Scalar::zero_spec(), y: Scalar::zero_spec(), z: Scalar::zero_spec() }
    }

    pub open spec fn snapped_spec(self) -> Vec3 {
        Vec3 { x: snapped_axis(self.x), y: snapped_axis(self.y), z: snapped_axis(self.z) }
    }

    pub fn new(x: Scalar, y: Scalar, z: Scalar) -> (r: Vec3)
        ensures
            r == (Vec3 { x, y, z }),
    {
        Vec3 { x, y, z }
    }

    pub fn zero() -> (r: Vec3)
        ensures
            r == Vec3::zero_spec(),
            r.is_zero_spec(),
            r.is_finite_spec(),
    {
        Vec3 { x: Scalar::zero(), y: Scalar::zero(), z: Scalar::zero() }
    }

    pub fn is_finite(self) -> (r: bool)
        ensures
            r == self.is_finite_spec(),
    {
        self.x.is_finite() && self.y.is_finite() && self.z.is_finite()
    }

    pub fn is_zero(self) -> (r: bool)
        ensures
            r == self.is_zero_spec(),
    {
        self.x.is_zero() && self.y.is_zero() && self.z.is_zero()
    }

    /// Forces every axis whose magnitude is under the threshold to exactly
    /// zero, so that no drift below it lingers.
    pub fn snapped(self) -> (r: Vec3)
        ensures
            r == self.snapped_spec(),
            self.is_finite_spec() ==> r.is_finite_spec(),
    {
        let eps = Scalar::smallest_magnitude();
        let x = if self.x.abs_below(eps) { Scalar::zero() } else { self.x };
        let y = if self.y.abs_below(eps) { Scalar::zero() } else { self.y };
        let z = if self.z.abs_below(eps) { Scalar::zero() } else { self.z };
        Vec3 { x, y, z }
    }
}

} // verus!
