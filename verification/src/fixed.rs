use vstd::prelude::*;

verus! {

/// Number of raw steps in one world unit.
///
/// Every scalar the scene needs is an exact multiple of 1/90: the camera and
/// clock move in halves, the animation phase advances in tenths, the bobbing
/// amplitude grows in ninths, and yaw angles are whole half-degrees.
pub const FX_ONE: i64 = 90;

/// Raw steps in half a world unit (the camera step, and one clock tick).
pub const FX_HALF: i64 = 45;

/// Magnitude bound kept on scalars so that a product with a trigonometric
/// factor (at most `FX_ONE` raw) and small sums stay well inside `i64`.
pub const FX_BOUND: i64 = 1_000_000_000_000_000;

/// A fixed-point scalar worth `raw / FX_ONE` world units.
#[derive(Clone, Copy, Debug, PartialEq, Eq, Structural)]
pub struct Fx {
    pub raw: i64,
}

impl Fx {
    /// Whether the scalar's magnitude is small enough for the library's
    /// exact arithmetic.
    pub open spec fn bounded(self) -> bool {
        -FX_BOUND <= self.raw <= FX_BOUND
    }

    /// The scalar zero.
    pub fn zero() -> (r: Fx)
        ensures
            r.raw == 0,
    {
        Fx { raw: 0 }
    }

    /// The scalar worth `n` whole world units.
    pub fn from_units(n: i32) -> (r: Fx)
        ensures
            r.raw == n * FX_ONE,
    {
        Fx { raw: (n as i64) * FX_ONE }
    }

    /// The scalar worth `n` half world units.
    pub fn from_half_units(n: i32) -> (r: Fx)
        ensures
            r.raw == n * FX_HALF,
    {
        Fx { raw: (n as i64) * FX_HALF }
    }
}

/// A three-component fixed-point vector.
#[derive(Clone, Copy, Debug, PartialEq, Eq, Structural)]
pub struct Vec3Fx {
    pub x: Fx,
    pub y: Fx,
    pub z: Fx,
}

impl Vec3Fx {
    /// Whether all three components are bounded.
    pub open spec fn bounded(self) -> bool {
        self.x.bounded() && self.y.bounded() && self.z.bounded()
    }

    /// The vector with the given components.
    pub fn make(x: Fx, y: Fx, z: Fx) -> (r: Vec3Fx)
        ensures
            r == (Vec3Fx { x, y, z }),
    {
        Vec3Fx { x, y, z }
    }
}

/// A two-component fixed-point vector (per-vertex color/uv attribute).
#[derive(Clone, Copy, Debug, PartialEq, Eq, Structural)]
pub struct Vec2Fx {
    pub x: Fx,
    pub y: Fx,
}

} // verus!
