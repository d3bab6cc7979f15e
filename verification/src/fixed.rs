//! Fixed-point scalars, vectors and rotations.

use vstd::prelude::*;

verus! {

/// Fixed-point steps in one unit: a stored `1_000_000` stands for one.
pub const SCALE: i64 = 1_000_000;

/// The integer nearest to `v` that an `i64` can hold.
pub open spec fn saturate(v: int) -> i64 {
    if v > i64::MAX {
        i64::MAX
    } else if v < i64::MIN {
        i64::MIN
    } else {
        v as i64
    }
}

/// The magnitude of `v`.
pub open spec fn magnitude(v: int) -> int {
    if v < 0 {
        -v
    } else {
        v
    }
}

/// Adds two fixed-point scalars, stopping at the ends of the `i64` range.
pub fn saturating_sum(a: i64, b: i64) -> (r: i64)
    ensures
        r == saturate(a + b),
{
    let wide: i128 = a as i128 + b as i128;
    if wide > i64::MAX as i128 {
        i64::MAX
    } else if wide < i64::MIN as i128 {
        i64::MIN
    } else {
        wide as i64
    }
}

/// The magnitude of a scalar, widened so that the most negative value fits.
pub fn magnitude_of(v: i64) -> (r: u64)
    ensures
        r == magnitude(v as int),
{
    if v >= 0 {
        v as u64
    } else {
        let wide: i128 = -(v as i128);
        wide as u64
    }
}

/// A vector of three fixed-point components, in millionths of a unit.
#[derive(Clone, Copy, Debug, PartialEq, Eq, Structural)]
pub struct Vec3 {
    pub x: i64,
    pub y: i64,
    pub z: i64,
}

impl Vec3 {
    /// The squared Euclidean length, in squared millionths.
    pub open spec fn norm_squared(self) -> int {
        self.x * self.x + self.y * self.y + self.z * self.z
    }

    /// Whether the Euclidean length lies strictly under `threshold`.
    ///
    /// A length is never negative, so no vector is shorter than a threshold
    /// of zero or less.
    pub open spec fn shorter_than(self, threshold: int) -> bool {
        0 < threshold && self.norm_squared() < threshold * threshold
    }

    /// Componentwise sum, each component stopping at the ends of the range.
    pub open spec fn plus(self, other: Vec3) -> Vec3 {
        Vec3 {
            x: saturate(self.x + other.x),
            y: saturate(self.y + other.y),
            z: saturate(self.z + other.z),
        }
    }

    pub fn new(x: i64, y: i64, z: i64) -> (v: Vec3)
        ensures
            v == (Vec3 { x, y, z }),
    {
        Vec3 { x, y, z }
    }

    /// The vector with all components zero.
    pub fn zero() -> (v: Vec3)
        ensures
            v == (Vec3 { x: 0, y: 0, z: 0 }),
    {
        Vec3 { x: 0, y: 0, z: 0 }
    }

    /// Componentwise saturating sum.
    pub fn saturating_add(&self, other: &Vec3) -> (v: Vec3)
        ensures
            v == self.plus(*other),
    {
        Vec3 {
            x: saturating_sum(self.x, other.x),
            y: saturating_sum(self.y, other.y),
            z: saturating_sum(self.z, other.z),
        }
    }

    /// Tests `length < threshold` exactly, without taking a square root.
    pub fn length_below(&self, threshold: i64) -> (below: bool)
        ensures
            below == self.shorter_than(threshold as int),
    {
        if threshold <= 0 {
            return false;
        }
        let t: u128 = threshold as u128;
        let ax: u128 = magnitude_of(self.x) as u128;
        let ay: u128 = magnitude_of(self.y) as u128;
        let az: u128 = magnitude_of(self.z) as u128;
        proof {
            lemma_square_of_magnitude(self.x as int);
            lemma_square_of_magnitude(self.y as int);
            lemma_square_of_magnitude(self.z as int);
            lemma_square_order(ax as int, t as int);
            lemma_square_order(ay as int, t as int);
            lemma_square_order(az as int, t as int);
            lemma_square_bound(t as int);
        }
        if ax >= t || ay >= t || az >= t {
            return false;
        }
        let sum: u128 = ax * ax + ay * ay + az * az;
        sum < t * t
    }
}

/// A vector of three unbounded integers: the exact value that a contract
/// speaks of, whatever the width of the machine integers that carry it.
pub struct SpecVec3 {
    pub x: int,
    pub y: int,
    pub z: int,
}

/// A rotation as a quaternion `x i + y j + z k + w`, each component in
/// millionths. A rotation has norm one, so its components stay within one
/// unit; 32 bits hold them with room to spare.
#[derive(Clone, Copy, Debug, PartialEq, Eq, Structural)]
pub struct Quat {
    pub x: i32,
    pub y: i32,
    pub z: i32,
    pub w: i32,
}

/// A direction in world space, exact: one unit is `SCALE * SCALE`, the scale
/// of a product of two quaternion components.
#[derive(Clone, Copy, Debug, PartialEq, Eq, Structural)]
pub struct WorldVec3 {
    pub x: i128,
    pub y: i128,
    pub z: i128,
}

impl View for WorldVec3 {
    type V = SpecVec3;

    open spec fn view(&self) -> SpecVec3 {
        SpecVec3 { x: self.x as int, y: self.y as int, z: self.z as int }
    }
}

impl Quat {
    /// The vector `v` turned by this quaternion `q = (b, w)`:
    /// `v (w^2 - b.b) + 2 b (b.v) + 2 w (b x v)`.
    ///
    /// With `v` in whole numbers the result is in units of `SCALE * SCALE`.
    /// For a quaternion of norm one this is the rotation of `v`; for any
    /// other it is that rotation scaled by the squared norm.
    pub open spec fn rotate(self, v: SpecVec3) -> SpecVec3 {
        let k = self.w * self.w - (self.x * self.x + self.y * self.y + self.z * self.z);
        let d = 2 * (self.x * v.x + self.y * v.y + self.z * v.z);
        let cx = self.y * v.z - self.z * v.y;
        let cy = self.z * v.x - self.x * v.z;
        let cz = self.x * v.y - self.y * v.x;
        SpecVec3 {
            x: v.x * k + self.x * d + self.w * (2 * cx),
            y: v.y * k + self.y * d + self.w * (2 * cy),
            z: v.z * k + self.z * d + self.w * (2 * cz),
        }
    }

    /// The rotation that turns nothing.
    pub open spec fn no_turn() -> Quat {
        Quat { x: 0, y: 0, z: 0, w: 1_000_000 }
    }

    pub fn new(x: i32, y: i32, z: i32, w: i32) -> (q: Quat)
        ensures
            q == (Quat { x, y, z, w }),
    {
        Quat { x, y, z, w }
    }

    /// The rotation that turns nothing.
    pub fn identity() -> (q: Quat)
        ensures
            q == Quat::no_turn(),
    {
        Quat { x: 0, y: 0, z: 0, w: 1_000_000 }
    }

    /// Turns a vector whose components are -1, 0 or 1.
    pub(crate) fn rotate_axis(&self, vx: i32, vy: i32, vz: i32) -> (r: WorldVec3)
        requires
            -1 <= vx <= 1,
            -1 <= vy <= 1,
            -1 <= vz <= 1,
        ensures
            r@ == self.rotate(SpecVec3 { x: vx as int, y: vy as int, z: vz as int }),
    {
        let k: i128 = product(self.w, self.w) - (product(self.x, self.x) + product(
            self.y,
            self.y,
        ) + product(self.z, self.z));
        let d: i128 = 2 * (product(self.x, vx) + product(self.y, vy) + product(self.z, vz));
        let cx: i128 = product(self.y, vz) - product(self.z, vy);
        let cy: i128 = product(self.z, vx) - product(self.x, vz);
        let cz: i128 = product(self.x, vy) - product(self.y, vx);
        WorldVec3 {
            x: scaled(vx, k) + scaled(self.x, d) + scaled(self.w, 2 * cx),
            y: scaled(vy, k) + scaled(self.y, d) + scaled(self.w, 2 * cy),
            z: scaled(vz, k) + scaled(self.z, d) + scaled(self.w, 2 * cz),
        }
    }
}

/// The exact product of two 32-bit components.
fn product(a: i32, b: i32) -> (r: i128)
    ensures
        r == a * b,
        -0x4000_0000_0000_0000 <= r <= 0x4000_0000_0000_0000,
{
    assert(-0x4000_0000_0000_0000 <= a * b <= 0x4000_0000_0000_0000) by (nonlinear_arith)
        requires
            -0x8000_0000 <= a <= 0x8000_0000,
            -0x8000_0000 <= b <= 0x8000_0000,
    ;
    (a as i128) * (b as i128)
}

/// The exact product of a 32-bit component and a sum of products.
fn scaled(a: i32, b: i128) -> (r: i128)
    requires
        -0x8_0000_0000_0000_0000 <= b <= 0x8_0000_0000_0000_0000,
    ensures
        r == a * b,
        -0x4_0000_0000_0000_0000_0000_0000 <= r <= 0x4_0000_0000_0000_0000_0000_0000,
{
    assert(-0x4_0000_0000_0000_0000_0000_0000 <= a * b <= 0x4_0000_0000_0000_0000_0000_0000)
        by (nonlinear_arith)
        requires
            -0x8000_0000 <= a <= 0x8000_0000,
            -0x8_0000_0000_0000_0000 <= b <= 0x8_0000_0000_0000_0000,
    ;
    (a as i128) * b
}

/// A square does not see the sign of its root.
proof fn lemma_square_of_magnitude(v: int)
    ensures
        magnitude(v) * magnitude(v) == v * v,
        0 <= v * v,
{
    assert(magnitude(v) * magnitude(v) == v * v && 0 <= v * v) by (nonlinear_arith)
        requires
            magnitude(v) == v || magnitude(v) == -v,
    ;
}

/// Squaring keeps the order of non-negative numbers.
proof fn lemma_square_order(a: int, t: int)
    requires
        0 <= a,
        0 < t,
    ensures
        a < t ==> a * a < t * t,
        a >= t ==> a * a >= t * t,
{
    assert((a < t ==> a * a < t * t) && (a >= t ==> a * a >= t * t)) by (nonlinear_arith)
        requires
            0 <= a,
            0 < t,
    ;
}

/// The square of a positive `i64` stays under 2^126.
proof fn lemma_square_bound(t: int)
    requires
        0 < t <= i64::MAX,
    ensures
        t * t < 0x4000_0000_0000_0000_0000_0000_0000_0000,
{
    assert(t * t < 0x4000_0000_0000_0000_0000_0000_0000_0000) by (nonlinear_arith)
        requires
            0 < t <= 0x7fff_ffff_ffff_ffff,
    ;
}

} // verus!
