//! Plain-value spatial data.
//!
//! Every scalar in this module is a fixed-point number: an `i64` counting
//! millionths of a unit, so `1_000_000` stands for one metre, one radian or
//! one kilogram depending on context. The synchronization layer only stores,
//! copies and compares these quantities; it never integrates them, so the
//! fixed-point form loses nothing and keeps every contract exact.

use vstd::prelude::*;

verus! {

/// One whole unit in the fixed-point scale used for scalar quantities.
pub const UNIT: i64 = 1_000_000;

/// A three-component vector of fixed-point scalars.
#[derive(Clone, Copy, Debug, PartialEq, Eq, Structural)]
pub struct Vector3 {
    pub x: i64,
    pub y: i64,
    pub z: i64,
}

impl Vector3 {
    /// The zero vector.
    pub fn zeros() -> (r: Vector3)
        ensures
            r == (Vector3 { x: 0, y: 0, z: 0 }),
    {
        Vector3 { x: 0, y: 0, z: 0 }
    }

    /// A vector with the given components.
    pub fn new(x: i64, y: i64, z: i64) -> (r: Vector3)
        ensures
            r == (Vector3 { x, y, z }),
    {
        Vector3 { x, y, z }
    }
}

/// A point in space, with the same representation as a vector.
#[derive(Clone, Copy, Debug, PartialEq, Eq, Structural)]
pub struct Point3 {
    pub x: i64,
    pub y: i64,
    pub z: i64,
}

impl Point3 {
    /// The origin.
    pub fn origin() -> (r: Point3)
        ensures
            r == (Point3 { x: 0, y: 0, z: 0 }),
    {
        Point3 { x: 0, y: 0, z: 0 }
    }

    /// A point with the given coordinates.
    pub fn new(x: i64, y: i64, z: i64) -> (r: Point3)
        ensures
            r == (Point3 { x, y, z }),
    {
        Point3 { x, y, z }
    }
}

/// A row-major three-by-three matrix of fixed-point scalars, used for
/// angular inertia tensors.
#[derive(Clone, Copy, Debug, PartialEq, Eq, Structural)]
pub struct Matrix3 {
    pub m11: i64,
    pub m12: i64,
    pub m13: i64,
    pub m21: i64,
    pub m22: i64,
    pub m23: i64,
    pub m31: i64,
    pub m32: i64,
    pub m33: i64,
}

impl Matrix3 {
    /// The zero matrix.
    pub fn zeros() -> (r: Matrix3)
        ensures
            r == Matrix3::zero_spec(),
    {
        Matrix3 {
            m11: 0, m12: 0, m13: 0,
            m21: 0, m22: 0, m23: 0,
            m31: 0, m32: 0, m33: 0,
        }
    }

    /// The zero matrix, as a specification value.
    pub open spec fn zero_spec() -> Matrix3 {
        Matrix3 {
            m11: 0, m12: 0, m13: 0,
            m21: 0, m22: 0, m23: 0,
            m31: 0, m32: 0, m33: 0,
        }
    }

    /// A diagonal matrix with `d` on the diagonal.
    pub fn from_diagonal_element(d: i64) -> (r: Matrix3)
        ensures
            r.m11 == d && r.m22 == d && r.m33 == d,
            r.m12 == 0 && r.m13 == 0 && r.m21 == 0,
            r.m23 == 0 && r.m31 == 0 && r.m32 == 0,
    {
        Matrix3 {
            m11: d, m12: 0, m13: 0,
            m21: 0, m22: d, m23: 0,
            m31: 0, m32: 0, m33: d,
        }
    }
}

/// A rotation, stored as the four components of a unit quaternion in
/// fixed-point form. Executable code only carries rotations through
/// unchanged; the composition an engine performs on them is stated at the
/// specification level by [`spec_rotation_mul`] and [`spec_compose`].
#[derive(Clone, Copy, Debug, PartialEq, Eq, Structural)]
pub struct Rotation {
    pub i: i64,
    pub j: i64,
    pub k: i64,
    pub w: i64,
}

impl Rotation {
    /// The identity rotation.
    pub fn identity() -> (r: Rotation)
        ensures
            r == Rotation::identity_spec(),
    {
        Rotation { i: 0, j: 0, k: 0, w: UNIT }
    }

    /// The identity rotation, as a specification value.
    pub open spec fn identity_spec() -> Rotation {
        Rotation { i: 0, j: 0, k: 0, w: 1_000_000 }
    }
}

/// The product of two fixed-point factors, rescaled to millionths. The
/// spec-level division is exact integer (Euclidean) division: this is the
/// fixed-point form of the real product, with the final fraction of a
/// millionth discarded.
pub open spec fn spec_fixed_mul(a: int, b: int) -> int {
    (a * b) / 1_000_000
}

/// The Hamilton product of two fixed-point unit quaternions: the rotation
/// that applies `b` first and `a` after.
pub open spec fn spec_rotation_mul(a: Rotation, b: Rotation) -> Rotation {
    Rotation {
        i: (spec_fixed_mul(a.w as int, b.i as int) + spec_fixed_mul(a.i as int, b.w as int)
            + spec_fixed_mul(a.j as int, b.k as int) - spec_fixed_mul(
            a.k as int,
            b.j as int,
        )) as i64,
        j: (spec_fixed_mul(a.w as int, b.j as int) - spec_fixed_mul(a.i as int, b.k as int)
            + spec_fixed_mul(a.j as int, b.w as int) + spec_fixed_mul(
            a.k as int,
            b.i as int,
        )) as i64,
        k: (spec_fixed_mul(a.w as int, b.k as int) + spec_fixed_mul(a.i as int, b.j as int)
            - spec_fixed_mul(a.j as int, b.i as int) + spec_fixed_mul(
            a.k as int,
            b.w as int,
        )) as i64,
        w: (spec_fixed_mul(a.w as int, b.w as int) - spec_fixed_mul(a.i as int, b.i as int)
            - spec_fixed_mul(a.j as int, b.j as int) - spec_fixed_mul(
            a.k as int,
            b.k as int,
        )) as i64,
    }
}

/// A fixed-point unit quaternion applied to a vector, by the usual
/// sandwich in its two-cross-product form.
pub open spec fn spec_rotate(q: Rotation, v: Vector3) -> Vector3 {
    let tx = 2 * (q.j as int * v.z as int - q.k as int * v.y as int) / 1_000_000;
    let ty = 2 * (q.k as int * v.x as int - q.i as int * v.z as int) / 1_000_000;
    let tz = 2 * (q.i as int * v.y as int - q.j as int * v.x as int) / 1_000_000;
    Vector3 {
        x: (v.x as int + (q.w as int * tx) / 1_000_000 + (q.j as int * tz - q.k as int * ty)
            / 1_000_000) as i64,
        y: (v.y as int + (q.w as int * ty) / 1_000_000 + (q.k as int * tx - q.i as int * tz)
            / 1_000_000) as i64,
        z: (v.z as int + (q.w as int * tz) / 1_000_000 + (q.i as int * ty - q.j as int * tx)
            / 1_000_000) as i64,
    }
}

/// The composition of two placements: apply `b` in `a`'s frame. The
/// translation is `a`'s plus `b`'s rotated into `a`'s frame; the rotation
/// is the quaternion product. This is the fixed-point statement of the
/// isometry product an engine computes in its own floating arithmetic.
pub open spec fn spec_compose(a: Isometry, b: Isometry) -> Isometry {
    let rotated = spec_rotate(a.rotation, b.translation);
    Isometry {
        translation: Vector3 {
            x: (a.translation.x as int + rotated.x as int) as i64,
            y: (a.translation.y as int + rotated.y as int) as i64,
            z: (a.translation.z as int + rotated.z as int) as i64,
        },
        rotation: spec_rotation_mul(a.rotation, b.rotation),
    }
}

/// A rigid placement: a translation together with a rotation.
#[derive(Clone, Copy, Debug, PartialEq, Eq, Structural)]
pub struct Isometry {
    pub translation: Vector3,
    pub rotation: Rotation,
}

impl Isometry {
    /// The identity placement.
    pub fn identity() -> (r: Isometry)
        ensures
            r == Isometry::identity_spec(),
    {
        Isometry { translation: Vector3::zeros(), rotation: Rotation::identity() }
    }

    /// The identity placement, as a specification value.
    pub open spec fn identity_spec() -> Isometry {
        Isometry {
            translation: Vector3 { x: 0, y: 0, z: 0 },
            rotation: Rotation::identity_spec(),
        }
    }

    /// A pure translation.
    pub fn translation(x: i64, y: i64, z: i64) -> (r: Isometry)
        ensures
            r.translation == (Vector3 { x, y, z }),
            r.rotation == Rotation::identity_spec(),
    {
        Isometry { translation: Vector3::new(x, y, z), rotation: Rotation::identity() }
    }
}

} // verus!
