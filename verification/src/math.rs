//! Vectors, points and rays over fixed-point scalars.
//!
//! Coordinate spaces (world, local, shading) are a naming convention here:
//! `wi`/`wo` directions handed to BSDFs are in the shading frame, everything
//! else is in world space. Every operation is pinned to a spec-level mirror
//! over raw integer values, so geometric code built on these has exact
//! contracts.

use vstd::prelude::*;
use crate::fixed::{Fx, fx_add, fx_sub, fx_mul, fx_div, fx_sqrt};

verus! {

/// Offset applied when spawning rays off a surface, in raw units (1e-4).
pub const RAY_EPSILON_RAW: i64 = 100;

/// A 3-component vector of fixed-point scalars.
#[derive(Clone, Copy, Debug, PartialEq, Eq, Structural)]
pub struct Vec3 {
    pub x: Fx,
    pub y: Fx,
    pub z: Fx,
}

/// A 3-component point of fixed-point scalars.
#[derive(Clone, Copy, Debug, PartialEq, Eq, Structural)]
pub struct Point3 {
    pub x: Fx,
    pub y: Fx,
    pub z: Fx,
}

/// Exact dot product of two vectors, on raw values.
pub open spec fn dot_spec(a: Vec3, b: Vec3) -> int {
    fx_add(fx_add(fx_mul(a.x@, b.x@), fx_mul(a.y@, b.y@)), fx_mul(a.z@, b.z@))
}

/// First component of the exact cross product.
pub open spec fn cross_x_spec(a: Vec3, b: Vec3) -> int {
    fx_sub(fx_mul(a.y@, b.z@), fx_mul(a.z@, b.y@))
}

/// Second component of the exact cross product.
pub open spec fn cross_y_spec(a: Vec3, b: Vec3) -> int {
    fx_sub(fx_mul(a.z@, b.x@), fx_mul(a.x@, b.z@))
}

/// Third component of the exact cross product.
pub open spec fn cross_z_spec(a: Vec3, b: Vec3) -> int {
    fx_sub(fx_mul(a.x@, b.y@), fx_mul(a.y@, b.x@))
}

/// Exact squared length of a vector, on raw values.
pub open spec fn len_squared_spec(a: Vec3) -> int {
    dot_spec(a, a)
}

/// The exact difference of two points, as a vector.
pub open spec fn point_sub_spec(a: Point3, b: Point3) -> Vec3 {
    Vec3 {
        x: Fx { raw: fx_sub(a.x@, b.x@) as i64 },
        y: Fx { raw: fx_sub(a.y@, b.y@) as i64 },
        z: Fx { raw: fx_sub(a.z@, b.z@) as i64 },
    }
}

/// The exact sum of two vectors.
pub open spec fn vec_add_spec(a: Vec3, b: Vec3) -> Vec3 {
    Vec3 {
        x: Fx { raw: fx_add(a.x@, b.x@) as i64 },
        y: Fx { raw: fx_add(a.y@, b.y@) as i64 },
        z: Fx { raw: fx_add(a.z@, b.z@) as i64 },
    }
}

/// The exact difference of two vectors.
pub open spec fn vec_sub_spec(a: Vec3, b: Vec3) -> Vec3 {
    Vec3 {
        x: Fx { raw: fx_sub(a.x@, b.x@) as i64 },
        y: Fx { raw: fx_sub(a.y@, b.y@) as i64 },
        z: Fx { raw: fx_sub(a.z@, b.z@) as i64 },
    }
}

/// The exact scaling of a vector by a scalar.
pub open spec fn vec_scale_spec(a: Vec3, s: int) -> Vec3 {
    Vec3 {
        x: Fx { raw: fx_mul(a.x@, s) as i64 },
        y: Fx { raw: fx_mul(a.y@, s) as i64 },
        z: Fx { raw: fx_mul(a.z@, s) as i64 },
    }
}

/// The exact cross product of two vectors.
pub open spec fn cross_spec(a: Vec3, b: Vec3) -> Vec3 {
    Vec3 {
        x: Fx { raw: cross_x_spec(a, b) as i64 },
        y: Fx { raw: cross_y_spec(a, b) as i64 },
        z: Fx { raw: cross_z_spec(a, b) as i64 },
    }
}

/// The exact normalization of a vector.
pub open spec fn normalize_spec(a: Vec3) -> Vec3 {
    Vec3 {
        x: Fx { raw: fx_div(a.x@, len_spec(a)) as i64 },
        y: Fx { raw: fx_div(a.y@, len_spec(a)) as i64 },
        z: Fx { raw: fx_div(a.z@, len_spec(a)) as i64 },
    }
}

/// The exact point at parameter `t` along a ray.
pub open spec fn ray_at_spec(r: Ray, t: int) -> Point3 {
    Point3 {
        x: Fx { raw: point_at_x_spec(r, t) as i64 },
        y: Fx { raw: point_at_y_spec(r, t) as i64 },
        z: Fx { raw: point_at_z_spec(r, t) as i64 },
    }
}

/// Exact length of a vector, on raw values.
pub open spec fn len_spec(a: Vec3) -> int {
    fx_sqrt(len_squared_spec(a))
}

impl Vec3 {
    /// Builds a vector from its components.
    pub fn new(x: Fx, y: Fx, z: Fx) -> (r: Vec3)
        ensures
            r.x == x && r.y == y && r.z == z,
    {
        Vec3 { x, y, z }
    }

    /// A vector with all components equal.
    pub fn splat(v: Fx) -> (r: Vec3)
        ensures
            r.x == v && r.y == v && r.z == v,
    {
        Vec3 { x: v, y: v, z: v }
    }

    /// The zero vector.
    pub fn zero() -> (r: Vec3)
        ensures
            r.x@ == 0 && r.y@ == 0 && r.z@ == 0,
    {
        Vec3 { x: Fx::zero(), y: Fx::zero(), z: Fx::zero() }
    }

    /// Componentwise sum.
    pub fn add(self, o: Vec3) -> (r: Vec3)
        ensures
            r.x@ == fx_add(self.x@, o.x@),
            r.y@ == fx_add(self.y@, o.y@),
            r.z@ == fx_add(self.z@, o.z@),
    {
        Vec3 { x: self.x.add(o.x), y: self.y.add(o.y), z: self.z.add(o.z) }
    }

    /// Componentwise difference.
    pub fn sub(self, o: Vec3) -> (r: Vec3)
        ensures
            r.x@ == fx_sub(self.x@, o.x@),
            r.y@ == fx_sub(self.y@, o.y@),
            r.z@ == fx_sub(self.z@, o.z@),
    {
        Vec3 { x: self.x.sub(o.x), y: self.y.sub(o.y), z: self.z.sub(o.z) }
    }

    /// Componentwise negation.
    pub fn neg(self) -> (r: Vec3)
        ensures
            r.x@ == crate::fixed::clip(-self.x@),
            r.y@ == crate::fixed::clip(-self.y@),
            r.z@ == crate::fixed::clip(-self.z@),
    {
        Vec3 { x: self.x.neg(), y: self.y.neg(), z: self.z.neg() }
    }

    /// Scales every component by `s`.
    pub fn scale(self, s: Fx) -> (r: Vec3)
        ensures
            r.x@ == fx_mul(self.x@, s@),
            r.y@ == fx_mul(self.y@, s@),
            r.z@ == fx_mul(self.z@, s@),
    {
        Vec3 { x: self.x.mul(s), y: self.y.mul(s), z: self.z.mul(s) }
    }

    /// Divides every component by a scalar (zero divisor yields zero).
    pub fn div_scalar(self, s: Fx) -> (r: Vec3)
        ensures
            r.x@ == fx_div(self.x@, s@),
            r.y@ == fx_div(self.y@, s@),
            r.z@ == fx_div(self.z@, s@),
    {
        Vec3 { x: self.x.div(s), y: self.y.div(s), z: self.z.div(s) }
    }

    /// Dot product.
    pub fn dot(self, o: Vec3) -> (r: Fx)
        ensures
            r@ == dot_spec(self, o),
    {
        self.x.mul(o.x).add(self.y.mul(o.y)).add(self.z.mul(o.z))
    }

    /// Cross product.
    pub fn cross(self, o: Vec3) -> (r: Vec3)
        ensures
            r.x@ == cross_x_spec(self, o),
            r.y@ == cross_y_spec(self, o),
            r.z@ == cross_z_spec(self, o),
    {
        Vec3 {
            x: self.y.mul(o.z).sub(self.z.mul(o.y)),
            y: self.z.mul(o.x).sub(self.x.mul(o.z)),
            z: self.x.mul(o.y).sub(self.y.mul(o.x)),
        }
    }

    /// Squared length.
    pub fn len_squared(self) -> (r: Fx)
        ensures
            r@ == len_squared_spec(self),
    {
        self.dot(self)
    }

    /// Length.
    pub fn len(self) -> (r: Fx)
        ensures
            r@ == len_spec(self),
    {
        self.dot(self).sqrt()
    }

    /// Divides every component by the length; the zero vector stays zero
    /// (fixed-point division by zero yields zero).
    pub fn normalize(self) -> (r: Vec3)
        ensures
            r.x@ == fx_div(self.x@, len_spec(self)),
            r.y@ == fx_div(self.y@, len_spec(self)),
            r.z@ == fx_div(self.z@, len_spec(self)),
    {
        let l = self.len();
        Vec3 { x: self.x.div(l), y: self.y.div(l), z: self.z.div(l) }
    }

    /// Cosine of the polar angle of a direction in the shading frame,
    /// where the z axis is the surface normal.
    pub fn cos_theta(self) -> (r: Fx)
        ensures
            r == self.z,
    {
        self.z
    }

    /// Reinterprets the vector as a point.
    pub fn to_point(self) -> (r: Point3)
        ensures
            r.x == self.x && r.y == self.y && r.z == self.z,
    {
        Point3 { x: self.x, y: self.y, z: self.z }
    }
}

impl Point3 {
    /// Builds a point from its components.
    pub fn new(x: Fx, y: Fx, z: Fx) -> (r: Point3)
        ensures
            r.x == x && r.y == y && r.z == z,
    {
        Point3 { x, y, z }
    }

    /// A point with all components equal.
    pub fn splat(v: Fx) -> (r: Point3)
        ensures
            r.x == v && r.y == v && r.z == v,
    {
        Point3 { x: v, y: v, z: v }
    }

    /// The x component.
    pub fn x(self) -> (r: Fx)
        ensures
            r == self.x,
    {
        self.x
    }

    /// The y component.
    pub fn y(self) -> (r: Fx)
        ensures
            r == self.y,
    {
        self.y
    }

    /// The z component.
    pub fn z(self) -> (r: Fx)
        ensures
            r == self.z,
    {
        self.z
    }

    /// Reinterprets the point as a vector from the origin.
    pub fn to_vec(self) -> (r: Vec3)
        ensures
            r.x == self.x && r.y == self.y && r.z == self.z,
    {
        Vec3 { x: self.x, y: self.y, z: self.z }
    }

    /// The vector from `o` to `self`.
    pub fn sub(self, o: Point3) -> (r: Vec3)
        ensures
            r.x@ == fx_sub(self.x@, o.x@),
            r.y@ == fx_sub(self.y@, o.y@),
            r.z@ == fx_sub(self.z@, o.z@),
    {
        Vec3 { x: self.x.sub(o.x), y: self.y.sub(o.y), z: self.z.sub(o.z) }
    }

    /// Translates the point by a vector.
    pub fn add_vec(self, o: Vec3) -> (r: Point3)
        ensures
            r.x@ == fx_add(self.x@, o.x@),
            r.y@ == fx_add(self.y@, o.y@),
            r.z@ == fx_add(self.z@, o.z@),
    {
        Point3 { x: self.x.add(o.x), y: self.y.add(o.y), z: self.z.add(o.z) }
    }

    /// Squared distance between two points.
    pub fn distance_squared(self, o: Point3) -> (r: Fx)
        ensures
            r@ == len_squared_spec(point_sub_spec(self, o)),
    {
        self.sub(o).len_squared()
    }

    /// Distance between two points.
    pub fn distance(self, o: Point3) -> (r: Fx)
        ensures
            r@ == fx_sqrt(len_squared_spec(point_sub_spec(self, o))),
    {
        self.sub(o).len()
    }
}

/// A ray with origin `o` and direction `d`.
#[derive(Clone, Copy, Debug, PartialEq, Eq, Structural)]
pub struct Ray {
    pub o: Point3,
    pub d: Vec3,
}

/// Exact coordinates of the point at parameter `t` along a ray, per axis.
pub open spec fn point_at_x_spec(r: Ray, t: int) -> int {
    fx_add(r.o.x@, fx_mul(r.d.x@, t))
}

/// Exact y coordinate of the point at parameter `t` along a ray.
pub open spec fn point_at_y_spec(r: Ray, t: int) -> int {
    fx_add(r.o.y@, fx_mul(r.d.y@, t))
}

/// Exact z coordinate of the point at parameter `t` along a ray.
pub open spec fn point_at_z_spec(r: Ray, t: int) -> int {
    fx_add(r.o.z@, fx_mul(r.d.z@, t))
}

impl Ray {
    /// Builds a ray from origin and direction.
    pub fn new(o: Point3, d: Vec3) -> (r: Ray)
        ensures
            r.o == o && r.d == d,
    {
        Ray { o, d }
    }

    /// The origin.
    pub fn o(self) -> (r: Point3)
        ensures
            r == self.o,
    {
        self.o
    }

    /// The direction.
    pub fn d(self) -> (r: Vec3)
        ensures
            r == self.d,
    {
        self.d
    }

    /// The point at parameter `t` along the ray.
    pub fn point_at(self, t: Fx) -> (r: Point3)
        ensures
            r.x@ == point_at_x_spec(self, t@),
            r.y@ == point_at_y_spec(self, t@),
            r.z@ == point_at_z_spec(self, t@),
    {
        self.o.add_vec(self.d.scale(t))
    }

    /// Spawns a ray whose origin is offset from a surface point along the
    /// side of the normal that the direction leaves through, so that the
    /// ray does not immediately intersect its own surface.
    pub fn spawn(origin: Point3, dir: Vec3, normal: Vec3) -> (r: Ray)
        ensures
            r == spawn_spec(origin, dir, normal),
            r.d == dir,
            r.o == offset_origin_spec(origin, dir, normal),
    {
        Ray { o: offset_origin(origin, dir, normal), d: dir }
    }

    /// Spawns a ray from `from` toward `to`, with the same surface offset
    /// as [`Ray::spawn`] and a normalized direction.
    pub fn spawn_to(from: Point3, to: Point3, normal: Vec3) -> (r: Ray)
        ensures
            r == spawn_to_spec(from, to, normal),
    {
        let dir = to.sub(from).normalize();
        let r = Ray { o: offset_origin(from, dir, normal), d: dir };
        proof {
            let m = spawn_to_spec(from, to, normal);
            assert(dir.x.raw == m.d.x.raw && dir.y.raw == m.d.y.raw && dir.z.raw == m.d.z.raw);
            assert(dir == m.d);
        }
        r
    }
}

/// The exact ray that [`Ray::spawn`] builds.
pub open spec fn spawn_spec(origin: Point3, dir: Vec3, normal: Vec3) -> Ray {
    Ray { o: offset_origin_spec(origin, dir, normal), d: dir }
}

/// The exact ray that [`Ray::spawn_to`] builds: the normalized direction
/// from `from` to `to`, from the offset origin.
pub open spec fn spawn_to_spec(from: Point3, to: Point3, normal: Vec3) -> Ray {
    let dir = normalize_spec(point_sub_spec(to, from));
    Ray { o: offset_origin_spec(from, dir, normal), d: dir }
}

/// The offset origin used by [`Ray::spawn`]: the surface point pushed by
/// `RAY_EPSILON_RAW` along the normal, sign-matched with the direction.
pub open spec fn offset_origin_spec(origin: Point3, dir: Vec3, normal: Vec3) -> Point3 {
    let s = if dot_spec(dir, normal) >= 0 {
        RAY_EPSILON_RAW as int
    } else {
        -(RAY_EPSILON_RAW as int)
    };
    Point3 {
        x: Fx { raw: fx_add(origin.x@, fx_mul(normal.x@, s)) as i64 },
        y: Fx { raw: fx_add(origin.y@, fx_mul(normal.y@, s)) as i64 },
        z: Fx { raw: fx_add(origin.z@, fx_mul(normal.z@, s)) as i64 },
    }
}

/// Pushes a surface point off the surface on the side the direction leaves
/// through.
pub fn offset_origin(origin: Point3, dir: Vec3, normal: Vec3) -> (r: Point3)
    ensures
        r == offset_origin_spec(origin, dir, normal),
{
    let s = if dir.dot(normal).le(Fx::new(-1)) {
        Fx::new(-RAY_EPSILON_RAW)
    } else {
        Fx::new(RAY_EPSILON_RAW)
    };
    let r = origin.add_vec(normal.scale(s));
    proof {
        let m = offset_origin_spec(origin, dir, normal);
        assert(r.x@ == m.x@ && r.y@ == m.y@ && r.z@ == m.z@);
        assert(r.x.raw == m.x.raw && r.y.raw == m.y.raw && r.z.raw == m.z.raw);
    }
    r
}

} // verus!
