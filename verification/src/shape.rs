//! Shapes, primitives and intersection records.
//!
//! Both shapes carry a full functional contract for intersection: the
//! executable code is pinned to spec-level mirrors ([`sphere_hit_spec`],
//! [`triangle_hit_spec`]) over the exact fixed-point semantics, so the
//! boundary behavior (parallel rays, tangent rays) is a theorem, not a
//! hope.

use vstd::prelude::*;
use crate::fixed::{
    Fx,
    SCALE,
    fx_add,
    fx_sub,
    fx_mul,
    fx_div,
    fx_sqrt,
    clip,
    iabs,
    sin_turn_spec,
    cos_turn_spec,
};
use crate::math::{
    Vec3,
    Point3,
    Ray,
    dot_spec,
    cross_spec,
    normalize_spec,
    point_sub_spec,
    len_spec,
    len_squared_spec,
    ray_at_spec,
    vec_add_spec,
    vec_scale_spec,
    spawn_spec,
    spawn_to_spec,
};
use crate::sampling::Sampler;

verus! {

/// Geometric threshold below which a determinant or a distance counts as
/// zero, in raw units (1e-6).
pub const EPSILON_RAW: i64 = 1;

/// Lower clamp for light-sampling densities, in raw units (1e-3); it
/// prevents fireflies from nearly grazing connections.
pub const MIN_LIGHT_PDF_RAW: i64 = 1000;

/// Two pi in raw units.
pub const TWO_PI_RAW: i64 = 6_283_185;

/// A surface hit: the point, the shading frame and the facing flag.
#[derive(Clone, Copy, Debug, PartialEq, Eq, Structural)]
pub struct Intersection {
    pub point: Point3,
    pub normal: Vec3,
    pub tangent: Vec3,
    pub bitangent: Vec3,
    pub back_face: bool,
}

/// The tangent of the orthonormal-style frame built around a normal: the
/// normalized cross product of a fixed up axis (chosen away from the
/// normal) with the normal.
pub open spec fn frame_tangent_spec(n: Vec3) -> Vec3 {
    let up = if iabs(n.y@) < 900_000 {
        Vec3 { x: Fx { raw: 0 }, y: Fx { raw: SCALE }, z: Fx { raw: 0 } }
    } else {
        Vec3 { x: Fx { raw: SCALE }, y: Fx { raw: 0 }, z: Fx { raw: 0 } }
    };
    normalize_spec(cross_spec(up, n))
}

/// The bitangent completing the frame around a normal.
pub open spec fn frame_bitangent_spec(n: Vec3) -> Vec3 {
    cross_spec(n, frame_tangent_spec(n))
}

/// Builds the shading frame around a normal.
pub fn make_frame(n: Vec3) -> (r: (Vec3, Vec3))
    ensures
        r.0 == frame_tangent_spec(n),
        r.1 == frame_bitangent_spec(n),
{
    let up = if n.y.abs().lt(Fx::new(900_000)) {
        Vec3::new(Fx::zero(), Fx::one(), Fx::zero())
    } else {
        Vec3::new(Fx::one(), Fx::zero(), Fx::zero())
    };
    let t = up.cross(n).normalize();
    let b = n.cross(t);
    (t, b)
}

impl Intersection {
    /// Expresses a world-space direction in the shading frame.
    pub fn world_to_shading(&self, v: Vec3) -> (r: Vec3)
        ensures
            r.x@ == dot_spec(v, self.tangent),
            r.y@ == dot_spec(v, self.bitangent),
            r.z@ == dot_spec(v, self.normal),
    {
        Vec3::new(v.dot(self.tangent), v.dot(self.bitangent), v.dot(self.normal))
    }

    /// Expresses a shading-frame direction in world space.
    pub fn shading_to_world(&self, v: Vec3) -> (r: Vec3)
        ensures
            r.x@ == fx_add(
                fx_add(fx_mul(self.tangent.x@, v.x@), fx_mul(self.bitangent.x@, v.y@)),
                fx_mul(self.normal.x@, v.z@),
            ),
            r.y@ == fx_add(
                fx_add(fx_mul(self.tangent.y@, v.x@), fx_mul(self.bitangent.y@, v.y@)),
                fx_mul(self.normal.y@, v.z@),
            ),
            r.z@ == fx_add(
                fx_add(fx_mul(self.tangent.z@, v.x@), fx_mul(self.bitangent.z@, v.y@)),
                fx_mul(self.normal.z@, v.z@),
            ),
    {
        self.tangent.scale(v.x).add(self.bitangent.scale(v.y)).add(self.normal.scale(v.z))
    }
}

/// A sphere given by center and radius.
#[derive(Clone, Copy, Debug, PartialEq, Eq, Structural)]
pub struct Sphere {
    pub center: Point3,
    pub radius: Fx,
}

/// The discriminant of the ray-sphere quadratic, on raw values.
pub open spec fn sphere_disc_spec(s: Sphere, r: Ray) -> int {
    let oc = point_sub_spec(r.o, s.center);
    let a = dot_spec(r.d, r.d);
    let b = fx_mul(2_000_000, dot_spec(oc, r.d));
    let c = fx_sub(dot_spec(oc, oc), fx_mul(s.radius@, s.radius@));
    fx_sub(fx_mul(b, b), fx_mul(4_000_000, fx_mul(a, c)))
}

/// The nearer root of the ray-sphere quadratic.
pub open spec fn sphere_t0_spec(s: Sphere, r: Ray) -> int {
    let oc = point_sub_spec(r.o, s.center);
    let a = dot_spec(r.d, r.d);
    let b = fx_mul(2_000_000, dot_spec(oc, r.d));
    fx_div(fx_sub(clip(-b), fx_sqrt(sphere_disc_spec(s, r))), fx_mul(2_000_000, a))
}

/// The farther root of the ray-sphere quadratic.
pub open spec fn sphere_t1_spec(s: Sphere, r: Ray) -> int {
    let oc = point_sub_spec(r.o, s.center);
    let a = dot_spec(r.d, r.d);
    let b = fx_mul(2_000_000, dot_spec(oc, r.d));
    fx_div(fx_add(clip(-b), fx_sqrt(sphere_disc_spec(s, r))), fx_mul(2_000_000, a))
}

/// The ray parameter at which a ray first hits a sphere: the nearer
/// admissible root, requiring a strictly positive discriminant (tangent
/// rays count as misses) and a distance beyond the threshold.
#[verifier::opaque]
pub open spec fn sphere_hit_spec(s: Sphere, r: Ray) -> Option<int> {
    if sphere_disc_spec(s, r) <= 0 {
        None
    } else if sphere_t0_spec(s, r) > EPSILON_RAW {
        Some(sphere_t0_spec(s, r))
    } else if sphere_t1_spec(s, r) > EPSILON_RAW {
        Some(sphere_t1_spec(s, r))
    } else {
        None
    }
}

/// The direction drawn uniformly in the cone the sphere subtends from the
/// hit, for the unit samples `u1` (depth in the cone) and `u2` (azimuth).
#[verifier::opaque]
pub open spec fn cone_dir_spec(s: Sphere, hit: Intersection, u1: int, u2: int) -> Vec3 {
    let w = point_sub_spec(s.center, hit.point);
    let sin2 = fx_div(fx_mul(s.radius@, s.radius@), len_squared_spec(w));
    let cos_max = fx_sqrt(fx_sub(SCALE as int, sin2));
    let cos_t = fx_sub(SCALE as int, fx_mul(u1, fx_sub(SCALE as int, cos_max)));
    let sin_t = fx_sqrt(fx_sub(SCALE as int, fx_mul(cos_t, cos_t)));
    let wn = normalize_spec(w);
    vec_add_spec(
        vec_add_spec(
            vec_scale_spec(frame_tangent_spec(wn), fx_mul(sin_t, cos_turn_spec(u2))),
            vec_scale_spec(frame_bitangent_spec(wn), fx_mul(sin_t, sin_turn_spec(u2))),
        ),
        vec_scale_spec(wn, cos_t),
    )
}

/// What [`Sphere::sample`] returns for the unit samples `u1`, `u2`: the
/// sphere's hit point along the drawn cone ray with the cone density, or
/// the center with density zero when the hit point is inside the sphere,
/// the cone density is not positive, or the cone ray misses.
#[verifier::opaque]
pub open spec fn sphere_sample_outcome_spec(s: Sphere, hit: Intersection, u1: int, u2: int) -> (
    Point3,
    int,
) {
    let w = point_sub_spec(s.center, hit.point);
    if len_squared_spec(w) <= fx_mul(s.radius@, s.radius@) {
        (s.center, 0)
    } else {
        let pdf = s.cone_pdf_spec(hit.point);
        if pdf <= 0 {
            (s.center, 0)
        } else {
            let ray = spawn_spec(hit.point, cone_dir_spec(s, hit, u1, u2), hit.normal);
            match sphere_hit_spec(s, ray) {
                Some(t) => (ray_at_spec(ray, t), pdf),
                None => (s.center, 0),
            }
        }
    }
}

/// The density with which [`Sphere::pdf`] answers a direction: the cone
/// density when the spawned ray reaches the sphere and the cone is not
/// degenerate, zero otherwise.
#[verifier::opaque]
pub open spec fn sphere_pdf_spec(s: Sphere, hit: Intersection, wi: Vec3) -> int {
    if sphere_hit_spec(s, spawn_spec(hit.point, wi, hit.normal)) is Some {
        let pdf = s.cone_pdf_spec(hit.point);
        if pdf <= 0 {
            0
        } else {
            pdf
        }
    } else {
        0
    }
}

impl Sphere {
    /// Builds a sphere.
    pub fn new(center: Point3, radius: Fx) -> (r: Sphere)
        ensures
            r.center == center && r.radius == radius,
    {
        Sphere { center, radius }
    }

    /// Ray-sphere intersection; pinned to [`sphere_hit_spec`].
    pub fn intersect(&self, ray: &Ray) -> (r: Option<(Intersection, Fx)>)
        ensures
            (r is Some) == (sphere_hit_spec(*self, *ray) is Some),
            r matches Some(ht) ==> {
                &&& Some(ht.1@) == sphere_hit_spec(*self, *ray)
                &&& ht.0.point == ray_at_spec(*ray, ht.1@)
                &&& ht.0.normal == normalize_spec(point_sub_spec(ht.0.point, self.center))
                &&& ht.0.tangent == frame_tangent_spec(ht.0.normal)
                &&& ht.0.bitangent == frame_bitangent_spec(ht.0.normal)
                &&& ht.0.back_face == (dot_spec(ht.0.normal, ray.d) >= 0)
            },
    {
        proof {
            reveal(sphere_hit_spec);
        }
        let oc = ray.o.sub(self.center);
        let a = ray.d.dot(ray.d);
        let b = Fx::new(2_000_000).mul(oc.dot(ray.d));
        let c = oc.dot(oc).sub(self.radius.mul(self.radius));
        let disc = b.mul(b).sub(Fx::new(4_000_000).mul(a.mul(c)));
        if disc.le(Fx::zero()) {
            return None;
        }
        let sq = disc.sqrt();
        let two_a = Fx::new(2_000_000).mul(a);
        let t0 = b.neg().sub(sq).div(two_a);
        let t1 = b.neg().add(sq).div(two_a);
        let eps = Fx::new(EPSILON_RAW);
        let t = if eps.lt(t0) {
            t0
        } else if eps.lt(t1) {
            t1
        } else {
            return None;
        };
        let point = ray.point_at(t);
        let normal = point.sub(self.center).normalize();
        let (tangent, bitangent) = make_frame(normal);
        let back_face = Fx::zero().le(normal.dot(ray.d));
        Some((Intersection { point, normal, tangent, bitangent, back_face }, t))
    }

    /// The uniform cone density toward the sphere as seen from a point:
    /// `1 / (2 pi (1 - cos_max))`, zero when the point is inside the
    /// sphere or so far away that the cone collapses.
    pub open spec fn cone_pdf_spec(self, from: Point3) -> int {
        let d2 = len_squared_spec(point_sub_spec(self.center, from));
        let sin2 = fx_div(fx_mul(self.radius@, self.radius@), d2);
        let cos_max = fx_sqrt(fx_sub(SCALE as int, sin2));
        fx_div(SCALE as int, fx_mul(TWO_PI_RAW as int, fx_sub(SCALE as int, cos_max)))
    }

    /// Samples a point on the sphere by drawing a direction uniformly in
    /// the cone the sphere subtends from the hit, returning the surface
    /// point and the solid-angle density (zero when the sphere cannot be
    /// sampled from there).
    #[verifier::rlimit(100)]
    pub fn sample(&self, hit: &Intersection, sampler: &mut Sampler) -> (r: (Point3, Fx))
        requires
            old(sampler).wf(),
        ensures
            final(sampler).wf(),
            r.1@ >= 0,
            r.1@ == 0 || r.1@ == self.cone_pdf_spec(hit.point),
            exists|u1: int, u2: int|
                {
                    &&& 0 <= u1 < SCALE
                    &&& 0 <= u2 < SCALE
                    &&& r.0 == #[trigger] sphere_sample_outcome_spec(*self, *hit, u1, u2).0
                    &&& r.1@ == sphere_sample_outcome_spec(*self, *hit, u1, u2).1
                },
    {
        let w = self.center.sub(hit.point);
        let d2 = w.len_squared();
        let r2 = self.radius.mul(self.radius);
        if d2.le(r2) {
            proof {
                assert(sphere_sample_outcome_spec(*self, *hit, 0, 0) == (self.center, 0int)) by {
                    reveal(sphere_sample_outcome_spec);
                }
                assert(sphere_sample_outcome_spec(*self, *hit, 0, 0).0 == self.center);
                assert(sphere_sample_outcome_spec(*self, *hit, 0, 0).1 == 0);
            }
            return (self.center, Fx::zero());
        }
        let sin2 = r2.div(d2);
        let cos_max = Fx::one().sub(sin2).sqrt();
        let u1 = sampler.gen_0_1();
        let u2 = sampler.gen_0_1();
        let cos_t = Fx::one().sub(u1.mul(Fx::one().sub(cos_max)));
        let sin_t = Fx::one().sub(cos_t.mul(cos_t)).sqrt();
        let cos_phi = u2.cos_turn();
        let sin_phi = u2.sin_turn();
        let wn = w.normalize();
        let (t, b) = make_frame(wn);
        let dir = t.scale(sin_t.mul(cos_phi)).add(b.scale(sin_t.mul(sin_phi))).add(
            wn.scale(cos_t),
        );
        proof {
            assert(dir == cone_dir_spec(*self, *hit, u1@, u2@)) by {
                reveal(cone_dir_spec);
                let m = cone_dir_spec(*self, *hit, u1@, u2@);
                assert(dir.x.raw == m.x.raw && dir.y.raw == m.y.raw && dir.z.raw == m.z.raw);
            }
        }
        let ray = Ray::spawn(hit.point, dir, hit.normal);
        let pdf = Fx::one().div(Fx::new(TWO_PI_RAW).mul(Fx::one().sub(cos_max)));
        if pdf.le(Fx::zero()) {
            proof {
                assert(sphere_sample_outcome_spec(*self, *hit, u1@, u2@) == (self.center, 0int))
                    by {
                    reveal(sphere_sample_outcome_spec);
                }
                assert(sphere_sample_outcome_spec(*self, *hit, u1@, u2@).0 == self.center);
                assert(sphere_sample_outcome_spec(*self, *hit, u1@, u2@).1 == 0);
            }
            return (self.center, Fx::zero());
        }
        match self.intersect(&ray) {
            Some((light_hit, _)) => {
                proof {
                    assert(sphere_sample_outcome_spec(*self, *hit, u1@, u2@) == (
                        light_hit.point,
                        pdf@,
                    )) by {
                        reveal(sphere_sample_outcome_spec);
                    }
                    assert(sphere_sample_outcome_spec(*self, *hit, u1@, u2@).0
                        == light_hit.point);
                    assert(sphere_sample_outcome_spec(*self, *hit, u1@, u2@).1 == pdf@);
                }
                (light_hit.point, pdf)
            },
            None => {
                proof {
                    assert(sphere_sample_outcome_spec(*self, *hit, u1@, u2@) == (
                        self.center,
                        0int,
                    )) by {
                        reveal(sphere_sample_outcome_spec);
                    }
                    assert(sphere_sample_outcome_spec(*self, *hit, u1@, u2@).0 == self.center);
                    assert(sphere_sample_outcome_spec(*self, *hit, u1@, u2@).1 == 0);
                }
                (self.center, Fx::zero())
            },
        }
    }

    /// The density with which [`Sphere::sample`] draws the direction `wi`
    /// from the hit: the cone density if the ray along `wi` reaches the
    /// sphere, zero otherwise.
    pub fn pdf(&self, hit: &Intersection, wi: Vec3) -> (r: Fx)
        ensures
            r@ >= 0,
            r@ == sphere_pdf_spec(*self, *hit, wi),
            r@ == 0 || r@ == self.cone_pdf_spec(hit.point),
    {
        proof {
            reveal(sphere_pdf_spec);
        }
        let ray = Ray::spawn(hit.point, wi, hit.normal);
        match self.intersect(&ray) {
            Some(_) => {
                let w = self.center.sub(hit.point);
                let d2 = w.len_squared();
                let r2 = self.radius.mul(self.radius);
                let sin2 = r2.div(d2);
                let cos_max = Fx::one().sub(sin2).sqrt();
                let pdf = Fx::one().div(Fx::new(TWO_PI_RAW).mul(Fx::one().sub(cos_max)));
                if pdf.le(Fx::zero()) {
                    Fx::zero()
                } else {
                    pdf
                }
            },
            None => Fx::zero(),
        }
    }
}

/// A tangent ray, one whose discriminant is not positive, misses the
/// sphere.
pub proof fn lemma_tangent_ray_misses(s: Sphere, r: Ray)
    requires
        sphere_disc_spec(s, r) <= 0,
    ensures
        sphere_hit_spec(s, r) is None,
{
    reveal(sphere_hit_spec);
}

/// A triangle given by its vertices, with the centroid and the surface
/// normal precomputed.
#[derive(Clone, Copy, Debug, PartialEq, Eq, Structural)]
pub struct Triangle {
    pub v1: Point3,
    pub v2: Point3,
    pub v3: Point3,
    pub center: Point3,
    pub normal: Vec3,
}

/// The exact surface area of a triangle: half the cross-product length of
/// two edges.
pub open spec fn triangle_area_spec(t: Triangle) -> int {
    fx_mul(500_000, len_spec(cross_spec(point_sub_spec(t.v2, t.v1), point_sub_spec(t.v3, t.v1))))
}

/// The solid-angle density of seeing the triangle point `lp` from `from`:
/// the squared distance over the projected area, clamped below; zero when
/// the projected area vanishes.
pub open spec fn triangle_solid_angle_spec(t: Triangle, from: Point3, lp: Point3) -> int {
    let d2 = len_squared_spec(point_sub_spec(lp, from));
    let denom = fx_mul(
        clip(iabs(dot_spec(t.normal, normalize_spec(point_sub_spec(lp, from))))),
        triangle_area_spec(t),
    );
    if denom == 0 {
        0
    } else {
        let p = fx_div(d2, denom);
        if p >= MIN_LIGHT_PDF_RAW {
            p
        } else {
            MIN_LIGHT_PDF_RAW as int
        }
    }
}

/// The density of a light connection along a ray toward the triangle:
/// zero when the ray misses, else the clamped solid-angle density of the
/// actual hit point.
pub open spec fn triangle_connection_pdf_spec(t: Triangle, ray: Ray) -> int {
    match triangle_hit_spec(t, ray) {
        None => 0,
        Some(dist) => triangle_solid_angle_spec(t, ray.o, ray_at_spec(ray, dist)),
    }
}

/// The point the square-root warp of two unit samples draws on a
/// triangle: the barycentric combination with weights `1 - sqrt(u1)`,
/// `sqrt(u1) (1 - u2)` and `sqrt(u1) u2`.
pub open spec fn bary_point_spec(t: Triangle, u1: int, u2: int) -> Point3 {
    let su = fx_sqrt(u1);
    let b1 = fx_sub(SCALE as int, su);
    let b2 = fx_mul(su, fx_sub(SCALE as int, u2));
    let b3 = fx_mul(su, u2);
    Point3 {
        x: Fx {
            raw: fx_add(
                fx_add(fx_mul(t.v1.x@, b1), fx_mul(t.v2.x@, b2)),
                fx_mul(t.v3.x@, b3),
            ) as i64,
        },
        y: Fx {
            raw: fx_add(
                fx_add(fx_mul(t.v1.y@, b1), fx_mul(t.v2.y@, b2)),
                fx_mul(t.v3.y@, b3),
            ) as i64,
        },
        z: Fx {
            raw: fx_add(
                fx_add(fx_mul(t.v1.z@, b1), fx_mul(t.v2.z@, b2)),
                fx_mul(t.v3.z@, b3),
            ) as i64,
        },
    }
}

/// The determinant of the ray-triangle system: the triple product of one
/// edge with the ray direction crossed with the other edge.
pub open spec fn triangle_det_spec(t: Triangle, r: Ray) -> int {
    let a = point_sub_spec(t.v3, t.v1);
    let b = point_sub_spec(t.v2, t.v1);
    dot_spec(b, cross_spec(r.d, a))
}

/// The first barycentric coordinate of the ray-plane hit.
pub open spec fn triangle_u_spec(t: Triangle, r: Ray) -> int {
    let a = point_sub_spec(t.v3, t.v1);
    let tv = point_sub_spec(r.o, t.v1);
    fx_div(dot_spec(tv, cross_spec(r.d, a)), triangle_det_spec(t, r))
}

/// The second barycentric coordinate of the ray-plane hit.
pub open spec fn triangle_v_spec(t: Triangle, r: Ray) -> int {
    let b = point_sub_spec(t.v2, t.v1);
    let tv = point_sub_spec(r.o, t.v1);
    fx_div(dot_spec(r.d, cross_spec(tv, b)), triangle_det_spec(t, r))
}

/// The ray parameter of the ray-plane hit.
pub open spec fn triangle_dist_spec(t: Triangle, r: Ray) -> int {
    let a = point_sub_spec(t.v3, t.v1);
    let b = point_sub_spec(t.v2, t.v1);
    let tv = point_sub_spec(r.o, t.v1);
    fx_div(dot_spec(a, cross_spec(tv, b)), triangle_det_spec(t, r))
}

/// The ray parameter at which a ray hits a triangle: the plane hit when
/// the ray is not parallel (determinant at least the threshold), the
/// barycentric coordinates lie inside the triangle and the distance is
/// beyond the threshold.
#[verifier::opaque]
pub open spec fn triangle_hit_spec(t: Triangle, r: Ray) -> Option<int> {
    if iabs(triangle_det_spec(t, r)) < EPSILON_RAW {
        None
    } else {
        let u = triangle_u_spec(t, r);
        let v = triangle_v_spec(t, r);
        if u < 0 || u > SCALE || v < 0 || u + v > SCALE {
            None
        } else if triangle_dist_spec(t, r) < EPSILON_RAW {
            None
        } else {
            Some(triangle_dist_spec(t, r))
        }
    }
}

impl Triangle {
    /// Builds a triangle; the centroid is the vertex mean and the normal
    /// the normalized cross product of two edges.
    pub fn new(v1: Point3, v2: Point3, v3: Point3) -> (r: Triangle)
        ensures
            r.v1 == v1 && r.v2 == v2 && r.v3 == v3,
            ({
                let sum = vec_add3_spec(v1, v2, v3);
                r.center.x@ == fx_div(sum.x@, 3_000_000) && r.center.y@ == fx_div(
                    sum.y@,
                    3_000_000,
                ) && r.center.z@ == fx_div(sum.z@, 3_000_000)
            }),
            r.normal == normalize_spec(
                cross_spec(point_sub_spec(v2, v1), point_sub_spec(v3, v1)),
            ),
    {
        let sum = v1.to_vec().add(v2.to_vec()).add(v3.to_vec());
        let center = sum.div_scalar(Fx::new(3_000_000)).to_point();
        let normal = v2.sub(v1).cross(v3.sub(v1)).normalize();
        Triangle { v1, v2, v3, center, normal }
    }

    /// Half the parallelogram length: the triangle's surface area.
    pub fn surface_area(&self) -> (r: Fx)
        ensures
            r@ == triangle_area_spec(*self),
    {
        Fx::new(500_000).mul(self.v2.sub(self.v1).cross(self.v3.sub(self.v1)).len())
    }

    /// Ray-triangle intersection; pinned to [`triangle_hit_spec`].
    pub fn intersect(&self, ray: &Ray) -> (r: Option<(Intersection, Fx)>)
        ensures
            (r is Some) == (triangle_hit_spec(*self, *ray) is Some),
            r matches Some(ht) ==> {
                &&& Some(ht.1@) == triangle_hit_spec(*self, *ray)
                &&& ht.0.point == ray_at_spec(*ray, ht.1@)
                &&& ht.0.normal == self.normal
                &&& ht.0.tangent == frame_tangent_spec(self.normal)
                &&& ht.0.bitangent == frame_bitangent_spec(self.normal)
                &&& ht.0.back_face == (dot_spec(self.normal, ray.d) >= 0)
            },
    {
        proof {
            reveal(triangle_hit_spec);
        }
        let a = self.v3.sub(self.v1);
        let b = self.v2.sub(self.v1);
        let p = ray.d.cross(a);
        let det = b.dot(p);
        if det.abs().lt(Fx::new(EPSILON_RAW)) {
            return None;
        }
        let tv = ray.o.sub(self.v1);
        let q = tv.cross(b);
        let u = tv.dot(p).div(det);
        let v = ray.d.dot(q).div(det);
        if u.lt(Fx::zero()) || Fx::one().lt(u) || v.lt(Fx::zero()) || Fx::one().lt(u.add(v)) {
            return None;
        }
        let distance = a.dot(q).div(det);
        if distance.lt(Fx::new(EPSILON_RAW)) {
            return None;
        }
        let point = ray.point_at(distance);
        let (tangent, bitangent) = make_frame(self.normal);
        let back_face = Fx::zero().le(self.normal.dot(ray.d));
        Some((
            Intersection { point, normal: self.normal, tangent, bitangent, back_face },
            distance,
        ))
    }

    /// Samples a point on the triangle by the square-root warp of two
    /// uniforms and returns it with the solid-angle density of the
    /// connection from the hit: the squared distance over the projected
    /// area, clamped below to avoid fireflies; zero when the triangle is
    /// not reachable from the hit.
    pub fn sample(&self, hit: &Intersection, sampler: &mut Sampler) -> (r: (Point3, Fx))
        requires
            old(sampler).wf(),
        ensures
            final(sampler).wf(),
            r.1@ >= 0,
            r.1@ == 0 || r.1@ >= MIN_LIGHT_PDF_RAW,
            r.1@ == triangle_connection_pdf_spec(
                *self,
                spawn_to_spec(hit.point, r.0, hit.normal),
            ),
            exists|u1: int, u2: int|
                0 <= u1 < SCALE && 0 <= u2 < SCALE && r.0 == #[trigger] bary_point_spec(
                    *self,
                    u1,
                    u2,
                ),
    {
        let u1 = sampler.gen_0_1();
        let u2 = sampler.gen_0_1();
        let su = u1.sqrt();
        let b1 = Fx::one().sub(su);
        let b2 = su.mul(Fx::one().sub(u2));
        let b3 = su.mul(u2);
        let pt = self.v1.to_vec().scale(b1).add(self.v2.to_vec().scale(b2)).add(
            self.v3.to_vec().scale(b3),
        ).to_point();
        proof {
            let m = bary_point_spec(*self, u1@, u2@);
            assert(pt.x.raw == m.x.raw && pt.y.raw == m.y.raw && pt.z.raw == m.z.raw);
            assert(pt == bary_point_spec(*self, u1@, u2@));
        }
        let pdf = self.connection_pdf(hit, pt);
        (pt, pdf)
    }

    /// The density with which [`Triangle::sample`] draws the direction
    /// `wi` from the hit.
    pub fn pdf(&self, hit: &Intersection, wi: Vec3) -> (r: Fx)
        ensures
            r@ >= 0,
            r@ == 0 || r@ >= MIN_LIGHT_PDF_RAW,
            r@ == triangle_connection_pdf_spec(*self, spawn_spec(hit.point, wi, hit.normal)),
    {
        let ray = Ray::spawn(hit.point, wi, hit.normal);
        match self.intersect(&ray) {
            Some((light_hit, _)) => self.solid_angle_pdf(ray.o, light_hit.point),
            None => Fx::zero(),
        }
    }

    /// The solid-angle density of connecting `hit` to the triangle point
    /// `pt`: zero when the shadow ray toward `pt` misses the triangle.
    fn connection_pdf(&self, hit: &Intersection, pt: Point3) -> (r: Fx)
        ensures
            r@ >= 0,
            r@ == 0 || r@ >= MIN_LIGHT_PDF_RAW,
            r@ == triangle_connection_pdf_spec(*self, spawn_to_spec(hit.point, pt, hit.normal)),
    {
        let ray = Ray::spawn_to(hit.point, pt, hit.normal);
        match self.intersect(&ray) {
            Some((light_hit, _)) => self.solid_angle_pdf(ray.o, light_hit.point),
            None => Fx::zero(),
        }
    }

    /// Converts the area density of a triangle point seen from `from` into
    /// a solid-angle density and applies the lower clamp.
    fn solid_angle_pdf(&self, from: Point3, lp: Point3) -> (r: Fx)
        ensures
            r@ >= 0,
            r@ == 0 || r@ >= MIN_LIGHT_PDF_RAW,
            r@ == triangle_solid_angle_spec(*self, from, lp),
    {
        let d2 = lp.distance_squared(from);
        let cos_l = self.normal.dot(lp.sub(from).normalize()).abs();
        let denom = cos_l.mul(self.surface_area());
        if denom.is_zero() {
            return Fx::zero();
        }
        d2.div(denom).max(Fx::new(MIN_LIGHT_PDF_RAW))
    }
}

/// The exact componentwise sum of three points, as a vector.
pub open spec fn vec_add3_spec(a: Point3, b: Point3, c: Point3) -> Vec3 {
    Vec3 {
        x: Fx { raw: fx_add(fx_add(a.x@, b.x@), c.x@) as i64 },
        y: Fx { raw: fx_add(fx_add(a.y@, b.y@), c.y@) as i64 },
        z: Fx { raw: fx_add(fx_add(a.z@, b.z@), c.z@) as i64 },
    }
}

/// A ray parallel to the triangle's plane, one whose determinant is zero,
/// misses the triangle.
pub proof fn lemma_parallel_ray_misses(t: Triangle, r: Ray)
    requires
        triangle_det_spec(t, r) == 0,
    ensures
        triangle_hit_spec(t, r) is None,
{
    reveal(triangle_hit_spec);
}

/// Whether an intersection record is the one the geometry's own intersect
/// produces for a hit at ray parameter `t`: the point on the ray, the
/// geometry's normal at it, the frame around that normal, and the facing
/// flag.
pub open spec fn hit_record_matches(g: Geometry, r: Ray, rec: Intersection, t: int) -> bool {
    &&& rec.point == ray_at_spec(r, t)
    &&& rec.normal == (match g {
        Geometry::Sphere(s) => normalize_spec(point_sub_spec(rec.point, s.center)),
        Geometry::Triangle(tr) => tr.normal,
    })
    &&& rec.tangent == frame_tangent_spec(rec.normal)
    &&& rec.bitangent == frame_bitangent_spec(rec.normal)
    &&& rec.back_face == (dot_spec(rec.normal, r.d) >= 0)
}

/// A shape: one of the closed set of geometry variants.
#[derive(Clone, Copy, Debug)]
pub enum Geometry {
    Sphere(Sphere),
    Triangle(Triangle),
}

/// The ray parameter at which a ray hits a geometry.
pub open spec fn geometry_hit_spec(g: Geometry, r: Ray) -> Option<int> {
    match g {
        Geometry::Sphere(s) => sphere_hit_spec(s, r),
        Geometry::Triangle(t) => triangle_hit_spec(t, r),
    }
}

/// A primitive: a geometry with optional indices into the scene's
/// material and light arrays.
#[derive(Clone, Copy, Debug)]
pub struct Primitive {
    pub geom: Geometry,
    pub material_index: Option<usize>,
    pub light_index: Option<usize>,
}

impl Primitive {
    /// A pure emitter.
    pub fn new_light(geom: Geometry, light_index: usize) -> (r: Primitive)
        ensures
            r.geom == geom,
            r.material_index is None,
            r.light_index == Some(light_index),
    {
        Primitive { geom, material_index: None, light_index: Some(light_index) }
    }

    /// A non-emitting surface.
    pub fn new_material(geom: Geometry, material_index: usize) -> (r: Primitive)
        ensures
            r.geom == geom,
            r.material_index == Some(material_index),
            r.light_index is None,
    {
        Primitive { geom, material_index: Some(material_index), light_index: None }
    }

    /// An emitting surface.
    pub fn new_emissive_material(geom: Geometry, material_index: usize, light_index: usize) -> (r:
        Primitive)
        ensures
            r.geom == geom,
            r.material_index == Some(material_index),
            r.light_index == Some(light_index),
    {
        Primitive { geom, material_index: Some(material_index), light_index: Some(light_index) }
    }

    /// Ray intersection against the primitive's geometry; pinned to
    /// [`geometry_hit_spec`].
    pub fn intersect(&self, ray: &Ray) -> (r: Option<(Intersection, Fx)>)
        ensures
            (r is Some) == (geometry_hit_spec(self.geom, *ray) is Some),
            r matches Some(ht) ==> Some(ht.1@) == geometry_hit_spec(self.geom, *ray)
                && hit_record_matches(self.geom, *ray, ht.0, ht.1@),
    {
        match &self.geom {
            Geometry::Sphere(s) => s.intersect(ray),
            Geometry::Triangle(t) => t.intersect(ray),
        }
    }

    /// Samples a point on the primitive's surface for a light connection,
    /// with its solid-angle density (zero when unreachable).
    pub fn sample(&self, hit: &Intersection, sampler: &mut Sampler) -> (r: (Point3, Fx))
        requires
            old(sampler).wf(),
        ensures
            final(sampler).wf(),
            r.1@ >= 0,
            self.geom matches Geometry::Sphere(s) ==> exists|u1: int, u2: int|
                {
                    &&& 0 <= u1 < SCALE
                    &&& 0 <= u2 < SCALE
                    &&& r.0 == #[trigger] sphere_sample_outcome_spec(s, *hit, u1, u2).0
                    &&& r.1@ == sphere_sample_outcome_spec(s, *hit, u1, u2).1
                },
            self.geom matches Geometry::Triangle(t) ==> r.1@ == triangle_connection_pdf_spec(
                t,
                spawn_to_spec(hit.point, r.0, hit.normal),
            ) && exists|u1: int, u2: int|
                0 <= u1 < SCALE && 0 <= u2 < SCALE && r.0 == #[trigger] bary_point_spec(t, u1, u2),
    {
        match &self.geom {
            Geometry::Sphere(s) => s.sample(hit, sampler),
            Geometry::Triangle(t) => t.sample(hit, sampler),
        }
    }

    /// The density with which [`Primitive::sample`] draws `wi`.
    pub fn pdf(&self, hit: &Intersection, wi: Vec3) -> (r: Fx)
        ensures
            r@ >= 0,
            self.geom matches Geometry::Sphere(s) ==> r@ == sphere_pdf_spec(s, *hit, wi),
            self.geom matches Geometry::Triangle(t) ==> r@ == triangle_connection_pdf_spec(
                t,
                spawn_spec(hit.point, wi, hit.normal),
            ),
    {
        match &self.geom {
            Geometry::Sphere(s) => s.pdf(hit, wi),
            Geometry::Triangle(t) => t.pdf(hit, wi),
        }
    }
}

} // verus!
