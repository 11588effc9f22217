//! The pinhole camera.

use vstd::prelude::*;
use crate::fixed::{Fx, SCALE, fx_add, fx_sub, fx_mul, fx_div};
use crate::math::{Vec3, Point3, Ray, normalize_spec, vec_scale_spec};

verus! {

/// A pinhole camera at an origin, looking along positive z, with the
/// image plane scaled by the aspect ratio in x.
#[derive(Clone, Copy, Debug)]
pub struct Camera {
    pub origin: Point3,
    pub aspect: Fx,
}

/// The unnormalized camera-space direction through a film position given
/// in raw pixel coordinates plus jitter, for an image of `w` by `h`
/// pixels: x maps to `(2 px / w - 1) * aspect`, y to `1 - 2 py / h`, z is
/// one.
pub open spec fn film_dir_spec(aspect: int, px: int, py: int, w: int, h: int) -> Vec3 {
    Vec3 {
        x: Fx {
            raw: fx_mul(
                fx_sub(fx_mul(2_000_000, fx_div(px, w * (SCALE as int))), SCALE as int),
                aspect,
            ) as i64,
        },
        y: Fx { raw: fx_sub(SCALE as int, fx_mul(2_000_000, fx_div(py, h * (SCALE as int)))) as i64 },
        z: Fx { raw: SCALE },
    }
}

impl Camera {
    /// Builds a camera.
    pub fn new(origin: Point3, aspect: Fx) -> (r: Camera)
        ensures
            r.origin == origin && r.aspect == aspect,
    {
        Camera { origin, aspect }
    }

    /// The camera ray through pixel `(x, y)` jittered by two unit samples,
    /// for an image of `width` by `height` pixels: the normalized film
    /// direction from the camera origin.
    pub fn ray(&self, x: usize, y: usize, width: usize, height: usize, ju: Fx, jv: Fx) -> (r: Ray)
        requires
            0 < width <= 65536,
            0 < height <= 65536,
            x < width,
            y < height,
            0 <= ju@ < SCALE,
            0 <= jv@ < SCALE,
        ensures
            r.o == self.origin,
            r.d == normalize_spec(
                film_dir_spec(
                    self.aspect@,
                    (x * SCALE + ju@) as int,
                    (y * SCALE + jv@) as int,
                    width as int,
                    height as int,
                ),
            ),
    {
        let px = Fx::new((x as i64) * SCALE).add(ju);
        let py = Fx::new((y as i64) * SCALE).add(jv);
        let w = Fx::new((width as i64) * SCALE);
        let h = Fx::new((height as i64) * SCALE);
        let two = Fx::new(2_000_000);
        let ndc_x = two.mul(px.div(w)).sub(Fx::one()).mul(self.aspect);
        let ndc_y = Fx::one().sub(two.mul(py.div(h)));
        let dir = Vec3::new(ndc_x, ndc_y, Fx::one()).normalize();
        Ray::new(self.origin, dir)
    }
}

} // verus!
