//! Cameras, transforms, and the screen-to-world ray cast onto the ground
//! plane `z = 0`.
//!
//! Conventions: the camera looks along its local negative z axis; screen
//! coordinates have their origin at the top-left corner of the window with y
//! growing downward; the orientation matrix maps camera-local directions to
//! world directions. A ray direction only matters up to a positive factor,
//! so the pipeline keeps exact integer numerators throughout and rounds once,
//! in the final division of the plane intersection.

use vstd::prelude::*;
use crate::num::MAX_COORD;
use crate::num::SCALE;
use crate::num::abs;
use crate::num::div_coord;
use crate::num::div_half_away;
use crate::num::lemma_div_half_away_exact;
use crate::num::lemma_mul_within;

verus! {

/// Largest magnitude, in fixed-point steps, of a screen dimension or of a
/// pointer coordinate.
pub const MAX_PIXEL: i64 = 100_000_000;

/// Largest fixed-point tangent of a camera's half field of view.
pub const MAX_TAN: i64 = 1_000_000;

/// A position in world space, one fixed-point value per axis.
#[derive(Clone, Copy, PartialEq, Eq, Structural, Debug)]
pub struct Vec3 {
    pub x: i64,
    pub y: i64,
    pub z: i64,
}

/// A 3x3 orientation matrix with fixed-point entries (`rIJ` is row `I`,
/// column `J`); a true rotation keeps every entry within `[-SCALE, SCALE]`.
#[derive(Clone, Copy, PartialEq, Eq, Structural, Debug)]
pub struct Mat3 {
    pub r00: i64,
    pub r01: i64,
    pub r02: i64,
    pub r10: i64,
    pub r11: i64,
    pub r12: i64,
    pub r20: i64,
    pub r21: i64,
    pub r22: i64,
}

/// An entity's position and orientation in world space.
#[derive(Clone, Copy, PartialEq, Eq, Structural, Debug)]
pub struct Transform {
    pub translation: Vec3,
    pub rotation: Mat3,
}

/// Perspective projection parameters: the fixed-point tangents of the half
/// field of view along x and y.
#[derive(Clone, Copy, PartialEq, Eq, Structural, Debug)]
pub struct Camera {
    pub tan_half_x: i64,
    pub tan_half_y: i64,
}

/// A point on the ground plane `z = 0`.
#[derive(Clone, Copy, PartialEq, Eq, Structural, Debug)]
pub struct WorldPoint {
    pub x: i64,
    pub y: i64,
}

pub open spec fn valid_camera(c: Camera) -> bool {
    &&& 0 <= c.tan_half_x <= MAX_TAN
    &&& 0 <= c.tan_half_y <= MAX_TAN
}

pub open spec fn valid_transform(t: Transform) -> bool {
    &&& abs(t.translation.x as int) <= MAX_COORD
    &&& abs(t.translation.y as int) <= MAX_COORD
    &&& abs(t.translation.z as int) <= MAX_COORD
    &&& abs(t.rotation.r00 as int) <= SCALE
    &&& abs(t.rotation.r01 as int) <= SCALE
    &&& abs(t.rotation.r02 as int) <= SCALE
    &&& abs(t.rotation.r10 as int) <= SCALE
    &&& abs(t.rotation.r11 as int) <= SCALE
    &&& abs(t.rotation.r12 as int) <= SCALE
    &&& abs(t.rotation.r20 as int) <= SCALE
    &&& abs(t.rotation.r21 as int) <= SCALE
    &&& abs(t.rotation.r22 as int) <= SCALE
}

pub open spec fn valid_screen(w: int, h: int) -> bool {
    &&& 1 <= w <= MAX_PIXEL
    &&& 1 <= h <= MAX_PIXEL
}

pub open spec fn valid_pixel(p: int) -> bool {
    -MAX_PIXEL <= p <= MAX_PIXEL
}

/// Camera-space ray numerator along x for the pixel `(px, py)` of a
/// `w` by `h` window: `((2 px - w) / w) * (tan_half_x / SCALE)`, scaled by
/// the common positive factor `SCALE * w * h`.
pub open spec fn cam_ray_x(c: Camera, w: int, h: int, px: int) -> int {
    (2 * px - w) * c.tan_half_x * h
}

/// Camera-space ray numerator along y; screen y grows downward, world y up.
pub open spec fn cam_ray_y(c: Camera, w: int, h: int, py: int) -> int {
    (h - 2 * py) * c.tan_half_y * w
}

/// Camera-space ray numerator along z: the camera looks along -z.
pub open spec fn cam_ray_z(w: int, h: int) -> int {
    -(SCALE * w * h)
}

/// World-space ray direction numerator along x: row 0 of the orientation
/// applied to the camera-space numerators.
pub open spec fn dir_x(c: Camera, t: Transform, w: int, h: int, px: int, py: int) -> int {
    t.rotation.r00 * cam_ray_x(c, w, h, px) + t.rotation.r01 * cam_ray_y(c, w, h, py)
        + t.rotation.r02 * cam_ray_z(w, h)
}

/// World-space ray direction numerator along y.
pub open spec fn dir_y(c: Camera, t: Transform, w: int, h: int, px: int, py: int) -> int {
    t.rotation.r10 * cam_ray_x(c, w, h, px) + t.rotation.r11 * cam_ray_y(c, w, h, py)
        + t.rotation.r12 * cam_ray_z(w, h)
}

/// World-space ray direction numerator along z; the ray is parallel to the
/// ground plane exactly when this is zero.
pub open spec fn dir_z(c: Camera, t: Transform, w: int, h: int, px: int, py: int) -> int {
    t.rotation.r20 * cam_ray_x(c, w, h, px) + t.rotation.r21 * cam_ray_y(c, w, h, py)
        + t.rotation.r22 * cam_ray_z(w, h)
}

/// Numerator of the x coordinate where the ray from the camera's position
/// meets `z = 0`: the exact point is `hit_num_x / dir_z`.
pub open spec fn hit_num_x(c: Camera, t: Transform, w: int, h: int, px: int, py: int) -> int {
    t.translation.x * dir_z(c, t, w, h, px, py) - dir_x(c, t, w, h, px, py) * t.translation.z
}

/// Numerator of the y coordinate where the ray meets `z = 0`.
pub open spec fn hit_num_y(c: Camera, t: Transform, w: int, h: int, px: int, py: int) -> int {
    t.translation.y * dir_z(c, t, w, h, px, py) - dir_y(c, t, w, h, px, py) * t.translation.z
}

/// The x coordinate of the intersection point, rounded to the nearest
/// fixed-point step, ties away from zero.
pub open spec fn hit_x(c: Camera, t: Transform, w: int, h: int, px: int, py: int) -> int {
    div_half_away(hit_num_x(c, t, w, h, px, py), dir_z(c, t, w, h, px, py))
}

/// The y coordinate of the intersection point, rounded likewise.
pub open spec fn hit_y(c: Camera, t: Transform, w: int, h: int, px: int, py: int) -> int {
    div_half_away(hit_num_y(c, t, w, h, px, py), dir_z(c, t, w, h, px, py))
}

/// Whether the ray through `(px, py)` meets the ground plane at a
/// representable point: not parallel, and both rounded coordinates within
/// `[-MAX_COORD, MAX_COORD]`.
pub open spec fn ray_hits_ground(c: Camera, t: Transform, w: int, h: int, px: int, py: int) -> bool {
    &&& dir_z(c, t, w, h, px, py) != 0
    &&& abs(hit_x(c, t, w, h, px, py)) <= MAX_COORD
    &&& abs(hit_y(c, t, w, h, px, py)) <= MAX_COORD
}

/// With an unrotated camera, the ray through the exact center pixel runs
/// straight down the view axis: it meets the ground plane at the point
/// directly beneath the camera's position, with no rounding error.
pub proof fn lemma_center_pixel_under_camera(c: Camera, t: Transform, w: int, h: int, px: int, py: int)
    requires
        valid_camera(c),
        valid_transform(t),
        valid_screen(w, h),
        2 * px == w,
        2 * py == h,
        t.rotation == (Mat3 {
            r00: 1000,
            r01: 0,
            r02: 0,
            r10: 0,
            r11: 1000,
            r12: 0,
            r20: 0,
            r21: 0,
            r22: 1000,
        }),
    ensures
        ray_hits_ground(c, t, w, h, px, py),
        hit_x(c, t, w, h, px, py) == t.translation.x,
        hit_y(c, t, w, h, px, py) == t.translation.y,
{
    let thx = c.tan_half_x as int;
    let thy = c.tan_half_y as int;
    let ax = cam_ray_x(c, w, h, px);
    let ay = cam_ray_y(c, w, h, py);
    let az = cam_ray_z(w, h);
    assert(ax == 0) by (nonlinear_arith)
        requires
            ax == (2 * px - w) * thx * h,
            2 * px == w,
    ;
    assert(ay == 0) by (nonlinear_arith)
        requires
            ay == (h - 2 * py) * thy * w,
            2 * py == h,
    ;
    assert(az < 0) by (nonlinear_arith)
        requires
            az == -(1000 * w * h),
            w >= 1,
            h >= 1,
    ;
    let dz = dir_z(c, t, w, h, px, py);
    assert(dir_x(c, t, w, h, px, py) == 0);
    assert(dir_y(c, t, w, h, px, py) == 0);
    assert(dz == 1000 * az && dz < 0);
    assert(hit_num_x(c, t, w, h, px, py) == t.translation.x * dz);
    assert(hit_num_y(c, t, w, h, px, py) == t.translation.y * dz);
    lemma_div_half_away_exact(t.translation.x as int, dz);
    lemma_div_half_away_exact(t.translation.y as int, dz);
}

/// Casts the ray through screen pixel `(px, py)` and intersects it with the
/// ground plane `z = 0`. Returns `None` exactly when the ray is parallel to
/// the plane or the intersection lies outside the representable range.
pub fn screen_to_world(c: &Camera, t: &Transform, screen_w: i64, screen_h: i64, px: i64, py: i64) -> (r:
    Option<WorldPoint>)
    requires
        valid_camera(*c),
        valid_transform(*t),
        valid_screen(screen_w as int, screen_h as int),
        valid_pixel(px as int),
        valid_pixel(py as int),
    ensures
        r is Some <==> ray_hits_ground(*c, *t, screen_w as int, screen_h as int, px as int, py as int),
        r matches Some(p) ==> p.x == hit_x(*c, *t, screen_w as int, screen_h as int, px as int, py as int)
            && p.y == hit_y(*c, *t, screen_w as int, screen_h as int, px as int, py as int),
{
    let w: i128 = screen_w as i128;
    let h: i128 = screen_h as i128;
    let mx: i128 = px as i128;
    let my: i128 = py as i128;
    let thx: i128 = c.tan_half_x as i128;
    let thy: i128 = c.tan_half_y as i128;

    let sx: i128 = 2 * mx - w;
    let sy: i128 = h - 2 * my;
    proof {
        lemma_mul_within(sx as int, thx as int, 300_000_000, 1_000_000);
    }
    let axt: i128 = sx * thx;
    proof {
        lemma_mul_within(axt as int, h as int, 300_000_000_000_000, 100_000_000);
    }
    let ax: i128 = axt * h;
    proof {
        lemma_mul_within(sy as int, thy as int, 300_000_000, 1_000_000);
    }
    let ayt: i128 = sy * thy;
    proof {
        lemma_mul_within(ayt as int, w as int, 300_000_000_000_000, 100_000_000);
    }
    let ay: i128 = ayt * w;
    proof {
        lemma_mul_within(SCALE as int, w as int, 1000, 100_000_000);
    }
    let swh: i128 = (SCALE as i128) * w;
    proof {
        lemma_mul_within(swh as int, h as int, 100_000_000_000, 100_000_000);
    }
    let az: i128 = -(swh * h);
    assert(ax == cam_ray_x(*c, w as int, h as int, mx as int));
    assert(ay == cam_ray_y(*c, w as int, h as int, my as int));
    assert(az == cam_ray_z(w as int, h as int));

    let rot: Mat3 = t.rotation;
    proof {
        lemma_mul_within(rot.r00 as int, ax as int, 1000, 30_000_000_000_000_000_000_000);
        lemma_mul_within(rot.r01 as int, ay as int, 1000, 30_000_000_000_000_000_000_000);
        lemma_mul_within(rot.r02 as int, az as int, 1000, 30_000_000_000_000_000_000_000);
        lemma_mul_within(rot.r10 as int, ax as int, 1000, 30_000_000_000_000_000_000_000);
        lemma_mul_within(rot.r11 as int, ay as int, 1000, 30_000_000_000_000_000_000_000);
        lemma_mul_within(rot.r12 as int, az as int, 1000, 30_000_000_000_000_000_000_000);
        lemma_mul_within(rot.r20 as int, ax as int, 1000, 30_000_000_000_000_000_000_000);
        lemma_mul_within(rot.r21 as int, ay as int, 1000, 30_000_000_000_000_000_000_000);
        lemma_mul_within(rot.r22 as int, az as int, 1000, 30_000_000_000_000_000_000_000);
    }
    let dx: i128 = (rot.r00 as i128) * ax + (rot.r01 as i128) * ay + (rot.r02 as i128) * az;
    let dy: i128 = (rot.r10 as i128) * ax + (rot.r11 as i128) * ay + (rot.r12 as i128) * az;
    let dz: i128 = (rot.r20 as i128) * ax + (rot.r21 as i128) * ay + (rot.r22 as i128) * az;
    assert(dx == dir_x(*c, *t, w as int, h as int, mx as int, my as int));
    assert(dy == dir_y(*c, *t, w as int, h as int, mx as int, my as int));
    assert(dz == dir_z(*c, *t, w as int, h as int, mx as int, my as int));

    if dz == 0 {
        return None;
    }
    let ox: i128 = t.translation.x as i128;
    let oy: i128 = t.translation.y as i128;
    let oz: i128 = t.translation.z as i128;
    proof {
        lemma_mul_within(ox as int, dz as int, 1_000_000_000, 90_000_000_000_000_000_000_000_000);
        lemma_mul_within(oy as int, dz as int, 1_000_000_000, 90_000_000_000_000_000_000_000_000);
        lemma_mul_within(dx as int, oz as int, 90_000_000_000_000_000_000_000_000, 1_000_000_000);
        lemma_mul_within(dy as int, oz as int, 90_000_000_000_000_000_000_000_000, 1_000_000_000);
    }
    let num_x: i128 = ox * dz - dx * oz;
    let num_y: i128 = oy * dz - dy * oz;
    assert(num_x == hit_num_x(*c, *t, w as int, h as int, mx as int, my as int));
    assert(num_y == hit_num_y(*c, *t, w as int, h as int, mx as int, my as int));

    let qx: Option<i64> = div_coord(num_x, dz);
    match qx {
        None => None,
        Some(x) => {
            let qy: Option<i64> = div_coord(num_y, dz);
            match qy {
                None => None,
                Some(y) => Some(WorldPoint { x, y }),
            }
        },
    }
}

} // verus!
