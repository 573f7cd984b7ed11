//! The analytic cylinder proxy: an idealized wall between the two
//! configured radii, used for broad mass and force purposes instead of
//! the baked mesh.
//!
//! The shape supports a bounding box, a bounding sphere, and a support
//! mapping computed from the average radius; its mass properties
//! delegate to an equivalent solid cylinder taken a fixed ratio of the
//! way between the radii.  Exact ray casting and point projection are
//! deliberately unsupported, so those queries answer `None` rather than
//! a silently wrong result.

use vstd::prelude::*;

verus! {

use crate::config::{MapConfig, LENGTH_LIMIT, RADIUS_LIMIT};
use crate::fixed::{
    is_isqrt,
    isqrt64,
    isqrt_spec,
    lemma_div_le_self,
    lemma_mul_le,
    mul_div_trunc,
    scale_i64,
    Vec3Fx,
    COORD_LIMIT,
};
use crate::physics::{radial_sq, radial_sq_spec};

/// Where between the two radii the mass-equivalent solid cylinder
/// sits, in milli-units of the blend: an approximation chosen for
/// gameplay, not an exact equivalence.
pub const MASS_RATIO_MILLI: i64 = 200;

/// An idealized cylinder wall between two radii, centered at the
/// origin, axis-aligned.
#[derive(Clone, Copy, Debug, PartialEq, Eq, Structural)]
pub struct TerrainShape {
    pub radius_start: i64,
    pub radius_end: i64,
    pub length: i64,
}

/// A solid cylinder: the proxy every delegated query reduces to.
#[derive(Clone, Copy, Debug, PartialEq, Eq, Structural)]
pub struct CylinderProxy {
    pub half_height: i64,
    pub radius: i64,
}

impl TerrainShape {
    /// The parameter ranges the queries rely on.
    pub open spec fn valid(self) -> bool {
        &&& 0 < self.radius_start <= self.radius_end <= RADIUS_LIMIT
        &&& 0 < self.length <= LENGTH_LIMIT
    }

    /// The shape a map configuration describes.
    pub fn from_config(c: &MapConfig) -> (s: TerrainShape)
        ensures
            s.radius_start == c.radius_start,
            s.radius_end == c.radius_end,
            s.length == c.length,
            c.valid() ==> s.valid(),
    {
        TerrainShape {
            radius_start: c.radius_start,
            radius_end: c.radius_end,
            length: c.length,
        }
    }

    /// The radius a blend ratio (in milli-units) selects between the
    /// two wall radii.
    pub open spec fn blend_ratio_spec(self, ratio: int) -> int {
        (self.radius_start * (1_000 - ratio) + self.radius_end * ratio) / 1_000
    }

    /// The solid cylinder at a blend ratio of the way from the inner to
    /// the outer radius.
    pub fn cylinder(&self, ratio: i64) -> (c: CylinderProxy)
        requires
            self.valid(),
            0 <= ratio <= 1_000,
        ensures
            c.half_height == self.length / 2,
            c.radius == self.blend_ratio_spec(ratio as int),
            0 <= c.radius <= RADIUS_LIMIT,
    {
        let rs: u64 = self.radius_start as u64;
        let re: u64 = self.radius_end as u64;
        let t: u64 = ratio as u64;
        proof {
            lemma_mul_le(rs as int, 1_000 - t, RADIUS_LIMIT as int, 1_000);
            lemma_mul_le(re as int, t as int, RADIUS_LIMIT as int, 1_000);
            assert(rs * (1_000 - t) + re * t <= 1_000 * (RADIUS_LIMIT as int) && (rs * (1_000 - t)
                + re * t) / 1_000 <= RADIUS_LIMIT) by (nonlinear_arith)
                requires
                    0 <= rs <= re <= RADIUS_LIMIT,
                    0 <= t <= 1_000,
            ;
        }
        let r: u64 = (rs * (1_000 - t) + re * t) / 1_000;
        CylinderProxy { half_height: ((self.length as u64) / 2) as i64, radius: r as i64 }
    }

    /// The solid cylinder the shape's mass properties delegate to.
    pub fn mass_cylinder(&self) -> (c: CylinderProxy)
        requires
            self.valid(),
        ensures
            c.half_height == self.length / 2,
            c.radius == self.blend_ratio_spec(MASS_RATIO_MILLI as int),
    {
        self.cylinder(MASS_RATIO_MILLI)
    }

    /// The support point in direction `dir`: the whole direction vector
    /// rescaled so that its radial part reaches the average wall
    /// radius.  `None` for directions along the axis, where the wall
    /// has no support point.
    pub open spec fn support_point_spec(self, dir: Vec3Fx) -> Option<(int, int, int)> {
        let nsq = radial_sq_spec(dir);
        if nsq == 0 {
            None
        } else {
            let n = isqrt_spec(nsq);
            let ravg = (self.radius_start + self.radius_end) / 2;
            Some(
                (
                    mul_div_trunc(dir.x as int, ravg, n),
                    mul_div_trunc(dir.y as int, ravg, n),
                    mul_div_trunc(dir.z as int, ravg, n),
                ),
            )
        }
    }

    /// Computes the support point of the wall in a given direction.
    pub fn support_point(&self, dir: Vec3Fx) -> (r: Option<Vec3Fx>)
        requires
            self.valid(),
            dir.in_range(),
        ensures
            match r {
                Some(p) => self.support_point_spec(dir) == Some(
                    (p.x as int, p.y as int, p.z as int),
                ),
                None => self.support_point_spec(dir) is None,
            },
    {
        let nsq: u64 = radial_sq(dir.x, dir.y);
        if nsq == 0 {
            return None;
        }
        let n: u64 = isqrt64(nsq);
        proof {
            let nsqg = radial_sq_spec(dir);
            assert(n >= 1) by (nonlinear_arith)
                requires
                    is_isqrt(nsqg, n as int),
                    nsqg >= 1,
            ;
            lemma_mul_le(COORD_LIMIT as int, RADIUS_LIMIT as int, COORD_LIMIT as int, RADIUS_LIMIT as int);
            lemma_div_le_self(COORD_LIMIT as int * RADIUS_LIMIT, n as int);
            lemma_mul_le(COORD_LIMIT as int, ((self.radius_start + self.radius_end) / 2) as int, COORD_LIMIT as int, RADIUS_LIMIT as int);
            lemma_div_le_self(COORD_LIMIT as int * ((self.radius_start + self.radius_end) / 2), n as int);
        }
        let ravg: u64 = ((self.radius_start as u64) + (self.radius_end as u64)) / 2;
        Some(
            Vec3Fx {
                x: scale_i64(dir.x, ravg, n),
                y: scale_i64(dir.y, ravg, n),
                z: scale_i64(dir.z, ravg, n),
            },
        )
    }

    /// Computes the axis-aligned bounding box: the outer radius in the
    /// radial plane, half the length along the axis.
    pub fn local_aabb(&self) -> (r: (Vec3Fx, Vec3Fx))
        requires
            self.valid(),
        ensures
            r.0.x == -self.radius_end,
            r.0.y == -self.radius_end,
            r.0.z == -(self.length / 2),
            r.1.x == self.radius_end,
            r.1.y == self.radius_end,
            r.1.z == self.length / 2,
    {
        let half: i64 = ((self.length as u64) / 2) as i64;
        (
            Vec3Fx { x: -self.radius_end, y: -self.radius_end, z: -half },
            Vec3Fx { x: self.radius_end, y: self.radius_end, z: half },
        )
    }

    /// Computes the bounding sphere radius around the origin: the norm
    /// of the outer radius and the half length, rounded up so that the
    /// sphere contains every point of the shell — its square is at
    /// least the exact squared norm.
    pub fn bounding_sphere_radius(&self) -> (r: u64)
        requires
            self.valid(),
        ensures
            ({
                let s = self.radius_end * self.radius_end + (self.length / 2) * (self.length / 2);
                let root = isqrt_spec(s);
                &&& r == if root * root == s {
                    root
                } else {
                    root + 1
                }
                &&& r * r >= s
            }),
    {
        let re: u64 = self.radius_end as u64;
        let half: u64 = (self.length as u64) / 2;
        proof {
            lemma_mul_le(re as int, re as int, RADIUS_LIMIT as int, RADIUS_LIMIT as int);
            lemma_mul_le(half as int, half as int, 50_000_000, 50_000_000);
        }
        let q: u64 = isqrt64(re * re + half * half);
        proof {
            assert(q <= 60_000_000) by (nonlinear_arith)
                requires
                    (q as int) * (q as int) <= re * re + half * half,
                    re * re + half * half <= 2_600_000_000_000_000,
            ;
        }
        if q * q == re * re + half * half {
            q
        } else {
            q + 1
        }
    }

    /// Exact ray casting is deliberately unsupported on the proxy
    /// shape: every query answers `None` instead of an approximate hit.
    pub fn cast_ray(&self, origin: Vec3Fx, dir: Vec3Fx) -> (r: Option<Vec3Fx>)
        ensures
            r is None,
    {
        let _ = origin;
        let _ = dir;
        None
    }

    /// Exact point projection is deliberately unsupported on the proxy
    /// shape: every query answers `None`.
    pub fn project_point(&self, point: Vec3Fx) -> (r: Option<Vec3Fx>)
        ensures
            r is None,
    {
        let _ = point;
        None
    }
}

} // verus!
