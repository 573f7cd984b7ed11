//! The simulation-facing terrain body and its force model.
//!
//! `TerrainBody` owns the map parameters and the decoded heightmap and
//! answers the two per-step physics queries: the terrain's gravitating
//! mass and the radial push-back impulse for a wheel contact point.

use vstd::prelude::*;

verus! {

use crate::config::{MapConfig, RADIUS_LIMIT};
use crate::fixed::{
    is_isqrt,
    isqrt64,
    isqrt_spec,
    lemma_div_le_self,
    lemma_isqrt_is_isqrt,
    lemma_isqrt_unique,
    lemma_mul_div_trunc_sign,
    lemma_mul_le,
    mul_div_trunc,
    scale_i64,
    Vec3Fx,
    COORD_LIMIT,
    PI_MICRO,
};
use crate::heightmap::HeightMap;
use crate::trig::{atan2_micro, atan2_micro_spec};

/// Stiffness of the ground push-back, in impulse milli-units per
/// milli-unit of penetration.
pub const STIFFNESS: u64 = 5;

/// The squared radial coordinates of a point.
pub open spec fn radial_sq_spec(p: Vec3Fx) -> int {
    p.x * p.x + p.y * p.y
}

/// Squared distance of a point from the cylinder axis.
pub(crate) fn radial_sq(x: i64, y: i64) -> (r: u64)
    requires
        -COORD_LIMIT <= x <= COORD_LIMIT,
        -COORD_LIMIT <= y <= COORD_LIMIT,
    ensures
        r == x * x + y * y,
        r <= 2_000_000_000_000_000_000,
{
    proof {
        assert(0 <= x * x <= 1_000_000_000_000_000_000 && 0 <= y * y
            <= 1_000_000_000_000_000_000) by (nonlinear_arith)
            requires
                -COORD_LIMIT <= x <= COORD_LIMIT,
                -COORD_LIMIT <= y <= COORD_LIMIT,
                COORD_LIMIT == 1_000_000_000,
        ;
    }
    let xx: u64 = (x * x) as u64;
    let yy: u64 = (y * y) as u64;
    xx + yy
}

/// A world point in cylinder terms: angle around the axis in
/// micro-turns, distance from the axis in milli-units, and the axial
/// coordinate.
pub struct RadialCoordinates {
    /// Angle around the axis, in micro-turns.
    pub alpha: u64,
    /// Distance from the axis, in milli-units.
    pub radius: u64,
    /// Axial coordinate, in milli-units.
    pub depth: i64,
}

impl RadialCoordinates {
    /// Converts a world point to radial coordinates.
    pub fn new(p: Vec3Fx) -> (rc: RadialCoordinates)
        requires
            p.in_range(),
        ensures
            rc.alpha == atan2_micro_spec(p.x as int, p.y as int),
            rc.alpha < 1_000_000,
            rc.radius == isqrt_spec(radial_sq_spec(p)),
            is_isqrt(radial_sq_spec(p), rc.radius as int),
            rc.depth == p.z,
    {
        let rsq = radial_sq(p.x, p.y);
        RadialCoordinates { alpha: atan2_micro(p.x, p.y), radius: isqrt64(rsq), depth: p.z }
    }
}

/// The wall radius the heightmap prescribes: a linear blend from the
/// inner radius (byte 0) to the outer radius (byte 255).
pub open spec fn r_expected_spec(radius_start: int, radius_end: int, h: int) -> int {
    (radius_start * (255 - h) + radius_end * h) / 255
}

/// The blended wall radius stays between the two configured radii.
pub proof fn lemma_r_expected_bounds(radius_start: int, radius_end: int, h: int)
    by (nonlinear_arith)
    requires
        0 < radius_start <= radius_end,
        0 <= h <= 255,
    ensures
        radius_start <= r_expected_spec(radius_start, radius_end, h) <= radius_end,
{
    let num = radius_start * (255 - h) + radius_end * h;
    assert(255 * radius_start <= num <= 255 * radius_end);
}

/// Computes the blended wall radius for a heightmap byte.
pub fn blend_radius(radius_start: i64, radius_end: i64, h: u8) -> (r: u64)
    requires
        0 < radius_start <= radius_end <= RADIUS_LIMIT,
    ensures
        r == r_expected_spec(radius_start as int, radius_end as int, h as int),
        radius_start <= r <= radius_end,
{
    let rs: u64 = radius_start as u64;
    let re: u64 = radius_end as u64;
    proof {
        lemma_mul_le(rs as int, 255 - h, RADIUS_LIMIT as int, 255);
        lemma_mul_le(re as int, h as int, RADIUS_LIMIT as int, 255);
        lemma_r_expected_bounds(rs as int, re as int, h as int);
    }
    (rs * (255 - h as u64) + re * (h as u64)) / 255
}

/// The scaled penetration: `(radius - r_expected) * STIFFNESS`, clamped
/// to zero for points at or outside the wall.  Never positive.
pub open spec fn penetration_scaled_spec(radius: int, rexp: int) -> int {
    if radius < rexp {
        (radius - rexp) * (STIFFNESS as int)
    } else {
        0
    }
}

/// The heightmap column a micro-turn angle selects, before the seam
/// wrap: `round(alpha * width)` in turns.
pub open spec fn column_spec(alpha: int, width: int) -> int {
    (alpha * width + 500_000) / 1_000_000
}

/// The heightmap row an axial coordinate selects: `round(depth + 1/2)`
/// in milli-units, clamped to `[0, height]`.
pub open spec fn row_spec(depth: int, height: int) -> int {
    if depth < -500 {
        0
    } else if (depth + 500) / 1_000 > height {
        height
    } else {
        (depth + 500) / 1_000
    }
}

/// The terrain as the simulation sees it: physical parameters plus the
/// decoded heightmap.
pub struct TerrainBody {
    pub config: MapConfig,
    pub map: HeightMap,
}

impl TerrainBody {
    /// Valid parameters and a well-formed heightmap.
    pub open spec fn wf(self) -> bool {
        &&& self.config.valid()
        &&& self.map.wf()
    }

    /// Wraps already-validated parameters and heightmap bytes into the
    /// simulation-side terrain.
    pub fn new(config: &MapConfig, extent: [u32; 2], data: Vec<u8>) -> (t: TerrainBody)
        requires
            config.valid(),
            HeightMap::new_spec(extent[0] as int, extent[1] as int, data@.len() as int) is Ok,
        ensures
            t.config == *config,
            t.map.width == extent[0],
            t.map.height == extent[1],
            t.map.data@ == data@,
            t.wf(),
    {
        TerrainBody {
            config: *config,
            map: HeightMap { width: extent[0], height: extent[1], data },
        }
    }

    /// The terrain's gravitating mass, in milli-units: the mass of a
    /// solid cylinder of the average wall radius,
    /// `density * pi * r_avg^2 * length`.
    pub open spec fn mass_spec(c: MapConfig) -> int {
        let ravg = (c.radius_start + c.radius_end) / 2;
        (c.density * (PI_MICRO as int) * ravg * ravg * c.length) / 1_000_000_000_000_000
    }

    /// Computes the gravitating mass of the terrain.  Every valid
    /// configuration yields a mass the gravity law accepts.
    pub fn mass(&self) -> (m: u128)
        requires
            self.config.valid(),
        ensures
            m == Self::mass_spec(self.config),
            m <= TERRAIN_MASS_LIMIT,
    {
        let c = &self.config;
        let ravg: u64 = ((c.radius_start as u64) + (c.radius_end as u64)) / 2;
        proof {
            lemma_mul_le(c.density as int, PI_MICRO as int, 1_000_000, 3_141_593);
        }
        let m1: u128 = (c.density as u128) * (PI_MICRO as u128);
        proof {
            lemma_mul_le(m1 as int, ravg as int, 3_141_593_000_000, RADIUS_LIMIT as int);
        }
        let m2: u128 = m1 * (ravg as u128);
        proof {
            lemma_mul_le(
                m2 as int,
                ravg as int,
                3_141_593_000_000 * (RADIUS_LIMIT as int),
                RADIUS_LIMIT as int,
            );
        }
        let m3: u128 = m2 * (ravg as u128);
        proof {
            lemma_mul_le(
                m3 as int,
                c.length as int,
                3_141_593_000_000 * (RADIUS_LIMIT as int) * (RADIUS_LIMIT as int),
                100_000_000,
            );
        }
        let m4: u128 = m3 * (c.length as u128);
        proof {
            vstd::arithmetic::div_mod::lemma_div_is_ordered(
                m4 as int,
                3_141_593_000_000 * (RADIUS_LIMIT as int) * (RADIUS_LIMIT as int) * 100_000_000,
                1_000_000_000_000_000,
            );
        }
        m4 / 1_000_000_000_000_000
    }

    /// The wall radius under a lattice point of the heightmap.
    pub open spec fn surface_radius_spec(self, col: int, row: int) -> int {
        r_expected_spec(
            self.config.radius_start as int,
            self.config.radius_end as int,
            self.map.sample_spec(col, row),
        )
    }

    /// The wall radius at the heightmap cell a query point selects.
    pub open spec fn wall_radius_at_spec(self, p: Vec3Fx) -> int {
        self.surface_radius_spec(
            column_spec(atan2_micro_spec(p.x as int, p.y as int), self.map.width as int),
            row_spec(p.z as int, self.map.height as int),
        )
    }

    /// The scaled penetration of a query point into the wall.
    pub open spec fn resistance_pen_spec(self, p: Vec3Fx) -> int {
        let radius = isqrt_spec(radial_sq_spec(p));
        penetration_scaled_spec(radius, self.wall_radius_at_spec(p))
    }

    /// The push-back impulse for a query point: the penetration depth
    /// times the stiffness, along the outward radial unit direction —
    /// away from the axis, toward increasing radius, pushing a sunken
    /// wheel back out of the wall.  Zero for points at or outside the
    /// wall and for points on the axis.
    pub open spec fn resistance_spec(self, p: Vec3Fx) -> (int, int, int) {
        let rsq = radial_sq_spec(p);
        let radius = isqrt_spec(rsq);
        let pen = self.resistance_pen_spec(p);
        if rsq == 0 || pen == 0 {
            (0, 0, 0)
        } else {
            (
                mul_div_trunc(p.x as int, -pen, radius),
                mul_div_trunc(p.y as int, -pen, radius),
                0,
            )
        }
    }

    /// Computes the ground push-back impulse for a world-space query
    /// point, typically a wheel-ground contact point.
    pub fn compute_resistance(&self, point: Vec3Fx) -> (r: Vec3Fx)
        requires
            self.wf(),
            point.in_range(),
        ensures
            (r.x as int, r.y as int, r.z as int) == self.resistance_spec(point),
            r.z == 0,
    {
        let rc = RadialCoordinates::new(point);
        let w: u64 = self.map.width as u64;
        let h: u64 = self.map.height as u64;
        proof {
            assert(rc.alpha * w <= 999_999 * w) by (nonlinear_arith)
                requires
                    rc.alpha <= 999_999,
                    w >= 0,
            ;
        }
        let colnum: u64 = rc.alpha * w + 500_000;
        let col: u64 = colnum / 1_000_000;
        proof {
            assert(col <= w) by (nonlinear_arith)
                requires
                    col == colnum / 1_000_000,
                    colnum < 1_000_000 * (w + 1),
            ;
        }
        let row: u64 = if point.z < -500 {
            0
        } else {
            let v: u64 = ((point.z + 500) as u64) / 1_000;
            if v > h {
                h
            } else {
                v
            }
        };
        let hval: u8 = self.map.sample(col as u32, row as u32);
        let rexp: u64 = blend_radius(self.config.radius_start, self.config.radius_end, hval);
        if rc.radius < rexp && rc.radius > 0 {
            let pen_mag: u64 = (rexp - rc.radius) * STIFFNESS;
            proof {
                lemma_mul_le(COORD_LIMIT as int, pen_mag as int, COORD_LIMIT as int, 50_000_000);
                lemma_div_le_self(COORD_LIMIT as int * pen_mag, rc.radius as int);
            }
            let ix: i64 = scale_i64(point.x, pen_mag, rc.radius);
            let iy: i64 = scale_i64(point.y, pen_mag, rc.radius);
            proof {
                let rsqg = radial_sq_spec(point);
                assert(rsqg >= 1) by (nonlinear_arith)
                    requires
                        (rc.radius as int) * (rc.radius as int) <= rsqg,
                        rc.radius >= 1,
                ;
            }
            Vec3Fx { x: ix, y: iy, z: 0 }
        } else {
            proof {
                if rc.radius == 0 {
                    assert(point.x * point.x >= 0 && point.y * point.y >= 0)
                        by (nonlinear_arith);
                    assert(radial_sq_spec(point) < (0int + 1) * (0int + 1));
                    assert((0int + 1) * (0int + 1) == 1) by (nonlinear_arith);
                    assert(radial_sq_spec(point) == 0);
                }
            }
            Vec3Fx { x: 0, y: 0, z: 0 }
        }
    }
}

/// Numerator of the default gravity ratio.
pub const GRAVITY_NUM_DEFAULT: u64 = 66_743;

/// Denominator of the default gravity ratio; together they give the
/// gameplay-tuned constant 6.6743e-6.
pub const GRAVITY_DEN_DEFAULT: u64 = 10_000_000_000;

/// Largest accepted gravity numerator.
pub const GRAVITY_NUM_LIMIT: u64 = 100_000;

/// Largest accepted body mass, in milli-units.
pub const BODY_MASS_LIMIT: u64 = 10_000_000_000;

/// Largest accepted terrain mass, in milli-units; above every mass a
/// valid map configuration can produce.
pub const TERRAIN_MASS_LIMIT: u128 = 40_000_000_000_000_000_000;

/// Smallest squared radial distance the gravity law divides by; bodies
/// closer to the axis are treated as sitting at this distance, so the
/// force stays finite.
pub const MIN_RADIAL_SQ: u64 = 1_000_000;

/// The tunable strength of the central gravity law, as the ratio
/// `num / den`.
#[derive(Clone, Copy, Debug, PartialEq, Eq, Structural)]
pub struct GravityParams {
    pub num: u64,
    pub den: u64,
}

impl GravityParams {
    /// Positive ratio with a bounded numerator.
    pub open spec fn valid(self) -> bool {
        &&& 0 < self.num <= GRAVITY_NUM_LIMIT
        &&& 0 < self.den
    }
}

impl Default for GravityParams {
    /// The gameplay-tuned default strength.
    fn default() -> (g: GravityParams)
        ensures
            g.num == GRAVITY_NUM_DEFAULT,
            g.den == GRAVITY_DEN_DEFAULT,
            g.valid(),
    {
        GravityParams { num: GRAVITY_NUM_DEFAULT, den: GRAVITY_DEN_DEFAULT }
    }
}

/// The squared radial distance the gravity law divides by, clamped away
/// from the axis.
pub open spec fn clamped_radial_sq_spec(p: Vec3Fx) -> int {
    if radial_sq_spec(p) < MIN_RADIAL_SQ {
        MIN_RADIAL_SQ as int
    } else {
        radial_sq_spec(p)
    }
}

/// The magnitude of the central attraction,
/// `1000 * G * m_body * m_terrain / radial_distance^2` in milli-units,
/// with `G = num / den`.  The axial coordinate plays no part.
pub open spec fn gravity_magnitude_spec(
    g: GravityParams,
    body_mass: int,
    terrain_mass: int,
    p: Vec3Fx,
) -> int {
    1000 * g.num * body_mass * terrain_mass / (g.den * clamped_radial_sq_spec(p))
}

/// The gravity force on a body: the magnitude above, directed from the
/// body straight toward the cylinder axis.  `None` when the magnitude
/// leaves the fixed-point range; the zero vector on the axis itself,
/// where no direction exists.
pub open spec fn gravity_force_spec(
    g: GravityParams,
    body_mass: int,
    terrain_mass: int,
    p: Vec3Fx,
) -> Option<(int, int, int)> {
    let rsq = radial_sq_spec(p);
    let mag = gravity_magnitude_spec(g, body_mass, terrain_mass, p);
    if rsq == 0 {
        Some((0, 0, 0))
    } else if mag > i64::MAX {
        None
    } else {
        let radius = isqrt_spec(rsq);
        Some(
            (
                -mul_div_trunc(p.x as int, mag, radius),
                -mul_div_trunc(p.y as int, mag, radius),
                0,
            ),
        )
    }
}

/// One force component: `-(v * mag / radius)` rounded toward zero.
fn neg_scale_component(v: i64, mag: u128, radius: u64) -> (r: i64)
    requires
        1 <= radius,
        -(radius as int) <= v <= radius,
        radius <= 2_000_000_000,
        mag <= i64::MAX,
    ensures
        r == -mul_div_trunc(v as int, mag as int, radius as int),
{
    proof {
        assert(v >= 0 ==> v * mag / (radius as int) <= mag) by (nonlinear_arith)
            requires
                0 <= mag,
                1 <= radius,
                v <= radius,
        ;
        assert(v < 0 ==> (-v) * mag / (radius as int) <= mag) by (nonlinear_arith)
            requires
                0 <= mag,
                1 <= radius,
                -(radius as int) <= v,
        ;
    }
    if v >= 0 {
        proof {
            lemma_mul_le(v as int, mag as int, 2_000_000_000, i64::MAX as int);
        }
        let q: u128 = (v as u128) * mag / (radius as u128);
        -(q as i64)
    } else {
        proof {
            lemma_mul_le(-v as int, mag as int, 2_000_000_000, i64::MAX as int);
        }
        let q: u128 = ((-v) as u128) * mag / (radius as u128);
        q as i64
    }
}

/// Computes the central gravity force on a body at `pos`.
pub fn gravity_force(g: &GravityParams, body_mass: u64, terrain_mass: u128, pos: Vec3Fx) -> (r:
    Option<Vec3Fx>)
    requires
        g.valid(),
        body_mass <= BODY_MASS_LIMIT,
        terrain_mass <= TERRAIN_MASS_LIMIT,
        pos.in_range(),
    ensures
        match r {
            Some(f) => {
                &&& gravity_force_spec(
                    *g,
                    body_mass as int,
                    terrain_mass as int,
                    pos,
                ) == Some((f.x as int, f.y as int, f.z as int))
                &&& f.z == 0
            },
            None => gravity_force_spec(*g, body_mass as int, terrain_mass as int, pos) is None,
        },
{
    let rsq: u64 = radial_sq(pos.x, pos.y);
    if rsq == 0 {
        return Some(Vec3Fx { x: 0, y: 0, z: 0 });
    }
    let rsqc: u64 = if rsq < MIN_RADIAL_SQ {
        MIN_RADIAL_SQ
    } else {
        rsq
    };
    let n1: u128 = 1000 * (g.num as u128);
    proof {
        lemma_mul_le(n1 as int, body_mass as int, 100_000_000, BODY_MASS_LIMIT as int);
    }
    let n2: u128 = n1 * (body_mass as u128);
    proof {
        lemma_mul_le(
            n2 as int,
            terrain_mass as int,
            100_000_000 * (BODY_MASS_LIMIT as int),
            TERRAIN_MASS_LIMIT as int,
        );
    }
    let num: u128 = n2 * terrain_mass;
    proof {
        lemma_mul_le(g.den as int, rsqc as int, u64::MAX as int, 2_000_000_000_000_000_000);
        assert(g.den * rsqc >= 1) by (nonlinear_arith)
            requires
                g.den >= 1,
                rsqc >= 1,
        ;
    }
    let den: u128 = (g.den as u128) * (rsqc as u128);
    let mag: u128 = num / den;
    if mag > 9_223_372_036_854_775_807 {
        return None;
    }
    let radius: u64 = isqrt64(rsq);
    proof {
        let rsqg = radial_sq_spec(pos);
        assert(pos.x * pos.x >= 0 && pos.y * pos.y >= 0) by (nonlinear_arith);
        assert(radius >= 1 && radius <= 2_000_000_000) by (nonlinear_arith)
            requires
                is_isqrt(rsqg, radius as int),
                1 <= rsqg <= 2_000_000_000_000_000_000,
        ;
        assert(-(radius as int) <= pos.x <= radius && -(radius as int) <= pos.y <= radius)
            by (nonlinear_arith)
            requires
                pos.x * pos.x <= rsqg,
                pos.y * pos.y <= rsqg,
                rsqg < (radius + 1) * (radius + 1),
                radius >= 0,
        ;
    }
    let fx: i64 = neg_scale_component(pos.x, mag, radius);
    let fy: i64 = neg_scale_component(pos.y, mag, radius);
    Some(Vec3Fx { x: fx, y: fy, z: 0 })
}

/// The estimated tire-ground contact point: the wheel center pushed
/// toward the axis by the wheel radius.
pub open spec fn ground_point_spec(center: Vec3Fx, axle_radius: int) -> (int, int, int) {
    let rsq = radial_sq_spec(center);
    let radius = isqrt_spec(rsq);
    if radius == 0 {
        (center.x as int, center.y as int, center.z as int)
    } else {
        (
            center.x - mul_div_trunc(center.x as int, axle_radius, radius),
            center.y - mul_div_trunc(center.y as int, axle_radius, radius),
            center.z as int,
        )
    }
}

/// `ground_point_spec` packed back into a vector; its components stay
/// within the coordinate range whenever the center is in range and the
/// wheel radius is at most `RADIUS_LIMIT`.
pub open spec fn ground_point_vec_spec(center: Vec3Fx, axle_radius: int) -> Vec3Fx {
    let (gx, gy, gz) = ground_point_spec(center, axle_radius);
    Vec3Fx { x: gx as i64, y: gy as i64, z: gz as i64 }
}

/// Computes the estimated tire-ground contact point under a wheel.
pub fn ground_contact_point(center: Vec3Fx, axle_radius: i64) -> (gp: Vec3Fx)
    requires
        center.in_range(),
        0 <= axle_radius <= RADIUS_LIMIT,
    ensures
        gp == ground_point_vec_spec(center, axle_radius as int),
        (gp.x as int, gp.y as int, gp.z as int) == ground_point_spec(center, axle_radius as int),
        gp.in_range(),
        gp.z == center.z,
{
    let rsq: u64 = radial_sq(center.x, center.y);
    if rsq == 0 {
        proof {
            assert(center.x * center.x >= 0 && center.y * center.y >= 0) by (nonlinear_arith);
            assert(isqrt_spec(0) == 0);
        }
        return center;
    }
    let radius: u64 = isqrt64(rsq);
    proof {
        let rsqg = radial_sq_spec(center);
        assert(center.x * center.x >= 0 && center.y * center.y >= 0) by (nonlinear_arith);
        assert(radius >= 1) by (nonlinear_arith)
            requires
                is_isqrt(rsqg, radius as int),
                rsqg >= 1,
        ;
        assert(-(radius as int) <= center.x <= radius && -(radius as int) <= center.y <= radius)
            by (nonlinear_arith)
            requires
                center.x * center.x <= rsqg,
                center.y * center.y <= rsqg,
                rsqg < (radius + 1) * (radius + 1),
                radius >= 0,
        ;
        lemma_mul_le(COORD_LIMIT as int, axle_radius as int, COORD_LIMIT as int, RADIUS_LIMIT as int);
        lemma_div_le_self(COORD_LIMIT as int * axle_radius, radius as int);
        lemma_offset_within_radius(center.x as int, axle_radius as int, radius as int);
        lemma_offset_within_radius(center.y as int, axle_radius as int, radius as int);
    }
    let tx: i64 = scale_i64(center.x, axle_radius as u64, radius);
    let ty: i64 = scale_i64(center.y, axle_radius as u64, radius);
    Vec3Fx { x: center.x - tx, y: center.y - ty, z: center.z }
}

/// Pulling a coordinate toward the axis by a bounded wheel radius keeps
/// it between the wheel radius' negation and the coordinate itself.
proof fn lemma_offset_within_radius(v: int, axle_radius: int, radius: int)
    by (nonlinear_arith)
    requires
        0 <= axle_radius,
        1 <= radius,
        -radius <= v <= radius,
    ensures
        v >= 0 ==> 0 <= mul_div_trunc(v, axle_radius, radius) <= axle_radius,
        v < 0 ==> -axle_radius <= mul_div_trunc(v, axle_radius, radius) <= 0,
{
}

/// What a wheel receives this step: a ground resistance impulse while
/// in contact, ordinary gravity while airborne.
#[derive(Clone, Copy, Debug, PartialEq, Eq, Structural)]
pub enum WheelForce {
    /// The ground push-back impulse; it replaces gravity this step.
    Resistance(Vec3Fx),
    /// No contact: the wheel gets the ordinary gravity force instead.
    Gravity,
}

impl TerrainBody {
    /// Decides a wheel's per-step force: estimates the tire-ground
    /// contact point under the wheel center, queries the terrain there,
    /// and reports either the nonzero push-back impulse or that the
    /// wheel is airborne.
    pub fn wheel_ground_response(&self, center: Vec3Fx, axle_radius: i64) -> (wf: WheelForce)
        requires
            self.wf(),
            center.in_range(),
            0 <= axle_radius <= RADIUS_LIMIT,
        ensures
            ({
                let gp = ground_point_vec_spec(center, axle_radius as int);
                match wf {
                    WheelForce::Resistance(i) => {
                        &&& (i.x as int, i.y as int, i.z as int) == self.resistance_spec(gp)
                        &&& self.resistance_spec(gp) != (0int, 0int, 0int)
                    },
                    WheelForce::Gravity => self.resistance_spec(gp) == (0int, 0int, 0int),
                }
            }),
    {
        let gp = ground_contact_point(center, axle_radius);
        let imp = self.compute_resistance(gp);
        if imp.x != 0 || imp.y != 0 || imp.z != 0 {
            WheelForce::Resistance(imp)
        } else {
            WheelForce::Gravity
        }
    }
}

/// On an all-zero heightmap the wall sits at the inner radius
/// everywhere: every query point sees `radius_start` as its wall
/// radius, whatever cell it selects.
pub proof fn lemma_flat_map_wall_radius(t: TerrainBody, p: Vec3Fx)
    requires
        t.wf(),
        forall|i: int| 0 <= i < t.map.data@.len() ==> t.map.data@[i] == 0,
    ensures
        t.wall_radius_at_spec(p) == t.config.radius_start,
{
    let w = t.map.width as int;
    let h = t.map.height as int;
    let col = column_spec(atan2_micro_spec(p.x as int, p.y as int), w);
    let row = row_spec(p.z as int, h);
    let idx = (row % h) * w + col % w;
    assert(0 <= idx < h * w) by (nonlinear_arith)
        requires
            idx == (row % h) * w + col % w,
            1 <= w,
            1 <= h,
            0 <= row % h < h,
            0 <= col % w < w,
    ;
    assert(t.map.data@[idx] == 0);
    let rs = t.config.radius_start as int;
    let re = t.config.radius_end as int;
    assert((rs * (255 - 0) + re * 0) / 255 == rs) by (nonlinear_arith)
        requires
            0 < rs,
    ;
}

/// A query point at or outside the wall radius of its heightmap cell —
/// zero or negative penetration — receives exactly the zero impulse.
pub proof fn lemma_resistance_zero_outside(t: TerrainBody, p: Vec3Fx)
    requires
        isqrt_spec(radial_sq_spec(p)) >= t.wall_radius_at_spec(p),
    ensures
        t.resistance_pen_spec(p) == 0,
        t.resistance_spec(p) == (0int, 0int, 0int),
{
}

/// A point exactly on the wall of its heightmap cell — the boundary
/// with zero penetration — receives the zero impulse, whatever the
/// heightmap byte prescribed there.
pub proof fn lemma_resistance_zero_at_surface(t: TerrainBody, p: Vec3Fx)
    requires
        isqrt_spec(radial_sq_spec(p)) == t.wall_radius_at_spec(p),
    ensures
        t.resistance_spec(p) == (0int, 0int, 0int),
{
    lemma_resistance_zero_outside(t, p);
}

/// A penetrating point (radius strictly below the wall radius of its
/// cell) receives an impulse whose scaled magnitude is exactly the
/// strictly positive `(r_expected - radius) * STIFFNESS`, and which is
/// directed away from the axis, toward increasing radius: its
/// components lie along the radial line through the query point, each
/// one's sign matching the point's coordinate.
pub proof fn lemma_resistance_penetrating(t: TerrainBody, p: Vec3Fx)
    requires
        radial_sq_spec(p) != 0,
        isqrt_spec(radial_sq_spec(p)) < t.wall_radius_at_spec(p),
    ensures
        t.resistance_pen_spec(p) == (isqrt_spec(radial_sq_spec(p)) - t.wall_radius_at_spec(p))
            * (STIFFNESS as int),
        t.resistance_pen_spec(p) < 0,
        ({
            let (ix, iy, iz) = t.resistance_spec(p);
            let radius = isqrt_spec(radial_sq_spec(p));
            let pen = t.resistance_pen_spec(p);
            &&& ix == mul_div_trunc(p.x as int, -pen, radius)
            &&& iy == mul_div_trunc(p.y as int, -pen, radius)
            &&& iz == 0
            &&& (p.x >= 0 ==> ix >= 0)
            &&& (p.x <= 0 ==> ix <= 0)
            &&& (p.y >= 0 ==> iy >= 0)
            &&& (p.y <= 0 ==> iy <= 0)
            &&& (pen * p.x) * p.y - (pen * p.y) * p.x == 0
        }),
{
    let radius = isqrt_spec(radial_sq_spec(p));
    let wall = t.wall_radius_at_spec(p);
    let pen = t.resistance_pen_spec(p);
    assert((radius - wall) * (STIFFNESS as int) < 0) by (nonlinear_arith)
        requires
            radius - wall < 0,
            STIFFNESS == 5,
    ;
    assert(p.x * p.x >= 0 && p.y * p.y >= 0) by (nonlinear_arith);
    lemma_isqrt_is_isqrt(radial_sq_spec(p));
    assert(radius >= 1) by (nonlinear_arith)
        requires
            radial_sq_spec(p) >= 1,
            radial_sq_spec(p) < (radius + 1) * (radius + 1),
            radius >= 0,
    ;
    lemma_mul_div_trunc_sign(p.x as int, -pen, radius);
    lemma_mul_div_trunc_sign(p.y as int, -pen, radius);
    assert((pen * p.x) * p.y - (pen * p.y) * p.x == 0) by (nonlinear_arith);
}

/// A positive integer is the exact integer square root of its own
/// square.
proof fn lemma_isqrt_of_square(a: int)
    requires
        0 <= a,
    ensures
        isqrt_spec(a * a) == a,
{
    assert(a * a >= 0 && a * a <= a * a && a * a < (a + 1) * (a + 1)) by (nonlinear_arith)
        requires
            0 <= a,
    ;
    lemma_isqrt_is_isqrt(a * a);
    lemma_isqrt_unique(a * a, a, isqrt_spec(a * a));
}

/// On a coordinate axis the rounding vanishes: a penetrating point
/// with zero y-coordinate receives exactly the scaled penetration as
/// its outward impulse, with both other components zero — the full
/// magnitude of the stated law, not just a truncation of it.
pub proof fn lemma_resistance_axis_aligned_exact(t: TerrainBody, p: Vec3Fx)
    requires
        p.y == 0,
        p.x != 0,
        isqrt_spec(radial_sq_spec(p)) < t.wall_radius_at_spec(p),
    ensures
        ({
            let (ix, iy, iz) = t.resistance_spec(p);
            let pen = t.resistance_pen_spec(p);
            &&& iy == 0
            &&& iz == 0
            &&& (p.x > 0 ==> ix == -pen)
            &&& (p.x < 0 ==> ix == pen)
        }),
{
    let ax = if p.x >= 0 {
        p.x as int
    } else {
        -(p.x as int)
    };
    assert(radial_sq_spec(p) == ax * ax && ax * ax >= 1) by (nonlinear_arith)
        requires
            p.y == 0,
            p.x != 0,
            ax == if p.x >= 0 {
                p.x as int
            } else {
                -(p.x as int)
            },
    ;
    lemma_isqrt_of_square(ax);
    let pen = t.resistance_pen_spec(p);
    assert((ax - t.wall_radius_at_spec(p)) * (STIFFNESS as int) < 0) by (nonlinear_arith)
        requires
            ax - t.wall_radius_at_spec(p) < 0,
            STIFFNESS == 5,
    ;
    assert(ax * (-pen) / ax == -pen) by (nonlinear_arith)
        requires
            ax >= 1,
            -pen >= 0,
    ;
    lemma_mul_div_trunc_sign(p.y as int, -pen, ax);
}

/// The terrain mass never decreases when the density, either wall
/// radius, or the length grows while the rest stay fixed (stated for a
/// pointwise comparison, which covers each parameter alone).
pub proof fn lemma_mass_monotone(c1: MapConfig, c2: MapConfig)
    requires
        c1.valid(),
        c2.valid(),
        c1.density <= c2.density,
        c1.radius_start <= c2.radius_start,
        c1.radius_end <= c2.radius_end,
        c1.length <= c2.length,
    ensures
        TerrainBody::mass_spec(c1) <= TerrainBody::mass_spec(c2),
{
    let r1 = (c1.radius_start + c1.radius_end) / 2;
    let r2 = (c2.radius_start + c2.radius_end) / 2;
    let pi = PI_MICRO as int;
    lemma_mul_le(c1.density * pi, r1, c2.density * pi, r2);
    lemma_mul_le(c1.density * pi * r1, r1, c2.density * pi * r2, r2);
    lemma_mul_le(
        c1.density * pi * r1 * r1,
        c1.length as int,
        c2.density * pi * r2 * r2,
        c2.length as int,
    );
    vstd::arithmetic::div_mod::lemma_div_is_ordered(
        c1.density * pi * r1 * r1 * c1.length,
        c2.density * pi * r2 * r2 * c2.length,
        1_000_000_000_000_000,
    );
}

/// The gravity force has an exactly zero axial component and opposes
/// the body's radial position: before rounding it is the nonnegative
/// magnitude times `(-x, -y, 0)`, an exact negative multiple of the
/// radial position, and each rounded component's sign opposes its
/// coordinate.
pub proof fn lemma_gravity_anti_radial(
    g: GravityParams,
    body_mass: int,
    terrain_mass: int,
    p: Vec3Fx,
)
    requires
        g.valid(),
        0 <= body_mass,
        0 <= terrain_mass,
    ensures
        gravity_magnitude_spec(g, body_mass, terrain_mass, p) >= 0,
        ({
            let mag = gravity_magnitude_spec(g, body_mass, terrain_mass, p);
            (-mag * p.x) * p.y - (-mag * p.y) * p.x == 0
        }),
        ({
            let f = gravity_force_spec(g, body_mass, terrain_mass, p);
            f matches Some((fx, fy, fz)) ==> {
                &&& fz == 0
                &&& (p.x >= 0 ==> fx <= 0)
                &&& (p.x <= 0 ==> fx >= 0)
                &&& (p.y >= 0 ==> fy <= 0)
                &&& (p.y <= 0 ==> fy >= 0)
            }
        }),
{
    let rsq = radial_sq_spec(p);
    let rsqc = clamped_radial_sq_spec(p);
    assert(p.x * p.x >= 0 && p.y * p.y >= 0) by (nonlinear_arith);
    let num = 1000 * g.num * body_mass * terrain_mass;
    assert(num >= 0 && g.den * rsqc >= 1) by (nonlinear_arith)
        requires
            g.num >= 1,
            body_mass >= 0,
            terrain_mass >= 0,
            g.den >= 1,
            rsqc >= 1,
            num == 1000 * g.num * body_mass * terrain_mass,
    ;
    let mag = gravity_magnitude_spec(g, body_mass, terrain_mass, p);
    assert(mag >= 0) by (nonlinear_arith)
        requires
            mag == num / (g.den * rsqc),
            num >= 0,
            g.den * rsqc >= 1,
    ;
    assert((-mag * p.x) * p.y - (-mag * p.y) * p.x == 0) by (nonlinear_arith);
    if rsq != 0 && mag <= i64::MAX {
        let radius = isqrt_spec(rsq);
        lemma_isqrt_is_isqrt(rsq);
        assert(radius >= 1) by (nonlinear_arith)
            requires
                rsq >= 1,
                rsq < (radius + 1) * (radius + 1),
                radius >= 0,
        ;
        lemma_mul_div_trunc_sign(p.x as int, mag, radius);
        lemma_mul_div_trunc_sign(p.y as int, mag, radius);
    }
}

/// On a coordinate axis the rounded gravity force is exactly
/// anti-parallel to the radial position: for a body with zero
/// y-coordinate the force is the full magnitude straight toward the
/// axis, with both other components zero.
pub proof fn lemma_gravity_axis_aligned_exact(
    g: GravityParams,
    body_mass: int,
    terrain_mass: int,
    p: Vec3Fx,
)
    requires
        g.valid(),
        0 <= body_mass,
        0 <= terrain_mass,
        p.y == 0,
        p.x != 0,
    ensures
        ({
            let mag = gravity_magnitude_spec(g, body_mass, terrain_mass, p);
            let f = gravity_force_spec(g, body_mass, terrain_mass, p);
            f matches Some((fx, fy, fz)) ==> {
                &&& fy == 0
                &&& fz == 0
                &&& (p.x > 0 ==> fx == -mag)
                &&& (p.x < 0 ==> fx == mag)
            }
        }),
{
    lemma_gravity_anti_radial(g, body_mass, terrain_mass, p);
    let ax = if p.x >= 0 {
        p.x as int
    } else {
        -(p.x as int)
    };
    assert(radial_sq_spec(p) == ax * ax && ax * ax >= 1) by (nonlinear_arith)
        requires
            p.y == 0,
            p.x != 0,
            ax == if p.x >= 0 {
                p.x as int
            } else {
                -(p.x as int)
            },
    ;
    lemma_isqrt_of_square(ax);
    let mag = gravity_magnitude_spec(g, body_mass, terrain_mass, p);
    if mag <= i64::MAX {
        assert(ax * mag / ax == mag) by (nonlinear_arith)
            requires
                ax >= 1,
                mag >= 0,
        ;
        lemma_mul_div_trunc_sign(p.y as int, mag, ax);
    }
}

/// Two bodies at the same radial distance feel the same gravity,
/// whatever their axial positions: the force ignores the axial
/// coordinate entirely.
pub proof fn lemma_gravity_axial_invariant(
    g: GravityParams,
    body_mass: int,
    terrain_mass: int,
    p1: Vec3Fx,
    p2: Vec3Fx,
)
    requires
        p1.x == p2.x,
        p1.y == p2.y,
    ensures
        gravity_magnitude_spec(g, body_mass, terrain_mass, p1) == gravity_magnitude_spec(
            g,
            body_mass,
            terrain_mass,
            p2,
        ),
        gravity_force_spec(g, body_mass, terrain_mass, p1) == gravity_force_spec(
            g,
            body_mass,
            terrain_mass,
            p2,
        ),
{
}

} // verus!
