//! Numeric level and vehicle configuration.
//!
//! The surrounding application parses its configuration files and hands
//! this crate already-decoded numbers; everything here is fixed-point
//! (milli-units).  A map is the radius range of the cylinder wall, the
//! cylinder's axial length and the material density; a car is a set of
//! axles, each placing its wheels at fixed lateral offsets.

use vstd::prelude::*;

verus! {

use crate::fixed::{Vec3Fx, PI_MICRO};

/// Largest accepted wall radius, in milli-units.
pub const RADIUS_LIMIT: i64 = 10_000_000;

/// Largest accepted cylinder length, in milli-units.
pub const LENGTH_LIMIT: i64 = 100_000_000;

/// Largest accepted material density, in milli-units.
pub const DENSITY_LIMIT: i64 = 1_000_000;

/// A fatal level-configuration fault, surfaced before a level starts.
#[derive(Clone, Copy, Debug, PartialEq, Eq, Structural)]
pub enum ConfigError {
    /// The inner wall radius is zero or negative.
    NonPositiveRadius,
    /// The outer wall radius is below the inner one.
    InvertedRadius,
    /// The outer wall radius is beyond `RADIUS_LIMIT`.
    RadiusTooLarge,
    /// The cylinder length is zero or negative.
    NonPositiveLength,
    /// The cylinder length is beyond `LENGTH_LIMIT`.
    LengthTooLarge,
    /// The material density is zero or negative.
    NonPositiveDensity,
    /// The material density is beyond `DENSITY_LIMIT`.
    DensityTooLarge,
    /// The heightmap has a zero-sized axis.
    EmptyHeightMap,
    /// A heightmap axis is beyond `heightmap::DIM_LIMIT`.
    HeightMapTooLarge,
    /// The heightmap byte buffer does not match its extent.
    HeightMapSizeMismatch,
}

/// Physical parameters of the cylindrical map.
///
/// `radius_start` and `radius_end` bound the wall radius (the heightmap
/// interpolates between them), `length` is the axial extent and
/// `density` the material density used for the terrain's mass.
#[derive(Clone, Copy, Debug, PartialEq, Eq, Structural)]
pub struct MapConfig {
    pub radius_start: i64,
    pub radius_end: i64,
    pub length: i64,
    pub density: i64,
}

impl MapConfig {
    /// The parameter ranges every physics query relies on.
    pub open spec fn valid(self) -> bool {
        &&& 0 < self.radius_start <= self.radius_end <= RADIUS_LIMIT
        &&& 0 < self.length <= LENGTH_LIMIT
        &&& 0 < self.density <= DENSITY_LIMIT
    }

    /// The verdict `validate` returns, with the first failing check
    /// winning.
    pub open spec fn validate_spec(self) -> Result<(), ConfigError> {
        if self.radius_start <= 0 {
            Err(ConfigError::NonPositiveRadius)
        } else if self.radius_end < self.radius_start {
            Err(ConfigError::InvertedRadius)
        } else if self.radius_end > RADIUS_LIMIT {
            Err(ConfigError::RadiusTooLarge)
        } else if self.length <= 0 {
            Err(ConfigError::NonPositiveLength)
        } else if self.length > LENGTH_LIMIT {
            Err(ConfigError::LengthTooLarge)
        } else if self.density <= 0 {
            Err(ConfigError::NonPositiveDensity)
        } else if self.density > DENSITY_LIMIT {
            Err(ConfigError::DensityTooLarge)
        } else {
            Ok(())
        }
    }

    /// Checks the parameters, reporting the first fault; succeeds
    /// exactly on valid configurations.
    pub fn validate(&self) -> (r: Result<(), ConfigError>)
        ensures
            r == self.validate_spec(),
            r is Ok <==> self.valid(),
    {
        if self.radius_start <= 0 {
            Err(ConfigError::NonPositiveRadius)
        } else if self.radius_end < self.radius_start {
            Err(ConfigError::InvertedRadius)
        } else if self.radius_end > RADIUS_LIMIT {
            Err(ConfigError::RadiusTooLarge)
        } else if self.length <= 0 {
            Err(ConfigError::NonPositiveLength)
        } else if self.length > LENGTH_LIMIT {
            Err(ConfigError::LengthTooLarge)
        } else if self.density <= 0 {
            Err(ConfigError::NonPositiveDensity)
        } else if self.density > DENSITY_LIMIT {
            Err(ConfigError::DensityTooLarge)
        } else {
            Ok(())
        }
    }

    /// The axial length that keeps one texel square: the circumference
    /// at the inner radius times the heightmap's aspect ratio.
    pub open spec fn derived_length_spec(radius_start: int, width: int, height: int) -> int {
        (2 * PI_MICRO * radius_start * height) / (1_000_000 * width)
    }

    /// Computes the texel-preserving axial length from the heightmap
    /// extent.
    pub fn derived_length(radius_start: i64, width: u32, height: u32) -> (r: i64)
        requires
            0 < radius_start <= RADIUS_LIMIT,
            1 <= width,
            1 <= height <= 65_536,
        ensures
            r == Self::derived_length_spec(radius_start as int, width as int, height as int),
            r >= 0,
    {
        proof {
            assert(2 * (PI_MICRO as int) * radius_start <= 62_831_860_000_000)
                by (nonlinear_arith)
                requires
                    PI_MICRO == 3_141_593,
                    0 < radius_start <= 10_000_000,
            ;
        }
        let a: u128 = 2 * (PI_MICRO as u128) * (radius_start as u128);
        proof {
            assert(a * (height as u128) <= 62_831_860_000_000 * 65_536) by (nonlinear_arith)
                requires
                    a <= 62_831_860_000_000,
                    height <= 65_536,
            ;
        }
        let num: u128 = a * (height as u128);
        let den: u128 = 1_000_000 * (width as u128);
        proof {
            assert(num / den <= num) by (nonlinear_arith)
                requires
                    den >= 1,
                    num >= 0,
            ;
        }
        (num / den) as i64
    }

    /// The configuration with a missing (zero) length replaced by the
    /// derived one, as the level loader does; a configured length is
    /// kept as it is.
    pub fn with_derived_length(&self, width: u32, height: u32) -> (r: MapConfig)
        requires
            0 < self.radius_start <= RADIUS_LIMIT,
            1 <= width,
            1 <= height <= 65_536,
        ensures
            r.radius_start == self.radius_start,
            r.radius_end == self.radius_end,
            r.density == self.density,
            self.length != 0 ==> r.length == self.length,
            self.length == 0 ==> r.length == Self::derived_length_spec(
                self.radius_start as int,
                width as int,
                height as int,
            ),
    {
        if self.length == 0 {
            MapConfig {
                length: Self::derived_length(self.radius_start, width, height),
                ..*self
            }
        } else {
            *self
        }
    }
}

/// One axle: the wheels' lateral offsets along the axle and the axle's
/// position in the car body's local frame.
#[derive(Clone, Debug)]
pub struct AxleConfig {
    /// Lateral offset of each wheel on this axle, in milli-units.
    pub xs: Vec<i64>,
    /// Vertical placement of the axle in body space, in milli-units.
    pub y: i64,
    /// Longitudinal placement of the axle in body space, in
    /// milli-units.
    pub z: i64,
}

impl AxleConfig {
    /// The body-local offset of each wheel on this axle, one per
    /// lateral offset, in the configured order.
    pub fn wheel_offsets(&self) -> (r: Vec<Vec3Fx>)
        ensures
            r@.len() == self.xs@.len(),
            forall|j: int|
                0 <= j < r@.len() ==> #[trigger] r@[j] == (Vec3Fx {
                    x: self.xs@[j],
                    y: self.y,
                    z: self.z,
                }),
    {
        let mut r: Vec<Vec3Fx> = Vec::new();
        let mut i: usize = 0;
        while i < self.xs.len()
            invariant
                i <= self.xs@.len(),
                r@.len() == i,
                forall|j: int|
                    0 <= j < i ==> #[trigger] r@[j] == (Vec3Fx {
                        x: self.xs@[j],
                        y: self.y,
                        z: self.z,
                    }),
            decreases self.xs@.len() - i,
        {
            r.push(Vec3Fx { x: self.xs[i], y: self.y, z: self.z });
            i = i + 1;
        }
        r
    }
}

/// The car: its drive strength and its axles.
#[derive(Clone, Debug)]
pub struct CarConfig {
    /// Forward drive scale, in milli-units.
    pub drive_factor: i64,
    pub axles: Vec<AxleConfig>,
}

} // verus!
