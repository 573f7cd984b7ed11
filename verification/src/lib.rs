//! Physics core for a racing game set on the inside of a rotating
//! cylindrical world.
//!
//! The terrain is a cylinder whose surface radius is modulated by a
//! heightmap; rigid bodies are pulled toward the cylinder axis by a
//! synthetic inverse-square gravity, and wheels touching the terrain
//! receive a radial push-back impulse sampled from the heightmap.
//!
//! All quantities are fixed-point integers: lengths, masses and
//! densities in thousandths of a world unit (milli-units), angles in
//! millionths of a full turn (micro-turns).  The floating-point rigid
//! body engine and all rendering live outside this crate and convert at
//! the boundary.

pub mod config;
pub mod fixed;
pub mod heightmap;
pub mod mesh;
pub mod physics;
pub mod shape;
pub mod trig;

pub use config::{AxleConfig, CarConfig, ConfigError, MapConfig};
pub use fixed::Vec3Fx;
pub use heightmap::HeightMap;
pub use mesh::{build_terrain_mesh, TerrainMesh};
pub use physics::{GravityParams, RadialCoordinates, TerrainBody, WheelForce};
pub use shape::TerrainShape;
