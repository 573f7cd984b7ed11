use vandals_and_heroes::config::MapConfig;
use vandals_and_heroes::config::ConfigError;
use vandals_and_heroes::heightmap::HeightMap;
use vandals_and_heroes::physics::TerrainBody;
use vandals_and_heroes::fixed::Vec3Fx;

fn map_config() -> MapConfig {
    MapConfig { radius_start: 10_000, radius_end: 15_000, length: 100_000, density: 1_000 }
}

fn flat_terrain() -> TerrainBody {
    // A 4x4 all-zero heightmap: the wall sits at the inner radius
    // everywhere.
    TerrainBody::new(&map_config(), [4, 4], vec![0u8; 16])
}

#[test]
fn mass_of_reference_cylinder() {
    // radius_inner 10, radius_outer 15, length 100, density 1.0:
    // pi * 12.5^2 * 100 ~= 49087.4 units, in milli-units.
    let terrain = flat_terrain();
    let m = terrain.mass();
    assert_eq!(m, 49_087_390);
    assert!(49_087_000 <= m && m <= 49_088_000);
}

#[test]
fn mass_monotone_in_each_parameter() {
    let base = flat_terrain().mass();
    let denser = TerrainBody::new(
        &MapConfig { density: 2_000, ..map_config() },
        [4, 4],
        vec![0u8; 16],
    );
    let wider_inner = TerrainBody::new(
        &MapConfig { radius_start: 12_000, ..map_config() },
        [4, 4],
        vec![0u8; 16],
    );
    let wider_outer = TerrainBody::new(
        &MapConfig { radius_end: 20_000, ..map_config() },
        [4, 4],
        vec![0u8; 16],
    );
    let longer = TerrainBody::new(
        &MapConfig { length: 200_000, ..map_config() },
        [4, 4],
        vec![0u8; 16],
    );
    assert!(denser.mass() > base);
    assert!(wider_inner.mass() > base);
    assert!(wider_outer.mass() > base);
    assert!(longer.mass() > base);
}

#[test]
fn resistance_zero_exactly_at_surface() {
    // On an all-zero map the wall is at the inner radius; a point at
    // exactly that radius has zero penetration and gets no impulse.
    let terrain = flat_terrain();
    let r = terrain.compute_resistance(Vec3Fx { x: 10_000, y: 0, z: 0 });
    assert_eq!(r, Vec3Fx { x: 0, y: 0, z: 0 });
}

#[test]
fn resistance_zero_outside_wall() {
    let terrain = flat_terrain();
    let r = terrain.compute_resistance(Vec3Fx { x: 11_000, y: 0, z: 0 });
    assert_eq!(r, Vec3Fx { x: 0, y: 0, z: 0 });
}

#[test]
fn resistance_of_penetrating_wheel() {
    // A wheel at radius 9 inside a wall at radius 10: impulse magnitude
    // (10 - 9) * 5 = 5 units, directed outward, away from the axis.
    let terrain = flat_terrain();
    let r = terrain.compute_resistance(Vec3Fx { x: 9_000, y: 0, z: 0 });
    assert_eq!(r, Vec3Fx { x: 5_000, y: 0, z: 0 });
    let r = terrain.compute_resistance(Vec3Fx { x: 0, y: 9_000, z: 0 });
    assert_eq!(r, Vec3Fx { x: 0, y: 5_000, z: 0 });
    let r = terrain.compute_resistance(Vec3Fx { x: -9_000, y: 0, z: 0 });
    assert_eq!(r, Vec3Fx { x: -5_000, y: 0, z: 0 });
    let r = terrain.compute_resistance(Vec3Fx { x: 6_364, y: 6_364, z: 0 });
    assert_eq!(r, Vec3Fx { x: 3_535, y: 3_535, z: 0 });
    assert_eq!(r.z, 0);
}

#[test]
fn resistance_magnitude_scales_with_penetration() {
    let terrain = flat_terrain();
    let shallow = terrain.compute_resistance(Vec3Fx { x: 9_500, y: 0, z: 0 });
    let deep = terrain.compute_resistance(Vec3Fx { x: 9_000, y: 0, z: 0 });
    assert_eq!(shallow.x, 2_500);
    assert_eq!(deep.x, 5_000);
    assert_eq!(deep.x, 2 * shallow.x);
}

#[test]
fn resistance_boundary_zero_for_every_byte() {
    // For every heightmap byte the point exactly on the blended wall
    // radius has zero penetration and gets the zero impulse, and a
    // point one unit deeper gets exactly the stiffness-scaled impulse.
    for h in 0..=255u8 {
        let terrain = TerrainBody::new(&map_config(), [1, 1], vec![h]);
        let rs = 10_000i64;
        let re = 15_000i64;
        let r_expected = (rs * (255 - h as i64) + re * h as i64) / 255;
        let at_wall = terrain.compute_resistance(Vec3Fx { x: r_expected, y: 0, z: 0 });
        assert_eq!(at_wall, Vec3Fx { x: 0, y: 0, z: 0 });
        let sunk = terrain.compute_resistance(Vec3Fx { x: r_expected - 1_000, y: 0, z: 0 });
        assert_eq!(sunk, Vec3Fx { x: 5_000, y: 0, z: 0 });
    }
}

#[test]
fn resistance_zero_on_axis() {
    let terrain = flat_terrain();
    let r = terrain.compute_resistance(Vec3Fx { x: 0, y: 0, z: 0 });
    assert_eq!(r, Vec3Fx { x: 0, y: 0, z: 0 });
}

#[test]
fn resistance_reads_heightmap_byte() {
    // One raised texel: byte 255 puts the wall at the outer radius in
    // that cell, so a point clear of the inner radius still penetrates.
    let mut data = vec![0u8; 16];
    data[0] = 255;
    let terrain = TerrainBody::new(&map_config(), [4, 4], data);
    let r = terrain.compute_resistance(Vec3Fx { x: 14_000, y: 0, z: 0 });
    // Wall at 15 units, point at 14: impulse (15 - 14) * 5 = 5 units,
    // pushing the point back outward.
    assert_eq!(r, Vec3Fx { x: 5_000, y: 0, z: 0 });
    // The same point over a zero texel (half a turn away) is outside.
    let r = terrain.compute_resistance(Vec3Fx { x: -14_000, y: 0, z: 0 });
    assert_eq!(r, Vec3Fx { x: 0, y: 0, z: 0 });
}

#[test]
fn terrain_new_stores_inputs() {
    let terrain = flat_terrain();
    assert_eq!(terrain.config, map_config());
    assert_eq!(terrain.map.width, 4);
    assert_eq!(terrain.map.height, 4);
    assert_eq!(terrain.map.data.len(), 16);
}

#[test]
fn heightmap_rejects_empty_axes() {
    assert_eq!(
        HeightMap::new(0, 4, vec![]).err(),
        Some(ConfigError::EmptyHeightMap)
    );
    assert_eq!(
        HeightMap::new(4, 0, vec![]).err(),
        Some(ConfigError::EmptyHeightMap)
    );
}

#[test]
fn heightmap_rejects_oversized_axes() {
    assert_eq!(
        HeightMap::new(16_385, 1, vec![0u8; 16_385]).err(),
        Some(ConfigError::HeightMapTooLarge)
    );
}

#[test]
fn heightmap_rejects_mismatched_buffer() {
    assert_eq!(
        HeightMap::new(4, 4, vec![0u8; 15]).err(),
        Some(ConfigError::HeightMapSizeMismatch)
    );
}

#[test]
fn heightmap_sampling_wraps_both_axes() {
    let mut data = vec![0u8; 16];
    data[0] = 7;
    let hm = HeightMap::new(4, 4, data).unwrap();
    assert_eq!(hm.sample(0, 0), 7);
    assert_eq!(hm.sample(4, 0), 7);
    assert_eq!(hm.sample(0, 4), 7);
    assert_eq!(hm.sample(8, 8), 7);
    assert_eq!(hm.sample(1, 0), 0);
}

#[test]
fn config_validation_reports_each_fault() {
    let good = map_config();
    assert!(good.validate().is_ok());
    assert_eq!(
        MapConfig { radius_start: 0, ..good }.validate().err(),
        Some(ConfigError::NonPositiveRadius)
    );
    assert_eq!(
        MapConfig { radius_end: 9_000, ..good }.validate().err(),
        Some(ConfigError::InvertedRadius)
    );
    assert_eq!(
        MapConfig { radius_start: 10_000_001, radius_end: 10_000_002, ..good }
            .validate()
            .err(),
        Some(ConfigError::RadiusTooLarge)
    );
    assert_eq!(
        MapConfig { length: 0, ..good }.validate().err(),
        Some(ConfigError::NonPositiveLength)
    );
    assert_eq!(
        MapConfig { length: 100_000_001, ..good }.validate().err(),
        Some(ConfigError::LengthTooLarge)
    );
    assert_eq!(
        MapConfig { density: -5, ..good }.validate().err(),
        Some(ConfigError::NonPositiveDensity)
    );
    assert_eq!(
        MapConfig { density: 1_000_001, ..good }.validate().err(),
        Some(ConfigError::DensityTooLarge)
    );
}
