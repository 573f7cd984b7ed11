use vandals_and_heroes::config::MapConfig;
use vandals_and_heroes::fixed::Vec3Fx;
use vandals_and_heroes::physics::{
    gravity_force, ground_contact_point, GravityParams, TerrainBody, WheelForce,
    GRAVITY_DEN_DEFAULT, GRAVITY_NUM_DEFAULT,
};

fn map_config() -> MapConfig {
    MapConfig { radius_start: 10_000, radius_end: 15_000, length: 100_000, density: 1_000 }
}

fn flat_terrain() -> TerrainBody {
    TerrainBody::new(&map_config(), [4, 4], vec![0u8; 16])
}

#[test]
fn default_gravity_ratio() {
    let g = GravityParams::default();
    assert_eq!(g.num, GRAVITY_NUM_DEFAULT);
    assert_eq!(g.den, GRAVITY_DEN_DEFAULT);
    assert_eq!(g.num, 66_743);
    assert_eq!(g.den, 10_000_000_000);
}

#[test]
fn gravity_pulls_toward_axis() {
    let g = GravityParams::default();
    let mt = flat_terrain().mass();
    let f = gravity_force(&g, 1_500_000, mt, Vec3Fx { x: 12_000, y: 0, z: 0 }).unwrap();
    assert_eq!(f, Vec3Fx { x: -3_412, y: 0, z: 0 });
    let f = gravity_force(&g, 1_500_000, mt, Vec3Fx { x: 0, y: 12_000, z: 0 }).unwrap();
    assert_eq!(f, Vec3Fx { x: 0, y: -3_412, z: 0 });
    let f = gravity_force(&g, 1_500_000, mt, Vec3Fx { x: -12_000, y: 0, z: 0 }).unwrap();
    assert_eq!(f, Vec3Fx { x: 3_412, y: 0, z: 0 });
}

#[test]
fn gravity_axial_component_is_zero() {
    let g = GravityParams::default();
    let mt = flat_terrain().mass();
    let f = gravity_force(&g, 1_500_000, mt, Vec3Fx { x: 12_000, y: 5_000, z: 31_337 }).unwrap();
    assert_eq!(f.z, 0);
    assert_eq!(f, Vec3Fx { x: -2_683, y: -1_118, z: 0 });
    // Signs oppose the radial position.
    assert!(f.x < 0 && f.y < 0);
}

#[test]
fn gravity_ignores_axial_position() {
    // Two bodies at the same radial distance but different axial
    // positions feel the identical force.
    let g = GravityParams::default();
    let mt = flat_terrain().mass();
    let near = gravity_force(&g, 1_500_000, mt, Vec3Fx { x: 12_000, y: 0, z: 1_000 }).unwrap();
    let far = gravity_force(&g, 1_500_000, mt, Vec3Fx { x: 12_000, y: 0, z: 90_000 }).unwrap();
    assert_eq!(near, far);
}

#[test]
fn gravity_zero_on_axis() {
    let g = GravityParams::default();
    let mt = flat_terrain().mass();
    let f = gravity_force(&g, 1_500_000, mt, Vec3Fx { x: 0, y: 0, z: 777 }).unwrap();
    assert_eq!(f, Vec3Fx { x: 0, y: 0, z: 0 });
}

#[test]
fn gravity_clamps_near_axis() {
    // Within one unit of the axis the squared distance is clamped, so
    // the force stays finite and within range.
    let g = GravityParams::default();
    let mt = flat_terrain().mass();
    let f = gravity_force(&g, 1_500_000, mt, Vec3Fx { x: 1, y: 0, z: 0 });
    assert!(f.is_some());
}

#[test]
fn ground_point_drops_by_wheel_radius() {
    let gp = ground_contact_point(Vec3Fx { x: 12_000, y: 0, z: 3_000 }, 2_000);
    assert_eq!(gp, Vec3Fx { x: 10_000, y: 0, z: 3_000 });
    let gp = ground_contact_point(Vec3Fx { x: 8_000, y: 6_000, z: 0 }, 1_000);
    assert_eq!(gp, Vec3Fx { x: 7_200, y: 5_400, z: 0 });
}

#[test]
fn wheel_in_contact_gets_resistance() {
    // Wheel center at radius 10.5, wheel radius 2: the contact point at
    // radius 8.5 is 1.5 units inside the wall, impulse 7.5 units
    // outward.
    let terrain = flat_terrain();
    let wf = terrain.wheel_ground_response(Vec3Fx { x: 10_500, y: 0, z: 0 }, 2_000);
    assert_eq!(
        wf,
        WheelForce::Resistance(Vec3Fx { x: 7_500, y: 0, z: 0 })
    );
}

#[test]
fn airborne_wheel_gets_gravity() {
    let terrain = flat_terrain();
    let wf = terrain.wheel_ground_response(Vec3Fx { x: 15_000, y: 0, z: 0 }, 2_000);
    assert_eq!(wf, WheelForce::Gravity);
}
