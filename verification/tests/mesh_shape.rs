use vandals_and_heroes::config::{AxleConfig, MapConfig};
use vandals_and_heroes::fixed::Vec3Fx;
use vandals_and_heroes::heightmap::HeightMap;
use vandals_and_heroes::mesh::build_terrain_mesh;
use vandals_and_heroes::shape::{CylinderProxy, TerrainShape};

fn map_config() -> MapConfig {
    MapConfig { radius_start: 10_000, radius_end: 15_000, length: 100_000, density: 1_000 }
}

#[test]
fn mesh_of_two_column_map() {
    // Width 2, height 1, bytes [0, 255]: a (3 x 2) lattice, the middle
    // column pushed to the outer radius at half a turn.
    let hm = HeightMap::new(2, 1, vec![0, 255]).unwrap();
    let mesh = build_terrain_mesh(&map_config(), &hm);
    assert_eq!(mesh.vertices.len(), 6);
    assert_eq!(mesh.triangles.len(), 4);
    assert_eq!(mesh.vertices[0], Vec3Fx { x: 10_000, y: 0, z: -50_000 });
    assert_eq!(mesh.vertices[1], Vec3Fx { x: -15_000, y: 0, z: -50_000 });
    assert_eq!(mesh.vertices[2], Vec3Fx { x: 10_000, y: 0, z: -50_000 });
    assert_eq!(mesh.vertices[3], Vec3Fx { x: 10_000, y: 0, z: 50_000 });
    assert_eq!(mesh.vertices[4], Vec3Fx { x: -15_000, y: 0, z: 50_000 });
    assert_eq!(mesh.vertices[5], Vec3Fx { x: 10_000, y: 0, z: 50_000 });
    assert_eq!(mesh.triangles[0], [0, 1, 3]);
    assert_eq!(mesh.triangles[1], [1, 4, 3]);
    assert_eq!(mesh.triangles[2], [1, 2, 4]);
    assert_eq!(mesh.triangles[3], [2, 5, 4]);
}

#[test]
fn mesh_seam_is_closed() {
    // The vertex at column `width` coincides with the vertex at column
    // zero on every row.
    let hm = HeightMap::new(3, 2, vec![10, 20, 30, 40, 50, 60]).unwrap();
    let mesh = build_terrain_mesh(&map_config(), &hm);
    let wp = 4;
    for y in 0..3 {
        assert_eq!(mesh.vertices[y * wp], mesh.vertices[y * wp + 3]);
    }
}

#[test]
fn mesh_triangle_indices_in_bounds() {
    let hm = HeightMap::new(5, 3, vec![0u8; 15]).unwrap();
    let mesh = build_terrain_mesh(&map_config(), &hm);
    assert_eq!(mesh.vertices.len(), 6 * 4);
    assert_eq!(mesh.triangles.len(), 2 * 15);
    for t in mesh.triangles.iter() {
        assert!(t[0] < 24 && t[1] < 24 && t[2] < 24);
    }
}

#[test]
fn derived_length_keeps_texel_aspect() {
    // length = 2 * pi * radius_inner * height / width.
    assert_eq!(MapConfig::derived_length(10_000, 4, 2), 31_415);
    assert_eq!(MapConfig::derived_length(10_000, 2, 2), 62_831);
}

#[test]
fn derive_length_only_when_missing() {
    let configured = map_config().with_derived_length(4, 2);
    assert_eq!(configured.length, 100_000);
    let missing = MapConfig { length: 0, ..map_config() }.with_derived_length(4, 2);
    assert_eq!(missing.length, 31_415);
    assert_eq!(missing.radius_start, 10_000);
    assert_eq!(missing.density, 1_000);
}

#[test]
fn shape_cylinder_blend() {
    let shape = TerrainShape::from_config(&map_config());
    assert_eq!(
        shape.cylinder(0),
        CylinderProxy { half_height: 50_000, radius: 10_000 }
    );
    assert_eq!(
        shape.cylinder(1_000),
        CylinderProxy { half_height: 50_000, radius: 15_000 }
    );
    // The mass proxy sits a fifth of the way between the radii.
    assert_eq!(
        shape.mass_cylinder(),
        CylinderProxy { half_height: 50_000, radius: 11_000 }
    );
}

#[test]
fn shape_support_point_reaches_average_radius() {
    let shape = TerrainShape::from_config(&map_config());
    let p = shape.support_point(Vec3Fx { x: 2_000, y: 0, z: 0 }).unwrap();
    assert_eq!(p, Vec3Fx { x: 12_500, y: 0, z: 0 });
    let p = shape.support_point(Vec3Fx { x: 0, y: 3_000, z: 4_000 }).unwrap();
    assert_eq!(p, Vec3Fx { x: 0, y: 12_500, z: 16_666 });
    assert!(shape.support_point(Vec3Fx { x: 0, y: 0, z: 500 }).is_none());
}

#[test]
fn shape_bounds() {
    let shape = TerrainShape::from_config(&map_config());
    let (mins, maxs) = shape.local_aabb();
    assert_eq!(mins, Vec3Fx { x: -15_000, y: -15_000, z: -50_000 });
    assert_eq!(maxs, Vec3Fx { x: 15_000, y: 15_000, z: 50_000 });
    // sqrt(15000^2 + 50000^2) ~= 52201.5, rounded up so the sphere
    // contains the whole shell.
    assert_eq!(shape.bounding_sphere_radius(), 52_202);
}

#[test]
fn shape_unsupported_queries_answer_none() {
    let shape = TerrainShape::from_config(&map_config());
    let o = Vec3Fx { x: 20_000, y: 0, z: 0 };
    let d = Vec3Fx { x: -1_000, y: 0, z: 0 };
    assert!(shape.cast_ray(o, d).is_none());
    assert!(shape.project_point(o).is_none());
}

#[test]
fn axle_places_each_wheel() {
    let axle = AxleConfig { xs: vec![-1_200, 1_200], y: -500, z: 2_000 };
    let offsets = axle.wheel_offsets();
    assert_eq!(offsets.len(), 2);
    assert_eq!(offsets[0], Vec3Fx { x: -1_200, y: -500, z: 2_000 });
    assert_eq!(offsets[1], Vec3Fx { x: 1_200, y: -500, z: 2_000 });
}
