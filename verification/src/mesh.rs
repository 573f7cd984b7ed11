//! The explicit heightmap mesh: a ruled triangle mesh wrapping the
//! cylinder, with the per-vertex radius modulated by the heightmap.
//!
//! The lattice has `(width + 1) * (height + 1)` points so that the
//! wraparound seam is closed explicitly: column `width` repeats column
//! zero and row `height` repeats row zero.  Each grid cell becomes two
//! triangles with consistent winding.

use vstd::prelude::*;

verus! {

use crate::config::MapConfig;
use crate::fixed::{lemma_mul_div_trunc_bound, lemma_mul_le, mul_div_trunc, scale_i64, Vec3Fx};
use crate::heightmap::HeightMap;
use crate::physics::{blend_radius, r_expected_spec};
use crate::trig::{cos_micro, cos_micro_spec, sin_micro, sin_micro_spec};

/// The baked terrain collider: lattice vertices and the triangles that
/// tile them.
pub struct TerrainMesh {
    pub vertices: Vec<Vec3Fx>,
    pub triangles: Vec<[u32; 3]>,
}

/// The angle of lattice column `x`, in micro-turns: `x / width` turns.
pub open spec fn vertex_angle_spec(x: int, width: int) -> int {
    (x * 1_000_000) / width
}

/// The axial coordinate of lattice row `y`: `(y / height - 1/2)` of the
/// cylinder length.
pub open spec fn vertex_depth_spec(y: int, height: int, length: int) -> int {
    (y * length) / height - length / 2
}

/// The world position of lattice point `(x, y)`.
pub open spec fn mesh_vertex_spec(c: MapConfig, hm: HeightMap, x: int, y: int) -> Vec3Fx {
    let r = r_expected_spec(c.radius_start as int, c.radius_end as int, hm.sample_spec(x, y));
    let alpha = vertex_angle_spec(x, hm.width as int);
    Vec3Fx {
        x: mul_div_trunc(cos_micro_spec(alpha), r, 1_000_000) as i64,
        y: mul_div_trunc(sin_micro_spec(alpha), r, 1_000_000) as i64,
        z: vertex_depth_spec(y, hm.height as int, c.length as int) as i64,
    }
}

/// The `k`-th triangle of the lattice: triangle `2 * (y * width + x)`
/// and its odd twin tile the cell at `(x, y)`.
pub open spec fn mesh_triangle_spec(width: int, k: int) -> (int, int, int) {
    let cell = k / 2;
    let x = cell % width;
    let y = cell / width;
    let a = y * (width + 1) + x;
    let b = (y + 1) * (width + 1) + x;
    if k % 2 == 0 {
        (a, a + 1, b)
    } else {
        (a + 1, b + 1, b)
    }
}

/// Computes the world position of one lattice point.
fn terrain_vertex(config: &MapConfig, map: &HeightMap, x: u32, y: u32) -> (v: Vec3Fx)
    requires
        config.valid(),
        map.wf(),
        x <= map.width,
        y <= map.height,
    ensures
        v == mesh_vertex_spec(*config, *map, x as int, y as int),
        v.in_range(),
{
    let hval: u8 = map.sample(x, y);
    let r: u64 = blend_radius(config.radius_start, config.radius_end, hval);
    proof {
        assert((x as int) * 1_000_000 <= (map.width as int) * 1_000_000 && (x as int) * 1_000_000
            / (map.width as int) <= 1_000_000) by (nonlinear_arith)
            requires
                0 <= x <= map.width,
                1 <= map.width,
        ;
    }
    let alpha: u64 = (x as u64) * 1_000_000 / (map.width as u64);
    let cosv: i64 = cos_micro(alpha);
    let sinv: i64 = sin_micro(alpha);
    proof {
        lemma_mul_div_trunc_bound(cosv as int, r as int, 1_000_000);
        lemma_mul_div_trunc_bound(sinv as int, r as int, 1_000_000);
    }
    let px: i64 = scale_i64(cosv, r, 1_000_000);
    let py: i64 = scale_i64(sinv, r, 1_000_000);
    proof {
        assert((y as int) * config.length <= (map.height as int) * config.length && (y as int)
            * config.length / (map.height as int) <= config.length) by (nonlinear_arith)
            requires
                0 <= y <= map.height,
                1 <= map.height,
                0 < config.length,
        ;
    }
    proof {
        lemma_mul_le(y as int, config.length as int, 16_384, 100_000_000);
    }
    let zq: u64 = (y as u64) * (config.length as u64) / (map.height as u64);
    let half: i64 = ((config.length as u64) / 2) as i64;
    let pz: i64 = (zq as i64) - half;
    Vec3Fx { x: px, y: py, z: pz }
}

/// Builds the baked terrain mesh: one vertex per lattice point, two
/// triangles per cell, every index within the vertex table.
pub fn build_terrain_mesh(config: &MapConfig, map: &HeightMap) -> (mesh: TerrainMesh)
    requires
        config.valid(),
        map.wf(),
    ensures
        mesh.vertices@.len() == (map.width + 1) * (map.height + 1),
        forall|i: int|
            0 <= i < mesh.vertices@.len() ==> #[trigger] mesh.vertices@[i] == mesh_vertex_spec(
                *config,
                *map,
                i % (map.width + 1),
                i / (map.width + 1),
            ) && mesh.vertices@[i].in_range(),
        mesh.triangles@.len() == 2 * ((map.width as int) * (map.height as int)),
        forall|k: int|
            0 <= k < mesh.triangles@.len() ==> {
                let t = #[trigger] mesh.triangles@[k];
                &&& (t[0] as int, t[1] as int, t[2] as int) == mesh_triangle_spec(
                    map.width as int,
                    k,
                )
                &&& t[0] < mesh.vertices@.len()
                &&& t[1] < mesh.vertices@.len()
                &&& t[2] < mesh.vertices@.len()
            },
{
    let w: u32 = map.width;
    let h: u32 = map.height;
    let wp: u32 = w + 1;
    let hp: u32 = h + 1;
    proof {
        lemma_mul_le(wp as int, hp as int, 16_385, 16_385);
    }
    let total: usize = (wp as usize) * (hp as usize);
    let mut vertices: Vec<Vec3Fx> = Vec::new();
    let mut i: usize = 0;
    while i < total
        invariant
            config.valid(),
            map.wf(),
            w == map.width,
            h == map.height,
            wp == w + 1,
            hp == h + 1,
            total == (wp as int) * (hp as int),
            total <= 16_385 * 16_385,
            i <= total,
            vertices@.len() == i,
            forall|j: int|
                0 <= j < i ==> #[trigger] vertices@[j] == mesh_vertex_spec(
                    *config,
                    *map,
                    j % (wp as int),
                    j / (wp as int),
                ) && vertices@[j].in_range(),
        decreases total - i,
    {
        let x: u32 = (i % (wp as usize)) as u32;
        let y: u32 = (i / (wp as usize)) as u32;
        proof {
            assert((i as int) / (wp as int) < hp) by (nonlinear_arith)
                requires
                    (i as int) < (wp as int) * (hp as int),
                    1 <= wp,
            ;
        }
        let v = terrain_vertex(config, map, x, y);
        vertices.push(v);
        i = i + 1;
    }
    proof {
        lemma_mul_le(w as int, h as int, 16_384, 16_384);
    }
    let tcount: usize = 2 * ((w as usize) * (h as usize));
    let mut triangles: Vec<[u32; 3]> = Vec::new();
    let mut k: usize = 0;
    while k < tcount
        invariant
            w == map.width,
            h == map.height,
            wp == w + 1,
            1 <= w <= 16_384,
            1 <= h <= 16_384,
            tcount == 2 * ((w as int) * (h as int)),
            tcount <= 2 * (16_384 * 16_384),
            k <= tcount,
            triangles@.len() == k,
            forall|j: int|
                0 <= j < k ==> {
                    let t = #[trigger] triangles@[j];
                    &&& (t[0] as int, t[1] as int, t[2] as int) == mesh_triangle_spec(w as int, j)
                    &&& t[0] < (w + 1) * (h + 1)
                    &&& t[1] < (w + 1) * (h + 1)
                    &&& t[2] < (w + 1) * (h + 1)
                },
        decreases tcount - k,
    {
        let cell: usize = k / 2;
        proof {
            assert((cell as int) < (w as int) * (h as int)) by (nonlinear_arith)
                requires
                    cell == k as int / 2,
                    (k as int) < 2 * ((w as int) * (h as int)),
            ;
            assert((cell as int) / (w as int) < h && (cell as int) % (w as int) < w) by (nonlinear_arith)
                requires
                    (cell as int) < (w as int) * (h as int),
                    1 <= w,
            ;
        }
        let x: u32 = (cell % (w as usize)) as u32;
        let y: u32 = (cell / (w as usize)) as u32;
        proof {
            assert((y as int) * (wp as int) + x + 1 <= (y as int + 1) * (wp as int) + x && (y
                as int + 1) * (wp as int) + x + 1 < (wp as int) * ((h + 1) as int))
                by (nonlinear_arith)
                requires
                    0 <= x < w,
                    0 <= y < h,
                    wp == w + 1,
                    1 <= w,
            ;
            assert((wp as int) * ((h + 1) as int) <= 16_385 * 16_385) by (nonlinear_arith)
                requires
                    1 <= wp <= 16_385,
                    1 <= h + 1 <= 16_385,
            ;
        }
        proof {
            lemma_mul_le(y as int, wp as int, 16_383, 16_385);
            lemma_mul_le(y as int + 1, wp as int, 16_384, 16_385);
        }
        let a: u32 = y * wp + x;
        let b: u32 = (y + 1) * wp + x;
        let tri: [u32; 3] = if k % 2 == 0 {
            [a, a + 1, b]
        } else {
            [a + 1, b + 1, b]
        };
        triangles.push(tri);
        k = k + 1;
    }
    proof {
        lemma_mul_le(wp as int, hp as int, 16_385, 16_385);
    }
    TerrainMesh { vertices, triangles }
}

/// The wraparound seam is closed exactly: for every row, the lattice
/// vertex at column `width` coincides with the vertex at column zero.
pub proof fn lemma_mesh_seam(c: MapConfig, hm: HeightMap, y: int)
    requires
        hm.wf(),
    ensures
        mesh_vertex_spec(c, hm, 0, y) == mesh_vertex_spec(c, hm, hm.width as int, y),
{
    let w = hm.width as int;
    assert(0int % w == 0 && w % w == 0 && 0int * 1_000_000 == 0 && 0int / w == 0 && (w * 1_000_000)
        / w == 1_000_000) by (nonlinear_arith)
        requires
            1 <= w,
    ;
    assert(cos_micro_spec(0) == cos_micro_spec(1_000_000));
    assert(sin_micro_spec(0) == sin_micro_spec(1_000_000));
}

} // verus!
