use crate::map_generator::density::Density;
use crate::map_generator::endless_terrain::{ChunkCoordinate, CHUNK_SIZE};
use crate::map_generator::marching_table::{
    corner_inside, edge_at, edge_count, edge_crosses, edge_listed, lemma_table_sound, row_sound,
    lemma_row_entry, slot_sound, triangulation, triangulation_row, CORNER_WEIGHTS, EDGES, VERTICES,
};
use crate::map_generator::noise_generator::VoxelGrid;
use crate::map_generator::{can_sample, sampled_from, MapGenerator};
use crate::utils::{
    cube_len, lattice_point, lemma_index_in_cube, lemma_index_round_trip, lemma_point_round_trip,
    linear_index,
};
use vstd::prelude::*;

verus! {

/// A point of a chunk's lattice of samples.
#[derive(Clone, Copy, Debug, PartialEq, Eq, Structural)]
pub struct LatticePoint {
    pub x: usize,
    pub y: usize,
    pub z: usize,
}

/// A vertex of the surface, as the place where it lies: on the edge of the
/// lattice that joins `corner_a` to `corner_b`, between the densities sampled
/// at the two corners. Where on the edge the density passes through zero is
/// for the caller to interpolate.
#[derive(Clone, Copy, Debug, PartialEq, Eq, Structural)]
pub struct EdgeVertex {
    pub corner_a: LatticePoint,
    pub corner_b: LatticePoint,
    pub density_a: Density,
    pub density_b: Density,
}

/// The lattice point at corner `corner` of the unit cube whose lowest corner is
/// `cube`.
pub open spec fn corner_point(cube: (usize, usize, usize), corner: int) -> (int, int, int) {
    (
        cube.0 + VERTICES[corner].0,
        cube.1 + VERTICES[corner].1,
        cube.2 + VERTICES[corner].2,
    )
}

/// The density sampled at corner `corner` of the cube at `cube`.
pub open spec fn corner_density(
    grid: &VoxelGrid,
    cube: (usize, usize, usize),
    corner: int,
) -> Density {
    let p = corner_point(cube, corner);
    grid.sample(p.0, p.1, p.2)
}

/// The unit cube at `cube` lies in the grid, and the samples at its eight
/// corners are there.
pub open spec fn cube_in_grid(grid: &VoxelGrid, cube: (usize, usize, usize)) -> bool {
    grid.holds(cube.0 + 1, cube.1 + 1, cube.2 + 1)
}

/// What corner `corner` adds to the configuration of the cube at `cube`: its
/// weight where the density there has its sign bit set, else nothing.
pub open spec fn corner_bit(grid: &VoxelGrid, cube: (usize, usize, usize), corner: int) -> int {
    if corner_density(grid, cube, corner).sign_negative() {
        CORNER_WEIGHTS[corner] as int
    } else {
        0
    }
}

/// The configuration of the cube at `cube`, counting only its first `corners`
/// corners.
pub open spec fn partial_index(grid: &VoxelGrid, cube: (usize, usize, usize), corners: int) -> int
    decreases corners,
{
    if corners <= 0 {
        0
    } else {
        partial_index(grid, cube, corners - 1) + corner_bit(grid, cube, corners - 1)
    }
}

/// The configuration of the cube at `cube`: bit `i` is set where the density at
/// corner `i` has its sign bit set.
pub open spec fn cube_index(grid: &VoxelGrid, cube: (usize, usize, usize)) -> int {
    partial_index(grid, cube, 8)
}

/// The vertex that the surface has on edge `edge` of the cube at `cube`.
pub open spec fn edge_vertex(
    grid: &VoxelGrid,
    cube: (usize, usize, usize),
    edge: int,
) -> EdgeVertex {
    let a = EDGES[edge].0 as int;
    let b = EDGES[edge].1 as int;
    let pa = corner_point(cube, a);
    let pb = corner_point(cube, b);
    EdgeVertex {
        corner_a: LatticePoint { x: pa.0 as usize, y: pa.1 as usize, z: pa.2 as usize },
        corner_b: LatticePoint { x: pb.0 as usize, y: pb.1 as usize, z: pb.2 as usize },
        density_a: corner_density(grid, cube, a),
        density_b: corner_density(grid, cube, b),
    }
}

/// The vertices that the cube at `cube` adds to the mesh: one for each edge in
/// the row of its configuration, in the row's order. Every three of them are a
/// triangle.
pub open spec fn cube_vertices(grid: &VoxelGrid, cube: (usize, usize, usize)) -> Seq<EdgeVertex> {
    let config = cube_index(grid, cube);
    Seq::new(
        edge_count(config) as nat,
        |slot: int| edge_vertex(grid, cube, edge_at(config, slot)),
    )
}

/// Each corner of a cube in the grid is a lattice point whose sample is there.
pub proof fn lemma_corner_held(grid: &VoxelGrid, cube: (usize, usize, usize), corner: int)
    requires
        cube_in_grid(grid, cube),
        0 <= corner < 8,
    ensures
        ({
            let p = corner_point(cube, corner);
            &&& cube.0 <= p.0 <= cube.0 + 1
            &&& cube.1 <= p.1 <= cube.1 + 1
            &&& cube.2 <= p.2 <= cube.2 + 1
            &&& grid.holds(p.0, p.1, p.2)
        }),
{
    let p = corner_point(cube, corner);
    let size = grid.size() as int;
    assert(p.1 * size <= (cube.1 + 1) * size) by (nonlinear_arith)
        requires
            p.1 <= cube.1 + 1,
            0 <= size,
    ;
    assert(p.2 * size * size <= (cube.2 + 1) * size * size) by (nonlinear_arith)
        requires
            p.2 <= cube.2 + 1,
            0 <= size,
    ;
}

/// The configuration of a cube is a byte, and its bit `corner` tells whether
/// the density at that corner has its sign bit set.
pub proof fn lemma_cube_index_bits(grid: &VoxelGrid, cube: (usize, usize, usize))
    ensures
        0 <= cube_index(grid, cube) < 256,
        forall|corner: int|
            0 <= corner < 8 ==> #[trigger] corner_inside(cube_index(grid, cube), corner)
                == corner_density(grid, cube, corner).sign_negative(),
{
    let bit = |corner: int|
        if corner_density(grid, cube, corner).sign_negative() {
            1int
        } else {
            0int
        };
    let q7 = bit(7);
    let q6 = bit(6) + 2 * q7;
    let q5 = bit(5) + 2 * q6;
    let q4 = bit(4) + 2 * q5;
    let q3 = bit(3) + 2 * q4;
    let q2 = bit(2) + 2 * q3;
    let q1 = bit(1) + 2 * q2;
    let q0 = bit(0) + 2 * q1;
    assert(cube_index(grid, cube) == q0) by {
        reveal_with_fuel(partial_index, 9);
    }
    assert(q0 % 2 == bit(0) && q0 / 2 == q1);
    assert(q1 % 2 == bit(1) && q1 / 2 == q2 && q0 / 4 == q2);
    assert(q2 % 2 == bit(2) && q2 / 2 == q3 && q0 / 8 == q3);
    assert(q3 % 2 == bit(3) && q3 / 2 == q4 && q0 / 16 == q4);
    assert(q4 % 2 == bit(4) && q4 / 2 == q5 && q0 / 32 == q5);
    assert(q5 % 2 == bit(5) && q5 / 2 == q6 && q0 / 64 == q6);
    assert(q6 % 2 == bit(6) && q6 / 2 == q7 && q0 / 128 == q7);
    assert(q7 % 2 == bit(7));
}

/// Reads the configuration of the cube at `cube` off the signs of the densities
/// at its corners, and looks up its triangulation.
pub fn get_triangulation(cube: (usize, usize, usize), voxel_grid: &VoxelGrid) -> (row: [i8; 15])
    requires
        cube_in_grid(voxel_grid, cube),
    ensures
        row@ == triangulation_row(cube_index(voxel_grid, cube)),
{
    let mut cube_idx: u8 = 0;
    let mut i: usize = 0;
    while i < 8
        invariant
            i <= 8,
            cube_in_grid(voxel_grid, cube),
            cube_idx as int == partial_index(voxel_grid, cube, i as int),
            i < 8 ==> cube_idx < CORNER_WEIGHTS[i as int],
        decreases 8 - i,
    {
        proof {
            lemma_corner_held(voxel_grid, cube, i as int);
        }
        let offset: (usize, usize, usize) = VERTICES[i];
        let point_value: Density = voxel_grid.read(
            cube.0 + offset.0,
            cube.1 + offset.1,
            cube.2 + offset.2,
        );
        if point_value.is_sign_negative() {
            cube_idx = cube_idx + CORNER_WEIGHTS[i];
        }
        i = i + 1;
    }
    triangulation(cube_idx)
}

/// Adds to `positions` the vertices of the surface inside the unit cube at
/// `cube`: one for each edge that the triangulation of the cube's
/// configuration lists, in the order it lists them.
pub fn march_cube(
    cube: (usize, usize, usize),
    voxel_grid: &VoxelGrid,
    positions: &mut Vec<EdgeVertex>,
)
    requires
        cube_in_grid(voxel_grid, cube),
    ensures
        final(positions)@ == old(positions)@ + cube_vertices(voxel_grid, cube),
{
    let triangulation: [i8; 15] = get_triangulation(cube, voxel_grid);
    let ghost config = cube_index(voxel_grid, cube);
    proof {
        lemma_cube_index_bits(voxel_grid, cube);
        lemma_table_sound(config);
        assert forall|slot: int| 0 <= slot < 15 implies #[trigger] triangulation@[slot] as int
            == edge_at(config, slot) by {
            lemma_row_entry(config, slot);
        }
    }
    let mut slot: usize = 0;
    while slot < 15 && triangulation[slot] >= 0
        invariant
            slot <= 15,
            cube_in_grid(voxel_grid, cube),
            config == cube_index(voxel_grid, cube),
            row_sound(config),
            forall|s: int|
                0 <= s < 15 ==> #[trigger] triangulation@[s] as int == edge_at(config, s),
            slot <= edge_count(config),
            positions@ == old(positions)@ + cube_vertices(voxel_grid, cube).subrange(
                0,
                slot as int,
            ),
        decreases 15 - slot,
    {
        let edge_idx: i8 = triangulation[slot];
        proof {
            assert(slot_sound(config, slot as int));
            lemma_corner_held(voxel_grid, cube, EDGES[edge_idx as int].0 as int);
            lemma_corner_held(voxel_grid, cube, EDGES[edge_idx as int].1 as int);
        }
        let vertex_positions: (usize, usize) = EDGES[edge_idx as usize];
        let offset_a: (usize, usize, usize) = VERTICES[vertex_positions.0];
        let offset_b: (usize, usize, usize) = VERTICES[vertex_positions.1];
        let corner_a = LatticePoint {
            x: cube.0 + offset_a.0,
            y: cube.1 + offset_a.1,
            z: cube.2 + offset_a.2,
        };
        let corner_b = LatticePoint {
            x: cube.0 + offset_b.0,
            y: cube.1 + offset_b.1,
            z: cube.2 + offset_b.2,
        };
        let density_a: Density = voxel_grid.read(corner_a.x, corner_a.y, corner_a.z);
        let density_b: Density = voxel_grid.read(corner_b.x, corner_b.y, corner_b.z);
        positions.push(EdgeVertex { corner_a, corner_b, density_a, density_b });
        slot = slot + 1;
        proof {
            let all = cube_vertices(voxel_grid, cube);
            assert(all.subrange(0, slot as int) =~= all.subrange(0, slot as int - 1).push(
                all[slot as int - 1],
            ));
        }
    }
    proof {
        if slot < 15 {
            assert(slot_sound(config, slot as int));
        }
        let all = cube_vertices(voxel_grid, cube);
        assert(all.subrange(0, slot as int) =~= all);
    }
}

/// The densities at the corners of the cube at `cube` all have the same sign
/// bit.
pub open spec fn cube_is_uniform(grid: &VoxelGrid, cube: (usize, usize, usize)) -> bool {
    forall|corner: int|
        0 <= corner < 8 ==> #[trigger] corner_density(grid, cube, corner).sign_negative()
            == corner_density(grid, cube, 0).sign_negative()
}

/// The density changes its sign bit between the two corners that the vertex
/// lies between: the surface passes through its edge.
pub open spec fn crosses_surface(vertex: EdgeVertex) -> bool {
    vertex.density_a.sign_negative() != vertex.density_b.sign_negative()
}

/// What a cube adds to the mesh is a whole number of triangles, five at most,
/// and each of its vertices lies on an edge of the cube along which the density
/// changes its sign bit.
pub proof fn lemma_cube_vertices(grid: &VoxelGrid, cube: (usize, usize, usize))
    ensures
        cube_vertices(grid, cube).len() % 3 == 0,
        cube_vertices(grid, cube).len() <= 15,
        forall|i: int|
            0 <= i < cube_vertices(grid, cube).len() ==> 0 <= #[trigger] edge_at(
                cube_index(grid, cube),
                i,
            ) < 12,
        forall|i: int|
            0 <= i < cube_vertices(grid, cube).len() ==> crosses_surface(
                #[trigger] cube_vertices(grid, cube)[i],
            ),
{
    let config = cube_index(grid, cube);
    lemma_cube_index_bits(grid, cube);
    lemma_table_sound(config);
    assert forall|i: int| 0 <= i < cube_vertices(grid, cube).len() implies 0 <= #[trigger] edge_at(
        config,
        i,
    ) < 12 by {
        assert(slot_sound(config, i));
    }
    assert forall|i: int| 0 <= i < cube_vertices(grid, cube).len() implies crosses_surface(
        #[trigger] cube_vertices(grid, cube)[i],
    ) by {
        assert(slot_sound(config, i));
        let edge = edge_at(config, i);
        assert(edge_crosses(config, edge));
        assert(0 <= EDGES[edge].0 < 8 && 0 <= EDGES[edge].1 < 8);
        assert(cube_vertices(grid, cube)[i] == edge_vertex(grid, cube, edge));
    }
}

/// Two lattice points are neighbours: one step apart along one axis.
pub open spec fn lattice_neighbours(a: LatticePoint, b: LatticePoint) -> bool {
    let along_x = if a.x >= b.x { a.x - b.x } else { b.x - a.x };
    let along_y = if a.y >= b.y { a.y - b.y } else { b.y - a.y };
    let along_z = if a.z >= b.z { a.z - b.z } else { b.z - a.z };
    along_x + along_y + along_z == 1
}

/// `vertex` lies on an edge of the unit cube at `cube`: its two corners are
/// neighbouring corners of the cube, and its densities are the samples of the
/// grid at them.
pub open spec fn on_edge_of_cube(
    vertex: EdgeVertex,
    grid: &VoxelGrid,
    cube: (usize, usize, usize),
) -> bool {
    &&& cube.0 <= vertex.corner_a.x <= cube.0 + 1 && cube.0 <= vertex.corner_b.x <= cube.0 + 1
    &&& cube.1 <= vertex.corner_a.y <= cube.1 + 1 && cube.1 <= vertex.corner_b.y <= cube.1 + 1
    &&& cube.2 <= vertex.corner_a.z <= cube.2 + 1 && cube.2 <= vertex.corner_b.z <= cube.2 + 1
    &&& lattice_neighbours(vertex.corner_a, vertex.corner_b)
    &&& vertex.density_a == grid.sample(
        vertex.corner_a.x as int,
        vertex.corner_a.y as int,
        vertex.corner_a.z as int,
    )
    &&& vertex.density_b == grid.sample(
        vertex.corner_b.x as int,
        vertex.corner_b.y as int,
        vertex.corner_b.z as int,
    )
}

/// Each vertex that a cube of the grid adds to the mesh lies on an edge of
/// that cube.
pub proof fn lemma_vertices_on_edges(grid: &VoxelGrid, cube: (usize, usize, usize))
    requires
        cube_in_grid(grid, cube),
    ensures
        forall|i: int|
            0 <= i < cube_vertices(grid, cube).len() ==> on_edge_of_cube(
                #[trigger] cube_vertices(grid, cube)[i],
                grid,
                cube,
            ),
{
    let config = cube_index(grid, cube);
    lemma_cube_vertices(grid, cube);
    assert forall|i: int| 0 <= i < cube_vertices(grid, cube).len() implies on_edge_of_cube(
        #[trigger] cube_vertices(grid, cube)[i],
        grid,
        cube,
    ) by {
        let edge = edge_at(config, i);
        assert(0 <= edge < 12);
        assert(cube_vertices(grid, cube)[i] == edge_vertex(grid, cube, edge));
        lemma_edge_joins_neighbours(edge);
    }
}

/// Each edge of the table joins two corners that are one step apart.
proof fn lemma_edge_joins_neighbours(edge: int)
    requires
        0 <= edge < 12,
    ensures
        ({
            let a = VERTICES[EDGES[edge].0 as int];
            let b = VERTICES[EDGES[edge].1 as int];
            let along_x = if a.0 >= b.0 { a.0 - b.0 } else { b.0 - a.0 };
            let along_y = if a.1 >= b.1 { a.1 - b.1 } else { b.1 - a.1 };
            let along_z = if a.2 >= b.2 { a.2 - b.2 } else { b.2 - a.2 };
            &&& 0 <= EDGES[edge].0 < 8
            &&& 0 <= EDGES[edge].1 < 8
            &&& a.0 <= 1 && a.1 <= 1 && a.2 <= 1
            &&& b.0 <= 1 && b.1 <= 1 && b.2 <= 1
            &&& along_x + along_y + along_z == 1
        }),
{
}

/// A cube adds nothing to the mesh exactly when the densities at its corners
/// all have the same sign bit.
pub proof fn lemma_uniform_cube_is_empty(grid: &VoxelGrid, cube: (usize, usize, usize))
    ensures
        cube_vertices(grid, cube).len() == 0 <==> cube_is_uniform(grid, cube),
{
    let config = cube_index(grid, cube);
    lemma_cube_index_bits(grid, cube);
    lemma_table_sound(config);
    if cube_is_uniform(grid, cube) {
        if edge_count(config) > 0 {
            assert(slot_sound(config, 0));
            let edge = edge_at(config, 0);
            assert(edge_crosses(config, edge));
            assert(0 <= EDGES[edge].0 < 8 && 0 <= EDGES[edge].1 < 8);
            assert(corner_inside(config, EDGES[edge].0 as int) == corner_density(
                grid,
                cube,
                EDGES[edge].0 as int,
            ).sign_negative());
            assert(corner_inside(config, EDGES[edge].1 as int) == corner_density(
                grid,
                cube,
                EDGES[edge].1 as int,
            ).sign_negative());
        }
    } else {
        let corner = choose|corner: int|
            0 <= corner < 8 && #[trigger] corner_density(grid, cube, corner).sign_negative()
                != corner_density(grid, cube, 0).sign_negative();
        lemma_differing_corner_has_crossing(config, corner);
        let edge = choose|edge: int| 0 <= edge < 12 && #[trigger] edge_crosses(config, edge);
        assert(edge_listed(config, edge));
    }
}

/// Where some corner differs from corner 0, the surface passes through one of
/// the edges.
proof fn lemma_differing_corner_has_crossing(config: int, corner: int)
    requires
        0 <= corner < 8,
        corner_inside(config, corner) != corner_inside(config, 0),
    ensures
        exists|edge: int| 0 <= edge < 12 && #[trigger] edge_crosses(config, edge),
{
    if !edge_crosses(config, 0) && !edge_crosses(config, 1) && !edge_crosses(config, 2)
        && !edge_crosses(config, 8) && !edge_crosses(config, 4) && !edge_crosses(config, 5)
        && !edge_crosses(config, 6) {
        assert(corner_inside(config, 1) == corner_inside(config, 0));
        assert(corner_inside(config, 2) == corner_inside(config, 0));
        assert(corner_inside(config, 3) == corner_inside(config, 0));
        assert(corner_inside(config, 4) == corner_inside(config, 0));
        assert(corner_inside(config, 5) == corner_inside(config, 0));
        assert(corner_inside(config, 6) == corner_inside(config, 0));
        assert(corner_inside(config, 7) == corner_inside(config, 0));
        assert(false);
    }
}

/// The `number`-th cube of the grid, when its cubes are walked with `x`
/// running fastest and `z` slowest.
pub open spec fn cube_at(grid: &VoxelGrid, number: int) -> (usize, usize, usize) {
    let p = lattice_point(number, grid.size() - 1);
    (p.0 as usize, p.1 as usize, p.2 as usize)
}

/// The vertices that the first `cubes` cubes of the grid add to the mesh.
pub open spec fn marched(grid: &VoxelGrid, cubes: int) -> Seq<EdgeVertex>
    decreases cubes,
{
    if cubes <= 0 {
        Seq::empty()
    } else {
        marched(grid, cubes - 1) + cube_vertices(grid, cube_at(grid, cubes - 1))
    }
}

/// The vertices of the mesh of a grid: what each of its unit cubes adds, cube
/// after cube.
pub open spec fn grid_vertices(grid: &VoxelGrid) -> Seq<EdgeVertex> {
    marched(grid, cube_len(grid.size() - 1))
}

/// All samples of the grid have the same sign bit.
pub open spec fn grid_is_uniform(grid: &VoxelGrid) -> bool {
    forall|i: int, j: int|
        0 <= i < grid@.len() && 0 <= j < grid@.len() ==> (#[trigger] grid@[i]).sign_negative() == (
        #[trigger] grid@[j]).sign_negative()
}

/// Every numbered cube of a full grid lies in the grid.
pub proof fn lemma_cube_at_in_grid(grid: &VoxelGrid, number: int)
    requires
        grid.is_full(),
        0 <= number < cube_len(grid.size() - 1),
    ensures
        cube_in_grid(grid, cube_at(grid, number)),
        cube_at(grid, number).0 + 1 < grid.size(),
        cube_at(grid, number).1 + 1 < grid.size(),
        cube_at(grid, number).2 + 1 < grid.size(),
{
    let side = grid.size() - 1;
    assert(side > 0) by (nonlinear_arith)
        requires
            0 <= number < side * side * side,
    ;
    lemma_point_round_trip(number, side);
    let cube = cube_at(grid, number);
    lemma_index_in_cube(cube.0 + 1, cube.1 + 1, cube.2 + 1, grid.size() as int);
}

/// The mesh of the first cubes of a full grid is a whole number of triangles,
/// at most five to a cube, and each of its vertices lies on an edge along
/// which the density changes its sign bit.
proof fn lemma_marched(grid: &VoxelGrid, cubes: int)
    requires
        grid.is_full(),
        0 <= cubes <= cube_len(grid.size() - 1),
    ensures
        marched(grid, cubes).len() % 3 == 0,
        marched(grid, cubes).len() <= 15 * cubes,
        forall|i: int|
            0 <= i < marched(grid, cubes).len() ==> crosses_surface(
                #[trigger] marched(grid, cubes)[i],
            ),
    decreases cubes,
{
    if cubes > 0 {
        lemma_marched(grid, cubes - 1);
        lemma_cube_vertices(grid, cube_at(grid, cubes - 1));
    }
}

/// In a full grid whose samples all have the same sign bit, the first cubes
/// add no vertex.
proof fn lemma_uniform_cubes_are_empty(grid: &VoxelGrid, cubes: int)
    requires
        grid.is_full(),
        grid_is_uniform(grid),
        0 <= cubes <= cube_len(grid.size() - 1),
    ensures
        marched(grid, cubes).len() == 0,
    decreases cubes,
{
    if cubes > 0 {
        lemma_uniform_cubes_are_empty(grid, cubes - 1);
        lemma_cube_at_in_grid(grid, cubes - 1);
        lemma_cube_of_uniform_grid(grid, cube_at(grid, cubes - 1));
    }
}

/// In a grid whose samples all have the same sign bit, a cube adds no vertex.
proof fn lemma_cube_of_uniform_grid(grid: &VoxelGrid, cube: (usize, usize, usize))
    requires
        grid_is_uniform(grid),
        cube_in_grid(grid, cube),
    ensures
        cube_vertices(grid, cube).len() == 0,
{
    assert(cube_is_uniform(grid, cube)) by {
        assert forall|corner: int| 0 <= corner < 8 implies #[trigger] corner_density(
            grid,
            cube,
            corner,
        ).sign_negative() == corner_density(grid, cube, 0).sign_negative() by {
            lemma_corner_held(grid, cube, corner);
            lemma_corner_held(grid, cube, 0);
        }
    }
    lemma_uniform_cube_is_empty(grid, cube);
}

/// A full grid whose samples all have the same sign bit has an empty mesh:
/// none of its cubes adds a vertex.
pub proof fn lemma_uniform_grid_is_empty(grid: &VoxelGrid)
    requires
        grid.size() >= 1,
        grid.is_full(),
        grid_is_uniform(grid),
    ensures
        grid_vertices(grid).len() == 0,
        forall|cube: (usize, usize, usize)|
            cube_in_grid(grid, cube) ==> (#[trigger] cube_vertices(grid, cube)).len() == 0,
{
    let side = grid.size() - 1;
    assert(0 <= cube_len(side)) by (nonlinear_arith)
        requires
            0 <= side,
    ;
    lemma_uniform_cubes_are_empty(grid, cube_len(side));
    assert forall|cube: (usize, usize, usize)| cube_in_grid(grid, cube) implies (
    #[trigger] cube_vertices(grid, cube)).len() == 0 by {
        lemma_cube_of_uniform_grid(grid, cube);
    }
}

/// The mesh of a full grid is a whole number of triangles, at most five to a
/// cube, and each of its vertices lies on an edge along which the density
/// changes its sign bit.
pub proof fn lemma_grid_vertices(grid: &VoxelGrid)
    requires
        grid.size() >= 1,
        grid.is_full(),
    ensures
        grid_vertices(grid).len() % 3 == 0,
        grid_vertices(grid).len() <= 15 * cube_len(grid.size() - 1),
        forall|i: int|
            0 <= i < grid_vertices(grid).len() ==> crosses_surface(#[trigger] grid_vertices(grid)[i]),
{
    let side = grid.size() - 1;
    assert(0 <= cube_len(side)) by (nonlinear_arith)
        requires
            0 <= side,
    ;
    lemma_marched(grid, cube_len(side));
}

/// Marches every unit cube of a full grid, `z` outermost and `x` innermost,
/// and returns the vertices of the mesh in the order the cubes add them.
pub fn march_cubes(voxel_grid: &VoxelGrid) -> (vertices: Vec<EdgeVertex>)
    requires
        voxel_grid.size() >= 1,
        voxel_grid.is_full(),
    ensures
        vertices@ == grid_vertices(voxel_grid),
{
    let side: usize = voxel_grid.size() - 1;
    let mut vertices: Vec<EdgeVertex> = Vec::new();
    let ghost s = side as int;
    let mut z: usize = 0;
    while z < side
        invariant
            z <= side,
            s == side,
            side == voxel_grid.size() - 1,
            voxel_grid.is_full(),
            vertices@ == marched(voxel_grid, z * s * s),
        decreases side - z,
    {
        let mut y: usize = 0;
        while y < side
            invariant
                z < side,
                y <= side,
                s == side,
                side == voxel_grid.size() - 1,
                voxel_grid.is_full(),
                vertices@ == marched(voxel_grid, linear_index(0, y as int, z as int, s)),
            decreases side - y,
        {
            let mut x: usize = 0;
            while x < side
                invariant
                    z < side,
                    y < side,
                    x <= side,
                    s == side,
                    side == voxel_grid.size() - 1,
                    voxel_grid.is_full(),
                    vertices@ == marched(
                        voxel_grid,
                        linear_index(x as int, y as int, z as int, s),
                    ),
                decreases side - x,
            {
                proof {
                    lemma_index_round_trip(x as int, y as int, z as int, s);
                    lemma_index_in_cube(x as int, y as int, z as int, s);
                    lemma_cube_at_in_grid(
                        voxel_grid,
                        linear_index(x as int, y as int, z as int, s),
                    );
                }
                march_cube((x, y, z), voxel_grid, &mut vertices);
                x = x + 1;
            }
            proof {
                assert(linear_index(s, y as int, z as int, s) == linear_index(
                    0,
                    y as int + 1,
                    z as int,
                    s,
                )) by (nonlinear_arith);
            }
            y = y + 1;
        }
        proof {
            assert(linear_index(0, s, z as int, s) == (z + 1) * s * s) by (nonlinear_arith);
        }
        z = z + 1;
    }
    proof {
        assert(z * s * s == cube_len(s)) by (nonlinear_arith)
            requires
                z == s,
        ;
    }
    vertices
}

/// The index list of a triangle mesh whose vertices were emitted three to a
/// triangle: the vertices of each triangle in reverse order of emission, which
/// is the winding that the triangulation table is laid out for. Vertices behind
/// the last whole triangle get no index.
pub open spec fn reversed_triangles(vertex_count: int) -> Seq<u32> {
    Seq::new((3 * (vertex_count / 3)) as nat, |k: int| (3 * (k / 3) + 2 - k % 3) as u32)
}

/// Builds the index list of a mesh of `vertex_count` vertices.
pub fn triangle_indices(vertex_count: usize) -> (indices: Vec<u32>)
    requires
        vertex_count <= u32::MAX,
    ensures
        indices@ == reversed_triangles(vertex_count as int),
{
    let triangles: usize = vertex_count / 3;
    let mut indices: Vec<u32> = Vec::with_capacity(vertex_count);
    let mut triangle: usize = 0;
    while triangle < triangles
        invariant
            triangle <= triangles,
            triangles == vertex_count / 3,
            vertex_count <= u32::MAX,
            indices@.len() == 3 * triangle,
            forall|k: int|
                0 <= k < indices@.len() ==> #[trigger] indices@[k] == 3 * (k / 3) + 2 - k % 3,
        decreases triangles - triangle,
    {
        let first: u32 = (triangle * 3) as u32;
        indices.push(first + 2);
        indices.push(first + 1);
        indices.push(first);
        triangle = triangle + 1;
    }
    assert(indices@ =~= reversed_triangles(vertex_count as int));
    indices
}

/// Where the mesh of the chunk at `chunk_coord` is placed in the world: the
/// chunk's coordinate times the edge of a chunk, with no rotation and no
/// scale.
pub open spec fn chunk_translation(chunk_coord: ChunkCoordinate) -> (i64, i64, i64) {
    (
        (chunk_coord.x * CHUNK_SIZE) as i64,
        (chunk_coord.y * CHUNK_SIZE) as i64,
        (chunk_coord.z * CHUNK_SIZE) as i64,
    )
}

/// The mesh of one chunk, ready for display.
#[derive(Debug)]
pub struct ChunkMesh {
    /// The vertices, three to a triangle.
    pub vertices: Vec<EdgeVertex>,
    /// The triangle list, as positions in `vertices`.
    pub indices: Vec<u32>,
    /// Where the mesh is placed in the world.
    pub translation: (i64, i64, i64),
}

/// `mesh` is the mesh of `grid`: the vertices that marching its cubes gives,
/// each of them indexed once, and the placement of the grid's chunk.
pub open spec fn is_mesh_of(mesh: &ChunkMesh, grid: &VoxelGrid) -> bool {
    &&& mesh.vertices@ == grid_vertices(grid)
    &&& mesh.indices@ == reversed_triangles(mesh.vertices@.len() as int)
    &&& mesh.indices@.len() == mesh.vertices@.len()
    &&& mesh.translation == chunk_translation(grid.chunk_coord())
}

/// Turns the grid of a chunk into its mesh.
pub fn mesh_grid(voxel_grid: &VoxelGrid) -> (mesh: ChunkMesh)
    requires
        voxel_grid.size() >= 1,
        voxel_grid.is_full(),
        15 * cube_len(voxel_grid.size() - 1) <= u32::MAX,
    ensures
        is_mesh_of(&mesh, voxel_grid),
{
    let vertices: Vec<EdgeVertex> = march_cubes(voxel_grid);
    proof {
        lemma_grid_vertices(voxel_grid);
    }
    let indices: Vec<u32> = triangle_indices(vertices.len());
    let chunk_coord: ChunkCoordinate = voxel_grid.chunk_coord();
    let edge: i64 = CHUNK_SIZE as i64;
    let translation: (i64, i64, i64) = (
        chunk_coord.x as i64 * edge,
        chunk_coord.y as i64 * edge,
        chunk_coord.z as i64 * edge,
    );
    ChunkMesh { vertices, indices, translation }
}

/// How a chunk is shown.
#[derive(Clone, Copy, Debug, Default, PartialEq, Eq)]
pub enum RenderMode {
    #[default]
    MarchingCube,
    Voxel,
    DataPoint,
    TextData,
}

/// The order to generate and show the chunk at a coordinate.
#[derive(Debug)]
pub struct RenderChunk {
    chunk_coord: ChunkCoordinate,
    render_modes: Vec<RenderMode>,
}

impl RenderChunk {
    /// The chunk that the order is for.
    pub closed spec fn spec_chunk_coord(&self) -> ChunkCoordinate {
        self.chunk_coord
    }

    /// The ways in which the chunk is to be shown.
    pub closed spec fn spec_render_modes(&self) -> Seq<RenderMode> {
        self.render_modes@
    }

    pub fn new(chunk_coord: ChunkCoordinate, render_modes: Vec<RenderMode>) -> (order: Self)
        ensures
            order.chunk_coord() == chunk_coord,
            order.spec_render_modes() == render_modes@,
    {
        Self { chunk_coord, render_modes }
    }

    #[verifier::when_used_as_spec(spec_chunk_coord)]
    pub fn chunk_coord(&self) -> (chunk_coord: ChunkCoordinate)
        ensures
            chunk_coord == self.chunk_coord(),
    {
        self.chunk_coord
    }

    pub fn render_modes(&self) -> (render_modes: &Vec<RenderMode>)
        ensures
            render_modes@ == self.spec_render_modes(),
    {
        &self.render_modes
    }

    /// Carries the order out as far as numbers go: samples the chunk's grid
    /// from the generator's density field and turns the grid into the chunk's
    /// mesh.
    pub fn build_mesh<F: Fn(i64, i64, i64) -> Density>(&self, generator: &MapGenerator<F>) -> (mesh:
        ChunkMesh)
        requires
            can_sample(generator.field(), CHUNK_SIZE + 1, CHUNK_SIZE as int, self.chunk_coord()),
        ensures
            exists|grid: VoxelGrid|
                #[trigger] sampled_from(
                    &grid,
                    generator.field(),
                    CHUNK_SIZE + 1,
                    CHUNK_SIZE as int,
                    self.chunk_coord(),
                ) && is_mesh_of(&mesh, &grid),
    {
        let voxel_grid: VoxelGrid = generator.generate_noise(self.chunk_coord, CHUNK_SIZE as usize);
        assert(15 * cube_len(16) <= u32::MAX) by (nonlinear_arith);
        mesh_grid(&voxel_grid)
    }
}

} // verus!
