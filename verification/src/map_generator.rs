use crate::map_generator::density::Density;
use crate::map_generator::endless_terrain::ChunkCoordinate;
use crate::map_generator::noise_generator::VoxelGrid;
use crate::utils::{
    cube_len, lattice_point, lemma_index_in_cube, lemma_index_round_trip, linear_index,
};
use vstd::prelude::*;

pub mod density;
pub mod endless_terrain;
pub mod map_display;
pub mod marching_table;
pub mod noise_generator;

verus! {

/// World position of the lattice point `(x, y, z)` of the chunk at
/// `chunk_coord`, where neighbouring chunks lie `edge` world units apart.
pub open spec fn world_point(
    chunk_coord: ChunkCoordinate,
    edge: int,
    x: int,
    y: int,
    z: int,
) -> (i64, i64, i64) {
    (
        (x + chunk_coord.x * edge) as i64,
        (y + chunk_coord.y * edge) as i64,
        (z + chunk_coord.z * edge) as i64,
    )
}

/// The sampling pass can run: the cube of samples fits the machine, and the
/// density field accepts the world position of each of its lattice points.
pub open spec fn can_sample<F: Fn(i64, i64, i64) -> Density>(
    field: &F,
    grid_size: int,
    edge: int,
    chunk_coord: ChunkCoordinate,
) -> bool {
    &&& 0 <= grid_size
    &&& cube_len(grid_size) <= usize::MAX
    &&& 0 <= edge <= u32::MAX
    &&& forall|x: int, y: int, z: int|
        0 <= x < grid_size && 0 <= y < grid_size && 0 <= z < grid_size ==> field.requires(
            #[trigger] world_point(chunk_coord, edge, x, y, z),
        )
}

/// `grid` holds what the sampling pass leaves: a full cube of `grid_size`
/// samples along each axis, each of them a value that the density field gives
/// at the world position of its lattice point.
pub open spec fn sampled_from<F: Fn(i64, i64, i64) -> Density>(
    grid: &VoxelGrid,
    field: &F,
    grid_size: int,
    edge: int,
    chunk_coord: ChunkCoordinate,
) -> bool {
    &&& grid.size() == grid_size
    &&& grid.chunk_coord() == chunk_coord
    &&& grid.wf()
    &&& grid.is_full()
    &&& forall|x: int, y: int, z: int|
        0 <= x < grid_size && 0 <= y < grid_size && 0 <= z < grid_size ==> field.ensures(
            world_point(chunk_coord, edge, x, y, z),
            #[trigger] grid.sample(x, y, z),
        )
}

/// A cube of samples that fits the machine has fewer than 2^22 samples along
/// each axis.
proof fn lemma_side_of_cube(grid_size: int)
    requires
        0 <= grid_size,
        cube_len(grid_size) <= usize::MAX,
    ensures
        grid_size < 0x40_0000,
{
    assert(grid_size < 0x40_0000) by (nonlinear_arith)
        requires
            0 <= grid_size,
            grid_size * grid_size * grid_size <= 0xffff_ffff_ffff_ffff,
    ;
}

/// A world coordinate of a lattice point stays inside the 64-bit range.
proof fn lemma_world_coordinate_fits(local: int, chunk: i32, edge: int)
    requires
        0 <= local < 0x40_0000,
        0 <= edge <= u32::MAX,
    ensures
        -0x7fff_ffff_8000_0000 <= chunk * edge <= 0x7fff_fffe_8000_0001,
        -0x7fff_ffff_8000_0000 <= local + chunk * edge < 0x7fff_ffff_0000_0000,
{
    assert(-0x8000_0000 * 0xffff_ffff <= chunk * edge <= 0x7fff_ffff * 0xffff_ffff)
        by (nonlinear_arith)
        requires
            -0x8000_0000 <= chunk <= 0x7fff_ffff,
            0 <= edge <= 0xffff_ffff,
    ;
}

/// Walks the lattice of one chunk, `z` outermost and `x` innermost, asks the
/// density field for the value at each point's world position and pushes it.
pub fn sample_lattice<F: Fn(i64, i64, i64) -> Density>(
    field: &F,
    grid_size: usize,
    edge: u32,
    chunk_coord: ChunkCoordinate,
) -> (grid: VoxelGrid)
    requires
        can_sample(field, grid_size as int, edge as int, chunk_coord),
    ensures
        sampled_from(&grid, field, grid_size as int, edge as int, chunk_coord),
{
    let mut grid = VoxelGrid::new(grid_size, chunk_coord);
    let ghost size = grid_size as int;
    proof {
        lemma_side_of_cube(size);
    }
    let mut z: usize = 0;
    while z < grid_size
        invariant
            z <= grid_size,
            size == grid_size,
            size < 0x40_0000,
            can_sample(field, size, edge as int, chunk_coord),
            grid.size() == grid_size,
            grid.chunk_coord() == chunk_coord,
            grid.wf(),
            grid@.len() == z * size * size,
            forall|i: int|
                0 <= i < grid@.len() ==> field.ensures(
                    world_point(
                        chunk_coord,
                        edge as int,
                        lattice_point(i, size).0,
                        lattice_point(i, size).1,
                        lattice_point(i, size).2,
                    ),
                    #[trigger] grid@[i],
                ),
        decreases grid_size - z,
    {
        let mut y: usize = 0;
        while y < grid_size
            invariant
                z < grid_size,
                y <= grid_size,
                size == grid_size,
            size < 0x40_0000,
                can_sample(field, size, edge as int, chunk_coord),
                grid.size() == grid_size,
                grid.chunk_coord() == chunk_coord,
                grid.wf(),
                grid@.len() == linear_index(0, y as int, z as int, size),
                forall|i: int|
                    0 <= i < grid@.len() ==> field.ensures(
                        world_point(
                            chunk_coord,
                            edge as int,
                            lattice_point(i, size).0,
                            lattice_point(i, size).1,
                            lattice_point(i, size).2,
                        ),
                        #[trigger] grid@[i],
                    ),
            decreases grid_size - y,
        {
            let mut x: usize = 0;
            while x < grid_size
                invariant
                    z < grid_size,
                    y < grid_size,
                    x <= grid_size,
                    size == grid_size,
            size < 0x40_0000,
                    can_sample(field, size, edge as int, chunk_coord),
                    grid.size() == grid_size,
                    grid.chunk_coord() == chunk_coord,
                    grid.wf(),
                    grid@.len() == linear_index(x as int, y as int, z as int, size),
                    forall|i: int|
                        0 <= i < grid@.len() ==> field.ensures(
                            world_point(
                                chunk_coord,
                                edge as int,
                                lattice_point(i, size).0,
                                lattice_point(i, size).1,
                                lattice_point(i, size).2,
                            ),
                            #[trigger] grid@[i],
                        ),
                decreases grid_size - x,
            {
                proof {
                    lemma_world_coordinate_fits(x as int, chunk_coord.x, edge as int);
                    lemma_world_coordinate_fits(y as int, chunk_coord.y, edge as int);
                    lemma_world_coordinate_fits(z as int, chunk_coord.z, edge as int);
                    lemma_index_round_trip(x as int, y as int, z as int, size);
                    assert(field.requires(
                        world_point(chunk_coord, edge as int, x as int, y as int, z as int),
                    ));
                }
                let world_x: i64 = x as i64 + chunk_coord.x as i64 * edge as i64;
                let world_y: i64 = y as i64 + chunk_coord.y as i64 * edge as i64;
                let world_z: i64 = z as i64 + chunk_coord.z as i64 * edge as i64;
                let value: Density = field(world_x, world_y, world_z);
                grid.push(value);
                x = x + 1;
            }
            proof {
                assert(linear_index(size, y as int, z as int, size) == linear_index(
                    0,
                    y as int + 1,
                    z as int,
                    size,
                )) by (nonlinear_arith);
            }
            y = y + 1;
        }
        proof {
            assert(linear_index(0, size, z as int, size) == (z + 1) * size * size)
                by (nonlinear_arith);
        }
        z = z + 1;
    }
    proof {
        assert(z * size * size == cube_len(size)) by (nonlinear_arith)
            requires
                z == size,
        ;
        assert forall|x: int, y: int, z: int|
            0 <= x < grid_size && 0 <= y < grid_size && 0 <= z < grid_size implies field.ensures(
            world_point(chunk_coord, edge as int, x, y, z),
            #[trigger] grid.sample(x, y, z),
        ) by {
            lemma_index_round_trip(x, y, z, size);
            lemma_index_in_cube(x, y, z, size);
        }
    }
    grid
}

/// The field gives one density at each position: whatever it returns for the
/// same position is the same.
pub open spec fn field_is_function<F: Fn(i64, i64, i64) -> Density>(field: &F) -> bool {
    forall|position: (i64, i64, i64), a: Density, b: Density|
        #![trigger field.ensures(position, a), field.ensures(position, b)]
        field.ensures(position, a) && field.ensures(position, b) ==> a == b
}

/// Grids of two chunks that were sampled from the same field agree wherever
/// they overlap. With `size + 1` samples along each axis, the grids of two
/// neighbouring chunks overlap in the face they share, so that their meshes
/// meet there without a seam.
pub proof fn lemma_grids_agree_where_they_overlap<F: Fn(i64, i64, i64) -> Density>(
    field: &F,
    size: int,
    here: &VoxelGrid,
    there: &VoxelGrid,
    step: (int, int, int),
    point: (int, int, int),
)
    requires
        field_is_function(field),
        sampled_from(here, field, size + 1, size, here.chunk_coord()),
        sampled_from(there, field, size + 1, size, there.chunk_coord()),
        there.chunk_coord().x == here.chunk_coord().x + step.0,
        there.chunk_coord().y == here.chunk_coord().y + step.1,
        there.chunk_coord().z == here.chunk_coord().z + step.2,
        0 <= point.0 <= size && 0 <= point.0 - step.0 * size <= size,
        0 <= point.1 <= size && 0 <= point.1 - step.1 * size <= size,
        0 <= point.2 <= size && 0 <= point.2 - step.2 * size <= size,
    ensures
        here.sample(point.0, point.1, point.2) == there.sample(
            point.0 - step.0 * size,
            point.1 - step.1 * size,
            point.2 - step.2 * size,
        ),
{
    let a = here.chunk_coord();
    let b = there.chunk_coord();
    assert(point.0 + a.x * size == (point.0 - step.0 * size) + b.x * size) by (nonlinear_arith)
        requires
            b.x == a.x + step.0,
    ;
    assert(point.1 + a.y * size == (point.1 - step.1 * size) + b.y * size) by (nonlinear_arith)
        requires
            b.y == a.y + step.1,
    ;
    assert(point.2 + a.z * size == (point.2 - step.2 * size) + b.z * size) by (nonlinear_arith)
        requires
            b.z == a.z + step.2,
    ;
    let position = world_point(a, size, point.0, point.1, point.2);
    assert(position == world_point(
        b,
        size,
        point.0 - step.0 * size,
        point.1 - step.1 * size,
        point.2 - step.2 * size,
    ));
    let first = here.sample(point.0, point.1, point.2);
    let second = there.sample(
        point.0 - step.0 * size,
        point.1 - step.1 * size,
        point.2 - step.2 * size,
    );
    assert(field.ensures(position, first));
    assert(field.ensures(position, second));
}

/// Samples a density field into the voxel grid of a chunk.
pub struct MapGenerator<F> {
    generation_type: F,
}

impl<F: Fn(i64, i64, i64) -> Density> MapGenerator<F> {
    /// The density field that the generator samples.
    pub closed spec fn field(&self) -> &F {
        &self.generation_type
    }

    pub fn new(gen_type: F) -> (generator: Self)
        ensures
            *generator.field() == gen_type,
    {
        Self { generation_type: gen_type }
    }

    /// The grid of the chunk at `chunk_coord`, for chunks of `size` world units
    /// along each edge. The grid has `size + 1` samples along each axis, so
    /// that it holds both faces of the chunk and neighbours agree on the face
    /// they share.
    pub fn generate_noise(&self, chunk_coord: ChunkCoordinate, size: usize) -> (grid: VoxelGrid)
        requires
            can_sample(self.field(), size + 1, size as int, chunk_coord),
        ensures
            sampled_from(&grid, self.field(), size + 1, size as int, chunk_coord),
    {
        proof {
            lemma_side_of_cube(size + 1);
        }
        sample_lattice(&self.generation_type, size + 1, size as u32, chunk_coord)
    }
}

} // verus!
