use crate::map_generator::density::{Density, LARGEST_BITS, SMALLEST_BITS};
use crate::map_generator::endless_terrain::{ChunkCoordinate, CHUNK_SIZE};
use crate::map_generator::{can_sample, sample_lattice, sampled_from};
use crate::utils::{checked_index, cube_len, linear_index, To1DIndex};
use vstd::prelude::*;

verus! {

/// Fills grids of any size from a density field.
pub struct Noise;

impl Noise {
    /// The grid of `size` samples along each axis at the chunk `chunk_coord`,
    /// each sample taken from `field` at the world position of its lattice
    /// point, where chunks lie `CHUNK_SIZE` world units apart.
    pub fn generate_noise_map<F: Fn(i64, i64, i64) -> Density>(
        size: usize,
        chunk_coord: ChunkCoordinate,
        field: &F,
    ) -> (grid: VoxelGrid)
        requires
            can_sample(field, size as int, CHUNK_SIZE as int, chunk_coord),
        ensures
            sampled_from(&grid, field, size as int, CHUNK_SIZE as int, chunk_coord),
    {
        sample_lattice(field, size, CHUNK_SIZE as u32, chunk_coord)
    }
}

/// The lowest sample of a sequence, as a running minimum finds it: it starts at
/// the largest finite value and moves to each sample that is below it.
pub open spec fn running_min(samples: Seq<Density>) -> Density
    decreases samples.len(),
{
    if samples.len() == 0 {
        Density { bits: LARGEST_BITS }
    } else {
        let before = running_min(samples.drop_last());
        if samples.last().less_than(before) {
            samples.last()
        } else {
            before
        }
    }
}

/// The highest sample of a sequence, as a running maximum finds it: it starts
/// at the smallest finite value and moves to each sample that is above it.
pub open spec fn running_max(samples: Seq<Density>) -> Density
    decreases samples.len(),
{
    if samples.len() == 0 {
        Density { bits: SMALLEST_BITS }
    } else {
        let before = running_max(samples.drop_last());
        if before.less_than(samples.last()) {
            samples.last()
        } else {
            before
        }
    }
}

/// The running bounds are numbers, and no sample lies outside them: none is
/// below the running minimum, none above the running maximum.
pub proof fn lemma_running_bounds(samples: Seq<Density>, i: int)
    requires
        0 <= i < samples.len(),
    ensures
        !running_min(samples).nan(),
        !running_max(samples).nan(),
        !samples[i].less_than(running_min(samples)),
        !running_max(samples).less_than(samples[i]),
    decreases samples.len(),
{
    lemma_running_bounds_are_numbers(samples);
    lemma_running_bounds_are_numbers(samples.drop_last());
    if i < samples.len() - 1 {
        lemma_running_bounds(samples.drop_last(), i);
        assert(samples.drop_last()[i] == samples[i]);
    }
}

/// The running bounds are numbers, whatever the samples are.
pub proof fn lemma_running_bounds_are_numbers(samples: Seq<Density>)
    ensures
        !running_min(samples).nan(),
        !running_max(samples).nan(),
    decreases samples.len(),
{
    if samples.len() > 0 {
        lemma_running_bounds_are_numbers(samples.drop_last());
    }
}

/// Each running bound is one of the samples, unless no sample moved it from
/// where it started.
pub proof fn lemma_running_bounds_are_samples(samples: Seq<Density>)
    ensures
        running_min(samples).bits == LARGEST_BITS || samples.contains(running_min(samples)),
        running_max(samples).bits == SMALLEST_BITS || samples.contains(running_max(samples)),
    decreases samples.len(),
{
    if samples.len() > 0 {
        let before = samples.drop_last();
        lemma_running_bounds_are_samples(before);
        assert(samples[samples.len() - 1] == samples.last());
        if before.contains(running_min(before)) {
            let i = choose|i: int| 0 <= i < before.len() && before[i] == running_min(before);
            assert(samples[i] == running_min(before));
        }
        if before.contains(running_max(before)) {
            let i = choose|i: int| 0 <= i < before.len() && before[i] == running_max(before);
            assert(samples[i] == running_max(before));
        }
    }
}

/// The density samples of one chunk: a cube of `size` lattice points along each
/// axis, stored flat with `x` running fastest and `z` slowest, together with
/// the lowest and highest sample seen so far.
#[derive(Debug)]
pub struct VoxelGrid {
    data: Vec<Density>,
    size: usize,
    chunk_coord: ChunkCoordinate,
    min: Density,
    max: Density,
}

impl View for VoxelGrid {
    type V = Seq<Density>;

    /// The samples pushed so far, in the order they were pushed.
    closed spec fn view(&self) -> Seq<Density> {
        self.data@
    }
}

impl Clone for VoxelGrid {
    fn clone(&self) -> (copy: Self)
        ensures
            copy@ == self@,
            copy.size() == self.size(),
            copy.chunk_coord() == self.chunk_coord(),
            copy.min_sample() == self.min_sample(),
            copy.max_sample() == self.max_sample(),
    {
        let data: Vec<Density> = self.data.clone();
        assert(data@ =~= self.data@);
        VoxelGrid {
            data,
            size: self.size,
            chunk_coord: self.chunk_coord,
            min: self.min,
            max: self.max,
        }
    }
}

impl VoxelGrid {
    /// Number of lattice points along each axis.
    pub closed spec fn spec_size(&self) -> usize {
        self.size
    }

    /// The chunk the grid was sampled for.
    pub closed spec fn spec_chunk_coord(&self) -> ChunkCoordinate {
        self.chunk_coord
    }

    /// The lower bound the grid keeps.
    pub closed spec fn min_sample(&self) -> Density {
        self.min
    }

    /// The upper bound the grid keeps.
    pub closed spec fn max_sample(&self) -> Density {
        self.max
    }

    /// The bounds the grid keeps are those of the samples it holds.
    pub open spec fn wf(&self) -> bool {
        &&& self.min_sample() == running_min(self@)
        &&& self.max_sample() == running_max(self@)
    }

    /// Every lattice point of the cube has its sample.
    pub open spec fn is_full(&self) -> bool {
        self@.len() == cube_len(self.size() as int)
    }

    /// The lattice point `(x, y, z)` lies in the cube and its sample is there.
    pub open spec fn holds(&self, x: int, y: int, z: int) -> bool {
        &&& 0 <= x < self.size()
        &&& 0 <= y < self.size()
        &&& 0 <= z < self.size()
        &&& linear_index(x, y, z, self.size() as int) < self@.len()
    }

    /// The sample at the lattice point `(x, y, z)`.
    pub open spec fn sample(&self, x: int, y: int, z: int) -> Density {
        self@[linear_index(x, y, z, self.size() as int)]
    }

    /// An empty grid for a cube of `size` points along each axis, with room for
    /// all of its samples where their number fits the machine.
    pub fn new(size: usize, chunk_coord: ChunkCoordinate) -> (grid: VoxelGrid)
        ensures
            grid.size() == size,
            grid@ == Seq::<Density>::empty(),
            grid.chunk_coord() == chunk_coord,
            grid.min_sample().bits == LARGEST_BITS,
            grid.max_sample().bits == SMALLEST_BITS,
            grid.wf(),
    {
        let capacity: usize = match size.checked_mul(size) {
            Some(square) => match square.checked_mul(size) {
                Some(cube) => cube,
                None => 0,
            },
            None => 0,
        };
        VoxelGrid {
            data: Vec::with_capacity(capacity),
            size,
            chunk_coord,
            min: Density::largest(),
            max: Density::smallest(),
        }
    }

    /// Appends the next sample in fill order and moves the bounds to it where
    /// it lies outside them.
    pub fn push(&mut self, value: Density)
        ensures
            final(self)@ == old(self)@.push(value),
            final(self).size() == old(self).size(),
            final(self).chunk_coord() == old(self).chunk_coord(),
            final(self).min_sample() == if value.less_than(old(self).min_sample()) {
                value
            } else {
                old(self).min_sample()
            },
            final(self).max_sample() == if old(self).max_sample().less_than(value) {
                value
            } else {
                old(self).max_sample()
            },
            old(self).wf() ==> final(self).wf(),
    {
        if value.gt(self.max) {
            self.max = value;
        }
        if value.lt(self.min) {
            self.min = value;
        }
        self.data.push(value);
        proof {
            assert(self.data@.drop_last() == old(self).data@);
        }
    }

    /// The lowest and the highest sample seen so far.
    pub fn min_max_range(&self) -> (range: (Density, Density))
        ensures
            range.0 == self.min_sample(),
            range.1 == self.max_sample(),
    {
        (self.min, self.max)
    }

    /// Leaves the samples as they are: the isosurface is taken from the raw
    /// densities.
    pub fn normalize(&mut self)
        ensures
            *final(self) == *old(self),
    {
    }

    /// Number of samples pushed so far.
    pub fn len(&self) -> (len: usize)
        ensures
            len == self@.len(),
    {
        self.data.len()
    }

    /// Number of lattice points along each axis.
    #[verifier::when_used_as_spec(spec_size)]
    pub fn size(&self) -> (size: usize)
        ensures
            size == self.size(),
    {
        self.size
    }

    /// The chunk the grid was sampled for.
    #[verifier::when_used_as_spec(spec_chunk_coord)]
    pub fn chunk_coord(&self) -> (coord: ChunkCoordinate)
        ensures
            coord == self.chunk_coord(),
    {
        self.chunk_coord
    }

    /// The sample at the lattice point `(x, y, z)`.
    pub fn read(&self, x: usize, y: usize, z: usize) -> (value: Density)
        requires
            self.holds(x as int, y as int, z as int),
        ensures
            value == self.sample(x as int, y as int, z as int),
    {
        let len: usize = self.data.len();
        assert(linear_index(x as int, y as int, z as int, self.size as int) < len);
        self.data[Self::to_1d(x, y, z, self.size)]
    }

    /// The sample stored at the linear index of `(x, y, z)`, if one is stored
    /// there.
    pub fn try_read(&self, x: usize, y: usize, z: usize) -> (value: Option<Density>)
        ensures
            value == if linear_index(x as int, y as int, z as int, self.size() as int)
                < self@.len() {
                Some(self.sample(x as int, y as int, z as int))
            } else {
                None
            },
    {
        let len: usize = self.data.len();
        match checked_index(x, y, z, self.size) {
            Some(index) => if index < len {
                Some(self.data[index])
            } else {
                None
            },
            None => None,
        }
    }

    /// The linear index of the lattice point `(x, y, z)` in a cube of `size`
    /// points along each axis.
    pub fn to_1d(x: usize, y: usize, z: usize, size: usize) -> (index: usize)
        requires
            linear_index(x as int, y as int, z as int, size as int) <= usize::MAX,
        ensures
            index == linear_index(x as int, y as int, z as int, size as int),
    {
        (x, y, z, size).to_1d_idx()
    }
}

} // verus!
