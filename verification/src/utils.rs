use vstd::arithmetic::div_mod::{lemma_div_denominator, lemma_fundamental_div_mod_converse};
use vstd::arithmetic::mul::{lemma_mul_inequality, lemma_mul_is_associative};
use vstd::prelude::*;

verus! {

/// Position of the lattice point `(x, y, z)` in the flat sequence of a cube with
/// `size` points along each axis: `x` runs fastest, `z` slowest.
pub open spec fn linear_index(x: int, y: int, z: int, size: int) -> int {
    x + y * size + z * size * size
}

/// The lattice point that sits at position `index` of the flat sequence.
pub open spec fn lattice_point(index: int, size: int) -> (int, int, int) {
    (index % size, (index / size) % size, index / (size * size))
}

/// Number of lattice points in a cube with `size` points along each axis.
pub open spec fn cube_len(size: int) -> int {
    size * size * size
}

/// A value that names one slot of a flat sequence.
pub trait To1DIndex {
    /// The slot fits the machine's index type.
    spec fn index_fits(&self) -> bool;

    /// The slot, as a mathematical integer.
    spec fn linear(&self) -> int;

    fn to_1d_idx(&self) -> (index: usize)
        requires
            self.index_fits(),
        ensures
            index == self.linear(),
    ;
}

/// `(x, y, z, size)`: the lattice point `(x, y, z)` of a cube with `size` points
/// along each axis.
impl To1DIndex for (usize, usize, usize, usize) {
    open spec fn index_fits(&self) -> bool {
        linear_index(self.0 as int, self.1 as int, self.2 as int, self.3 as int) <= usize::MAX
    }

    open spec fn linear(&self) -> int {
        linear_index(self.0 as int, self.1 as int, self.2 as int, self.3 as int)
    }

    fn to_1d_idx(&self) -> (index: usize) {
        let x: usize = self.0;
        let y: usize = self.1;
        let z: usize = self.2;
        let size: usize = self.3;
        proof {
            lemma_index_terms(x as int, y as int, z as int, size as int);
        }
        let row: usize = if y == 0 {
            0
        } else {
            y * size
        };
        let plane: usize = if z == 0 {
            0
        } else {
            z * (size * size)
        };
        x + row + plane
    }
}

/// The linear index of `(x, y, z)`, or `None` where it does not fit the
/// machine's index type.
pub fn checked_index(x: usize, y: usize, z: usize, size: usize) -> (index: Option<usize>)
    ensures
        match index {
            Some(i) => i == linear_index(x as int, y as int, z as int, size as int),
            None => linear_index(x as int, y as int, z as int, size as int) > usize::MAX,
        },
{
    proof {
        lemma_index_terms(x as int, y as int, z as int, size as int);
    }
    let row: usize = if y == 0 {
        0
    } else {
        match y.checked_mul(size) {
            Some(row) => row,
            None => {
                return None;
            },
        }
    };
    let plane: usize = if z == 0 {
        0
    } else {
        match size.checked_mul(size) {
            Some(square) => match z.checked_mul(square) {
                Some(plane) => plane,
                None => {
                    return None;
                },
            },
            None => {
                return None;
            },
        }
    };
    match x.checked_add(row) {
        Some(partial) => partial.checked_add(plane),
        None => None,
    }
}

/// Inverse of the linearisation: the lattice point stored at `index`.
pub fn from_1d_idx(index: usize, size: usize) -> (point: (usize, usize, usize))
    requires
        size > 0,
    ensures
        (point.0 as int, point.1 as int, point.2 as int) == lattice_point(
            index as int,
            size as int,
        ),
{
    let rest: usize = index / size;
    proof {
        lemma_div_denominator(index as int, size as int, size as int);
    }
    (index % size, rest % size, rest / size)
}

/// Each term of a linear index is bounded by the whole, and a non-zero `z`
/// bounds `size * size` too.
pub proof fn lemma_index_terms(x: int, y: int, z: int, size: int)
    requires
        0 <= x,
        0 <= y,
        0 <= z,
        0 <= size,
    ensures
        0 <= y * size <= linear_index(x, y, z, size),
        0 <= z * (size * size) <= linear_index(x, y, z, size),
        z * (size * size) == z * size * size,
        z > 0 ==> 0 <= size * size <= z * (size * size),
{
    assert(0 <= y * size) by (nonlinear_arith)
        requires
            0 <= y,
            0 <= size,
    ;
    assert(0 <= size * size) by (nonlinear_arith)
        requires
            0 <= size,
    ;
    lemma_mul_is_associative(z, size, size);
    assert(0 <= z * (size * size)) by (nonlinear_arith)
        requires
            0 <= z,
            0 <= size * size,
    ;
    if z > 0 {
        lemma_mul_inequality(1, z, size * size);
    }
}

/// A linear index grows with each coordinate: inside the cube it stays below
/// `cube_len(size)`.
pub proof fn lemma_index_in_cube(x: int, y: int, z: int, size: int)
    requires
        0 <= x < size,
        0 <= y < size,
        0 <= z < size,
    ensures
        0 <= linear_index(x, y, z, size) < cube_len(size),
{
    lemma_index_terms(x, y, z, size);
    assert(y * size <= (size - 1) * size) by (nonlinear_arith)
        requires
            y <= size - 1,
            0 <= size,
    ;
    assert(z * size * size <= (size - 1) * size * size) by (nonlinear_arith)
        requires
            0 <= z <= size - 1,
            0 <= size,
    ;
    assert((size - 1) + (size - 1) * size + (size - 1) * size * size == size * size * size - 1)
        by (nonlinear_arith);
}

/// Linearising a lattice point of the cube and reading the point back gives the
/// point that went in.
pub proof fn lemma_index_round_trip(x: int, y: int, z: int, size: int)
    requires
        0 <= x < size,
        0 <= y < size,
        0 <= z < size,
    ensures
        lattice_point(linear_index(x, y, z, size), size) == (x, y, z),
{
    let index = linear_index(x, y, z, size);
    lemma_index_in_cube(x, y, z, size);
    assert(index == (y + z * size) * size + x) by (nonlinear_arith)
        requires
            index == x + y * size + z * size * size,
    ;
    lemma_fundamental_div_mod_converse(index, size, y + z * size, x);
    lemma_fundamental_div_mod_converse(y + z * size, size, z, y);
    lemma_div_denominator(index, size, size);
}

/// Reading the point at a slot of the cube and linearising it gives the slot
/// back, and the point lies inside the cube.
pub proof fn lemma_point_round_trip(index: int, size: int)
    requires
        0 < size,
        0 <= index < cube_len(size),
    ensures
        ({
            let p = lattice_point(index, size);
            &&& 0 <= p.0 < size
            &&& 0 <= p.1 < size
            &&& 0 <= p.2 < size
            &&& linear_index(p.0, p.1, p.2, size) == index
        }),
{
    let rest = index / size;
    let x = index % size;
    let y = rest % size;
    let z = rest / size;
    lemma_div_denominator(index, size, size);
    vstd::arithmetic::div_mod::lemma_fundamental_div_mod(index, size);
    vstd::arithmetic::div_mod::lemma_fundamental_div_mod(rest, size);
    assert(0 <= rest) by (nonlinear_arith)
        requires
            index == size * rest + x,
            0 <= index,
            0 <= x < size,
    ;
    assert(0 <= z) by (nonlinear_arith)
        requires
            rest == size * z + y,
            0 <= rest,
            0 <= y < size,
    ;
    assert(z < size) by (nonlinear_arith)
        requires
            index == size * rest + x,
            rest == size * z + y,
            0 <= x,
            0 <= y,
            0 < size,
            index < size * size * size,
    ;
    assert(x + y * size + z * size * size == index) by (nonlinear_arith)
        requires
            index == size * rest + x,
            rest == size * z + y,
    ;
}

} // verus!
