use vstd::prelude::*;

verus! {

/// Encoding of the lowest value with the sign bit set (negative zero).
pub const SIGN_BIT: u32 = 0x8000_0000;

/// Encoding of positive infinity: every larger magnitude is not a number.
pub const INFINITY_BITS: u32 = 0x7f80_0000;

/// Encoding of the largest finite value.
pub const LARGEST_BITS: u32 = 0x7f7f_ffff;

/// Encoding of the smallest (most negative) finite value.
pub const SMALLEST_BITS: u32 = 0xff7f_ffff;

/// One sample of a density field, held as its IEEE-754 binary32 encoding.
///
/// The surface of the terrain runs where the density changes sign, so the sign
/// bit is what the mesher reads; the order of two samples is what the running
/// bounds of a grid read. Both are exact on the encoding.
#[derive(Clone, Copy, Debug, PartialEq, Eq, Structural)]
pub struct Density {
    pub bits: u32,
}

impl Density {
    /// The sign bit is set. True of negative values, of negative zero and of
    /// not-a-number encodings with the bit set.
    pub open spec fn sign_negative(self) -> bool {
        self.bits >= SIGN_BIT
    }

    /// The encoding without its sign bit.
    pub open spec fn magnitude(self) -> int {
        if self.bits >= SIGN_BIT {
            self.bits - SIGN_BIT
        } else {
            self.bits as int
        }
    }

    /// The encoding is not a number.
    pub open spec fn nan(self) -> bool {
        self.magnitude() > INFINITY_BITS
    }

    /// Place of the encoded value on the number line, for encodings that are
    /// numbers: a larger value has a larger rank, and both zeros have rank 0.
    pub open spec fn rank(self) -> int {
        if self.sign_negative() {
            -self.magnitude()
        } else {
            self.magnitude()
        }
    }

    /// The encoded value is strictly below `other`'s. Nothing is below or above
    /// what is not a number.
    pub open spec fn less_than(self, other: Density) -> bool {
        !self.nan() && !other.nan() && self.rank() < other.rank()
    }

    pub fn from_bits(bits: u32) -> (density: Density)
        ensures
            density.bits == bits,
    {
        Density { bits }
    }

    pub fn to_bits(self) -> (bits: u32)
        ensures
            bits == self.bits,
    {
        self.bits
    }

    /// The largest finite value, where a running minimum starts.
    pub fn largest() -> (density: Density)
        ensures
            density.bits == LARGEST_BITS,
    {
        Density { bits: LARGEST_BITS }
    }

    /// The smallest finite value, where a running maximum starts.
    pub fn smallest() -> (density: Density)
        ensures
            density.bits == SMALLEST_BITS,
    {
        Density { bits: SMALLEST_BITS }
    }

    pub fn is_sign_negative(self) -> (negative: bool)
        ensures
            negative == self.sign_negative(),
    {
        self.bits >= SIGN_BIT
    }

    pub fn is_nan(self) -> (nan: bool)
        ensures
            nan == self.nan(),
    {
        self.magnitude_bits() > INFINITY_BITS
    }

    fn magnitude_bits(self) -> (magnitude: u32)
        ensures
            magnitude == self.magnitude(),
    {
        if self.bits >= SIGN_BIT {
            self.bits - SIGN_BIT
        } else {
            self.bits
        }
    }

    fn rank_value(self) -> (rank: i64)
        ensures
            rank == self.rank(),
    {
        let magnitude: i64 = self.magnitude_bits() as i64;
        if self.is_sign_negative() {
            -magnitude
        } else {
            magnitude
        }
    }

    /// Strictly below, as the encoded values compare.
    pub fn lt(self, other: Density) -> (below: bool)
        ensures
            below == self.less_than(other),
    {
        !self.is_nan() && !other.is_nan() && self.rank_value() < other.rank_value()
    }

    /// Strictly above, as the encoded values compare.
    pub fn gt(self, other: Density) -> (above: bool)
        ensures
            above == other.less_than(self),
    {
        other.lt(self)
    }
}

/// No sample is below itself, and of two samples at most one is below the
/// other.
pub proof fn lemma_less_than_is_strict(a: Density, b: Density)
    ensures
        !a.less_than(a),
        !(a.less_than(b) && b.less_than(a)),
{
}

/// Being below is transitive.
pub proof fn lemma_less_than_is_transitive(a: Density, b: Density, c: Density)
    requires
        a.less_than(b),
        b.less_than(c),
    ensures
        a.less_than(c),
{
}

} // verus!
