//! Scalars as raw IEEE-754 single-precision words, and the small vector and
//! matrix records built from them.
//!
//! The batcher never does arithmetic on scalars: it stores, selects and
//! orders them, and flips a sign bit. Everything here is therefore stated
//! over the 32-bit pattern of a value.

use vstd::prelude::*;

verus! {

/// Bit pattern of `0.0`.
pub const ZERO_BITS: u32 = 0x0000_0000;

/// Bit pattern of `1.0`.
pub const ONE_BITS: u32 = 0x3F80_0000;

/// The sign bit of a single-precision word.
pub const SIGN_BIT: u32 = 0x8000_0000;

/// One single-precision value, held as its bit pattern.
#[derive(Clone, Copy, Debug, PartialEq, Eq, Structural)]
pub struct Scalar {
    pub bits: u32,
}

impl Scalar {
    /// The scalar `0.0`.
    pub open spec fn zero() -> Scalar {
        Scalar { bits: ZERO_BITS }
    }

    /// The scalar `1.0`.
    pub open spec fn one() -> Scalar {
        Scalar { bits: ONE_BITS }
    }

    /// The scalar with the sign bit flipped and every other bit kept.
    pub open spec fn neg(self) -> Scalar {
        Scalar { bits: self.bits ^ SIGN_BIT }
    }

    pub fn from_bits(bits: u32) -> (s: Scalar)
        ensures
            s.bits == bits,
    {
        Scalar { bits }
    }

    pub fn to_bits(self) -> (bits: u32)
        ensures
            bits == self.bits,
    {
        self.bits
    }

    pub fn new_zero() -> (s: Scalar)
        ensures
            s == Scalar::zero(),
    {
        Scalar { bits: ZERO_BITS }
    }

    pub fn new_one() -> (s: Scalar)
        ensures
            s == Scalar::one(),
    {
        Scalar { bits: ONE_BITS }
    }

    /// Negation: flips the sign bit, which is what unary minus does to a
    /// single-precision value, NaNs and zeros included.
    pub fn negated(self) -> (s: Scalar)
        ensures
            s == self.neg(),
    {
        Scalar { bits: self.bits ^ SIGN_BIT }
    }
}

/// Negating twice gives the value back, bit for bit.
pub proof fn lemma_neg_involutive(s: Scalar)
    ensures
        s.neg().neg() == s,
{
    let b = s.bits;
    assert((b ^ 0x8000_0000u32) ^ 0x8000_0000u32 == b) by (bit_vector);
}

/// Negation changes the sign bit and nothing else.
pub proof fn lemma_neg_flips_sign_only(s: Scalar)
    ensures
        s.neg().bits & SIGN_BIT != s.bits & SIGN_BIT,
        s.neg().bits & !SIGN_BIT == s.bits & !SIGN_BIT,
{
    let b = s.bits;
    assert((b ^ 0x8000_0000u32) & 0x8000_0000u32 != b & 0x8000_0000u32) by (bit_vector);
    assert((b ^ 0x8000_0000u32) & !0x8000_0000u32 == b & !0x8000_0000u32) by (bit_vector);
}

/// A two-component vector.
#[derive(Clone, Copy, Debug, PartialEq, Eq, Structural)]
pub struct Vector2 {
    pub x: Scalar,
    pub y: Scalar,
}

/// A four-component (homogeneous) vector.
#[derive(Clone, Copy, Debug, PartialEq, Eq, Structural)]
pub struct Vector4 {
    pub x: Scalar,
    pub y: Scalar,
    pub z: Scalar,
    pub w: Scalar,
}

impl Vector4 {
    /// The first two components.
    pub open spec fn spec_xy(self) -> Vector2 {
        Vector2 { x: self.x, y: self.y }
    }

    #[verifier::when_used_as_spec(spec_xy)]
    pub fn xy(self) -> (v: Vector2)
        ensures
            v == self.spec_xy(),
    {
        Vector2 { x: self.x, y: self.y }
    }
}

/// A 4x4 matrix, stored by columns.
#[derive(Clone, Copy, Debug, PartialEq, Eq, Structural)]
pub struct Matrix4 {
    pub c0: Vector4,
    pub c1: Vector4,
    pub c2: Vector4,
    pub c3: Vector4,
}

impl Matrix4 {
    /// Column `i`; columns past the fourth do not exist.
    pub open spec fn spec_column(self, i: usize) -> Vector4
        recommends
            i < 4,
    {
        if i == 0 {
            self.c0
        } else if i == 1 {
            self.c1
        } else if i == 2 {
            self.c2
        } else {
            self.c3
        }
    }

    #[verifier::when_used_as_spec(spec_column)]
    pub fn column(self, i: usize) -> (c: Vector4)
        requires
            i < 4,
        ensures
            c == self.spec_column(i),
    {
        if i == 0 {
            self.c0
        } else if i == 1 {
            self.c1
        } else if i == 2 {
            self.c2
        } else {
            self.c3
        }
    }
}

} // verus!
