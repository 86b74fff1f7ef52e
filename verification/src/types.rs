//! Basic types shared by every module.

use vstd::prelude::*;

verus! {

/// The type of every row, column and flat index.
pub type IndexType = usize;

/// What can go wrong.
#[derive(Debug, PartialEq, Eq, Structural)]
pub enum RlstError {
    /// There is no rank with this number.
    MpiRankError(i32),
}

/// The result of an operation that can fail.
pub type RlstResult<T> = Result<T, RlstError>;

/// The entries of a matrix.
///
/// A scalar type fixes, once and for all, what its sum and product are: the
/// executable operations return exactly the values of the spec functions.
/// Addition is required to be commutative.
pub trait Scalar: Copy {
    /// The additive identity.
    spec fn spec_zero() -> Self;

    /// The sum of two scalars.
    spec fn spec_plus(self, rhs: Self) -> Self;

    /// The product of two scalars.
    spec fn spec_times(self, rhs: Self) -> Self;

    /// Returns the additive identity.
    fn zero() -> (z: Self)
        ensures
            z == Self::spec_zero(),
    ;

    /// Adds two scalars.
    fn plus(self, rhs: Self) -> (sum: Self)
        ensures
            sum == self.spec_plus(rhs),
    ;

    /// Multiplies two scalars.
    fn times(self, rhs: Self) -> (product: Self)
        ensures
            product == self.spec_times(rhs),
    ;

    /// The order of the summands does not matter.
    proof fn lemma_plus_commutative(a: Self, b: Self)
        ensures
            a.spec_plus(b) == b.spec_plus(a),
    ;
}

/// Scalars whose addition is exact, so that sums may be regrouped freely.
///
/// Rounded arithmetic is commutative but not associative; the integers
/// modulo a power of two are both.
pub trait ExactScalar: Scalar {
    /// The grouping of the summands does not matter.
    proof fn lemma_plus_associative(a: Self, b: Self, c: Self)
        ensures
            a.spec_plus(b).spec_plus(c) == a.spec_plus(b.spec_plus(c)),
    ;
}

/// 32-bit integers with arithmetic modulo 2^32.
impl Scalar for i32 {
    open spec fn spec_zero() -> Self {
        0i32
    }

    open spec fn spec_plus(self, rhs: Self) -> Self {
        self.wrapping_add(rhs)
    }

    open spec fn spec_times(self, rhs: Self) -> Self {
        self.wrapping_mul(rhs)
    }

    fn zero() -> (z: Self) {
        0i32
    }

    fn plus(self, rhs: Self) -> (sum: Self) {
        self.wrapping_add(rhs)
    }

    fn times(self, rhs: Self) -> (product: Self) {
        self.wrapping_mul(rhs)
    }

    proof fn lemma_plus_commutative(a: Self, b: Self) {
    }
}

impl ExactScalar for i32 {
    proof fn lemma_plus_associative(a: Self, b: Self, c: Self) {
    }
}

/// 64-bit integers with arithmetic modulo 2^64.
impl Scalar for i64 {
    open spec fn spec_zero() -> Self {
        0i64
    }

    open spec fn spec_plus(self, rhs: Self) -> Self {
        self.wrapping_add(rhs)
    }

    open spec fn spec_times(self, rhs: Self) -> Self {
        self.wrapping_mul(rhs)
    }

    fn zero() -> (z: Self) {
        0i64
    }

    fn plus(self, rhs: Self) -> (sum: Self) {
        self.wrapping_add(rhs)
    }

    fn times(self, rhs: Self) -> (product: Self) {
        self.wrapping_mul(rhs)
    }

    proof fn lemma_plus_commutative(a: Self, b: Self) {
    }
}

impl ExactScalar for i64 {
    proof fn lemma_plus_associative(a: Self, b: Self, c: Self) {
    }
}

} // verus!
