//! Dimension tags: whether the extent of an axis is fixed by the type or
//! chosen at run time.

use vstd::prelude::*;

verus! {

/// A marker for the extent of one axis.
pub trait SizeIdentifier {
    /// The fixed extent of the axis, or `0` when the extent is only known at
    /// run time.
    const N: usize;
}

/// An axis of extent one.
pub struct Fixed1;

/// An axis of extent two.
pub struct Fixed2;

/// An axis of extent three.
pub struct Fixed3;

/// An axis whose extent is chosen at run time.
pub struct Dynamic;

impl SizeIdentifier for Fixed1 {
    const N: usize = 1;
}

impl SizeIdentifier for Fixed2 {
    const N: usize = 2;
}

impl SizeIdentifier for Fixed3 {
    const N: usize = 3;
}

impl SizeIdentifier for Dynamic {
    const N: usize = 0;
}

/// The dimension tags of the row axis and of the column axis.
pub trait SizeType {
    /// The tag of the row axis.
    type R: SizeIdentifier;

    /// The tag of the column axis.
    type C: SizeIdentifier;
}

} // verus!
