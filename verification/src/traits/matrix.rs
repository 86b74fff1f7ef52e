//! What a backing implementation of a matrix handle has to provide.

use crate::layouts::DefaultLayout;
use crate::traits::{
    Layout, SizeIdentifier, SizeType, UnsafeRandomAccessByRef, UnsafeRandomAccessByValue,
    UnsafeRandomAccessMut,
};
use crate::types::Scalar;
use vstd::prelude::*;

verus! {

/// A backing implementation whose entries can be read by value.
pub trait MatrixTrait<Item: Scalar, RS: SizeIdentifier, CS: SizeIdentifier>:
    UnsafeRandomAccessByValue<Item = Item> + Layout<Impl = DefaultLayout> + SizeType<R = RS, C = CS> {
}

/// A backing implementation whose entries can also be borrowed.
pub trait MatrixTraitAccessByRef<Item: Scalar, RS: SizeIdentifier, CS: SizeIdentifier>:
    UnsafeRandomAccessByRef + MatrixTrait<Item, RS, CS> {
}

/// A backing implementation whose entries can also be written.
pub trait MatrixTraitMut<Item: Scalar, RS: SizeIdentifier, CS: SizeIdentifier>:
    UnsafeRandomAccessMut + MatrixTrait<Item, RS, CS> {
}

impl<
    Item: Scalar,
    RS: SizeIdentifier,
    CS: SizeIdentifier,
    Mat: UnsafeRandomAccessByValue<Item = Item> + Layout<Impl = DefaultLayout> + SizeType<
        R = RS,
        C = CS,
    >,
> MatrixTrait<Item, RS, CS> for Mat {
}

impl<
    Item: Scalar,
    RS: SizeIdentifier,
    CS: SizeIdentifier,
    Mat: UnsafeRandomAccessByRef + MatrixTrait<Item, RS, CS>,
> MatrixTraitAccessByRef<Item, RS, CS> for Mat {
}

impl<
    Item: Scalar,
    RS: SizeIdentifier,
    CS: SizeIdentifier,
    Mat: UnsafeRandomAccessMut + MatrixTrait<Item, RS, CS>,
> MatrixTraitMut<Item, RS, CS> for Mat {
}

} // verus!
