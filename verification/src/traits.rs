//! The capability interfaces that a backing implementation provides.

pub mod index_layout;
pub mod layout;
pub mod matrix;
pub mod random_access;
pub mod size;

pub use index_layout::IndexLayout;
pub use layout::{Extent, Layout, LayoutType};
pub use matrix::{MatrixTrait, MatrixTraitAccessByRef, MatrixTraitMut};
pub use random_access::{
    FlatEntries, RandomAccessByRef, RandomAccessByValue, RandomAccessMut, UnsafeRandomAccessByRef,
    UnsafeRandomAccessByValue, UnsafeRandomAccessMut,
};
pub use size::{Dynamic, Fixed1, Fixed2, Fixed3, SizeIdentifier, SizeType};
