//! Lazily evaluated dense matrix expressions.
//!
//! A [`matrix::Matrix`] is a thin handle over a backing implementation: owned
//! dense storage, a borrowed view of another handle, or an expression node
//! that computes its entries on demand. Every backing implementation states
//! its entries through the spec functions of the access traits in
//! [`traits`], so the result of composing and evaluating expressions is
//! known entry by entry.

pub mod types;
pub mod traits;
pub mod addition;
pub mod base_matrix;
pub mod index_layout;
pub mod layouts;
pub mod matrix;
pub mod matrix_ref;
pub mod scalar_mult;

pub use addition::{Addition, AdditionMat};
pub use base_matrix::BaseMatrix;
pub use layouts::DefaultLayout;
pub use matrix::{ColumnVectorD, GenericBaseMatrixMut, Matrix, MatrixD, RefMat, RowVectorD};
pub use matrix_ref::MatrixRef;
pub use scalar_mult::{ScalarMult, ScalarProdMat};
pub use traits::{Dynamic, Fixed1, Fixed2, Fixed3};
pub use types::{IndexType, Scalar};
