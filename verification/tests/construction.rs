use rand::Rng;
use rand_distr::StandardNormal;
use rlst::traits::{Layout, LayoutType};
use rlst::types::Scalar;
use rlst::{ColumnVectorD, GenericBaseMatrixMut, Dynamic, RowVectorD};

/// Double precision numbers as matrix entries.
#[derive(Clone, Copy, Debug, PartialEq)]
struct Real(f64);

impl Scalar for Real {
    fn spec_zero() -> Self {
        Real(0.0)
    }

    fn spec_plus(self, rhs: Self) -> Self {
        Real(self.0 + rhs.0)
    }

    fn spec_times(self, rhs: Self) -> Self {
        Real(self.0 * rhs.0)
    }

    fn lemma_plus_commutative(_a: Self, _b: Self) {}

    fn zero() -> Self {
        Real(0.0)
    }

    fn plus(self, rhs: Self) -> Self {
        Real(self.0 + rhs.0)
    }

    fn times(self, rhs: Self) -> Self {
        Real(self.0 * rhs.0)
    }
}

fn standard_normal(count: usize) -> Vec<Real> {
    let mut rng = rand::thread_rng();
    (0..count).map(|_| Real(rng.sample(StandardNormal))).collect()
}

#[test]
fn create_matrix() {
    let dim = (2, 3);
    let mat = GenericBaseMatrixMut::<Real, Dynamic, Dynamic>::zeros_from_dim(dim.0, dim.1);

    assert_eq!(mat.dim(), (2, 3));
}

#[test]
fn create_random_matrix() {
    let dim = (2, 3);
    let mut mat = GenericBaseMatrixMut::<Real, Dynamic, Dynamic>::zeros_from_dim(dim.0, dim.1);
    let values = standard_normal(mat.layout().number_of_elements());
    mat.fill_from_values(&values);

    assert_eq!(mat.dim(), (2, 3));
}

#[test]
fn create_column_vector() {
    let length = 5;
    let vec = ColumnVectorD::<Real>::zeros_from_length(length);

    assert_eq!(vec.dim(), (5, 1));
}

#[test]
fn create_row_vector() {
    let length = 5;
    let vec = RowVectorD::<Real>::zeros_from_length(length);

    assert_eq!(vec.dim(), (1, 5));
}

#[test]
fn create_random_vector() {
    let length = 5;
    let mut vec = ColumnVectorD::<Real>::zeros_from_length(length);
    let values = standard_normal(vec.layout().number_of_elements());
    vec.fill_from_values(&values);

    assert_eq!(vec.dim(), (5, 1));
}
