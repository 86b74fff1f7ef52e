use rlst::scalar_mult::ScalarMult;
use rlst::traits::{MatrixTrait, RandomAccessByValue, SizeIdentifier};
use rlst::types::Scalar;
use rlst::{Matrix, MatrixD, ScalarProdMat};

/// Double precision numbers as matrix entries.
#[derive(Clone, Copy, Debug, PartialEq)]
struct Real(f64);

impl Scalar for Real {
    fn spec_zero() -> Self {
        Real(0.0)
    }

    fn spec_plus(self, rhs: Self) -> Self {
        Real(self.0 + rhs.0)
    }

    fn spec_times(self, rhs: Self) -> Self {
        Real(self.0 * rhs.0)
    }

    fn lemma_plus_commutative(_a: Self, _b: Self) {}

    fn zero() -> Self {
        Real(0.0)
    }

    fn plus(self, rhs: Self) -> Self {
        Real(self.0 + rhs.0)
    }

    fn times(self, rhs: Self) -> Self {
        Real(self.0 * rhs.0)
    }
}

impl<MatImpl: MatrixTrait<Real, RS, CS>, RS: SizeIdentifier, CS: SizeIdentifier>
    std::ops::Mul<Matrix<Real, MatImpl, RS, CS>> for Real
{
    type Output = ScalarProdMat<Real, MatImpl, RS, CS>;

    fn mul(self, rhs: Matrix<Real, MatImpl, RS, CS>) -> Self::Output {
        Matrix::new(ScalarMult::new(rhs, self))
    }
}

fn counting(rows: usize, cols: usize, start: i64) -> MatrixD<i64> {
    let mut mat = MatrixD::<i64>::zeros_from_dim(rows, cols);
    let values: Vec<i64> = (0..(rows * cols) as i64).map(|i| start + i).collect();
    mat.fill_from_values(&values);
    mat
}

fn entries(mat: &MatrixD<i64>) -> Vec<i64> {
    let (rows, cols) = mat.dim();
    let mut all = Vec::new();
    for row in 0..rows {
        for col in 0..cols {
            all.push(mat.get_value(row, col));
        }
    }
    all
}

#[test]
fn scalar_mult() {
    let mut mat1 = MatrixD::<Real>::zeros_from_dim(2, 3);
    let mut mat2 = MatrixD::<Real>::zeros_from_dim(2, 3);

    *mat1.index_mut([1, 2]) = Real(5.0);
    *mat2.index_mut([1, 2]) = Real(6.0);

    let res = Real(2.0) * mat1 + mat2;
    let res = res.eval();

    assert_eq!(res[[1, 2]], Real(16.0));
}

#[test]
fn worked_scenario_has_zeros_elsewhere() {
    let mut a = MatrixD::<Real>::zeros_from_dim(2, 3);
    let mut b = MatrixD::<Real>::zeros_from_dim(2, 3);
    *a.index_mut([1, 2]) = Real(5.0);
    *b.index_mut([1, 2]) = Real(6.0);

    let r = (Real(2.0) * a + b).eval();

    assert_eq!(r.dim(), (2, 3));
    for row in 0..2 {
        for col in 0..3 {
            let expected = if (row, col) == (1, 2) { 16.0 } else { 0.0 };
            assert_eq!(r[[row, col]], Real(expected));
        }
    }
}

#[test]
fn scalar_mult_of_integers() {
    let mut mat1 = MatrixD::<i64>::zeros_from_dim(2, 3);
    let mut mat2 = MatrixD::<i64>::zeros_from_dim(2, 3);
    *mat1.index_mut([1, 2]) = 5;
    *mat2.index_mut([1, 2]) = 6;

    let res = (2 * mat1 + mat2).eval();

    assert_eq!(res.dim(), (2, 3));
    assert_eq!(entries(&res), vec![0, 0, 0, 0, 0, 16]);
}

#[test]
fn scalar_on_either_side() {
    let a = counting(2, 2, 1);
    let left = (3 * &a).eval();
    let right = (&a * 3).eval();
    assert_eq!(entries(&left), vec![3, 6, 9, 12]);
    assert_eq!(entries(&right), vec![3, 6, 9, 12]);

    let mut small = MatrixD::<i32>::zeros_from_dim(1, 2);
    *small.index_mut([0, 0]) = 7;
    *small.index_mut([0, 1]) = -2;
    let scaled = (-3 * small).eval();
    assert_eq!(scaled.get_value(0, 0), -21);
    assert_eq!(scaled.get_value(0, 1), 6);
}

#[test]
fn sum_has_the_extent_of_its_operands() {
    let a = counting(3, 4, 0);
    let b = counting(3, 4, 100);
    let sum = a + b;
    assert_eq!(sum.dim(), (3, 4));
}

#[test]
fn sum_is_elementwise() {
    let a = counting(2, 3, 1);
    let b = counting(2, 3, 10);
    let sum = &a + &b;
    for row in 0..2 {
        for col in 0..3 {
            assert_eq!(
                sum.get_value(row, col),
                a.get_value(row, col) + b.get_value(row, col)
            );
        }
    }
    assert_eq!(sum.get_value(0, 0), 11);
    assert_eq!(sum.get_value(1, 2), 21);
}

#[test]
fn sum_by_flat_index_matches_sum_by_coordinate() {
    let a = counting(2, 3, 1);
    let b = counting(2, 3, 10);
    let sum = &a + &b;
    for index in 0..6 {
        assert_eq!(sum.get1d_value(index), sum.get_value(index / 3, index % 3));
    }
    assert_eq!(sum.get1d_value(4), 5 + 14);
}

#[test]
fn all_four_ownership_forms_agree() {
    let a = counting(2, 2, 1);
    let b = counting(2, 2, 5);
    let expected = vec![6, 8, 10, 12];

    assert_eq!(entries(&(&a + &b).eval()), expected);
    assert_eq!(entries(&(counting(2, 2, 1) + &b).eval()), expected);
    assert_eq!(entries(&(&a + counting(2, 2, 5)).eval()), expected);
    assert_eq!(entries(&(counting(2, 2, 1) + counting(2, 2, 5)).eval()), expected);
}

#[test]
fn addition_commutes() {
    let a = counting(3, 2, -4);
    let b = counting(3, 2, 9);
    let ab = (&a + &b).eval();
    let ba = (&b + &a).eval();
    assert_eq!(ab.dim(), ba.dim());
    assert_eq!(entries(&ab), entries(&ba));
    assert_eq!(entries(&ab), vec![5, 7, 9, 11, 13, 15]);
}

#[test]
fn addition_of_reals_commutes() {
    let mut a = MatrixD::<Real>::zeros_from_dim(1, 2);
    let mut b = MatrixD::<Real>::zeros_from_dim(1, 2);
    *a.index_mut([0, 0]) = Real(0.1);
    *a.index_mut([0, 1]) = Real(1.0e16);
    *b.index_mut([0, 0]) = Real(0.2);
    *b.index_mut([0, 1]) = Real(1.0);
    let ab = (&a + &b).eval();
    let ba = (&b + &a).eval();
    assert_eq!(ab[[0, 0]], ba[[0, 0]]);
    assert_eq!(ab[[0, 1]], ba[[0, 1]]);
}

#[test]
fn addition_of_integers_associates() {
    let a = counting(2, 2, i64::MAX - 2);
    let b = counting(2, 2, 1);
    let c = counting(2, 2, -7);
    let left = ((&a + &b) + &c).eval();
    let right = (&a + (&b + &c)).eval();
    assert_eq!(entries(&left), entries(&right));
    assert_eq!(
        entries(&left),
        vec![i64::MAX - 8, i64::MAX - 5, i64::MAX - 2, i64::MIN]
    );
}

#[test]
fn borrowing_does_not_change_the_sum() {
    let a = counting(2, 3, 2);
    let b = counting(2, 3, 20);
    let borrowed = (&a + &b).eval();
    let owned = (counting(2, 3, 2) + counting(2, 3, 20)).eval();
    assert_eq!(borrowed.dim(), owned.dim());
    assert_eq!(entries(&borrowed), entries(&owned));
    assert_eq!(entries(&borrowed), vec![22, 24, 26, 28, 30, 32]);
}

#[test]
fn evaluation_keeps_extent_and_entries() {
    let a = counting(3, 2, 7);
    let view = Matrix::from_ref(&a);
    let copy = view.eval();
    assert_eq!(copy.dim(), (3, 2));
    assert_eq!(entries(&copy), vec![7, 8, 9, 10, 11, 12]);
    assert_eq!(entries(&a), vec![7, 8, 9, 10, 11, 12]);
}

#[test]
fn evaluation_of_an_empty_sum() {
    let a = MatrixD::<i64>::zeros_from_dim(0, 4);
    let b = MatrixD::<i64>::zeros_from_dim(0, 4);
    let sum = (a + b).eval();
    assert_eq!(sum.dim(), (0, 4));
    assert_eq!(entries(&sum), Vec::<i64>::new());
}

#[test]
fn nested_expression() {
    let a = counting(2, 2, 1);
    let b = counting(2, 2, 10);
    let c = counting(2, 2, 100);
    let r = (2 * (&a + &b) + &c * 3).eval();
    assert_eq!(entries(&r), vec![322, 329, 336, 343]);
}
