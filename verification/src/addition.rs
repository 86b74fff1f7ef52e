//! The sum of two matrices as an expression.
//!
//! An [`Addition`] owns its two operands and computes each of its entries
//! when that entry is read. Two matrices can be added if they have the same
//! extent.
//!
//! The operator `+` is defined for owned and for borrowed operands. Verus
//! carries the contract of an operator to the place where the operator sign
//! is written only if both operands are owned; with a borrowed operand,
//! verified callers write `Add::add(a, b)`, which is the same function.

use crate::layouts::{
    lemma_layout_fits, lemma_layout_from_dimension, lemma_row_major_fits, row_major_layout,
    DefaultLayout,
};
use crate::matrix::{Matrix, MatrixD};
use crate::matrix_ref::MatrixRef;
use crate::traits::layout::{in_bounds, Extent};
use crate::traits::random_access::{same_entries, FlatEntries};
use crate::traits::{
    Layout, LayoutType, MatrixTrait, SizeIdentifier, SizeType, UnsafeRandomAccessByValue,
};
use crate::types::{ExactScalar, IndexType, Scalar};
use std::marker::PhantomData;
use vstd::pervasive::runtime_assert;
use vstd::prelude::*;

verus! {

/// A handle over the sum of two matrices.
pub type AdditionMat<Item, MatImpl1, MatImpl2, RS, CS> = Matrix<
    Item,
    Addition<Item, MatImpl1, MatImpl2, RS, CS>,
    RS,
    CS,
>;

/// The sum of two matrices of the same extent.
#[verifier::reject_recursive_types(Item)]
#[verifier::reject_recursive_types(RS)]
#[verifier::reject_recursive_types(CS)]
pub struct Addition<Item, MatImpl1, MatImpl2, RS, CS>(
    Matrix<Item, MatImpl1, RS, CS>,
    Matrix<Item, MatImpl2, RS, CS>,
    DefaultLayout,
    PhantomData<RS>,
    PhantomData<CS>,
) where
    Item: Scalar,
    RS: SizeIdentifier,
    CS: SizeIdentifier,
    MatImpl1: MatrixTrait<Item, RS, CS>,
    MatImpl2: MatrixTrait<Item, RS, CS>,
;

impl<
    Item: Scalar,
    MatImpl1: MatrixTrait<Item, RS, CS>,
    MatImpl2: MatrixTrait<Item, RS, CS>,
    RS: SizeIdentifier,
    CS: SizeIdentifier,
> Addition<Item, MatImpl1, MatImpl2, RS, CS> {
    /// Both operands have the extent of the sum, whose layout is the
    /// row-major layout of that extent.
    #[verifier::type_invariant]
    pub open spec fn wf(&self) -> bool {
        &&& self.lhs().spec_dim() == self.spec_dim()
        &&& self.rhs().spec_dim() == self.spec_dim()
        &&& self.spec_layout() == row_major_layout(self.spec_dim())
        &&& self.spec_layout().wf()
    }

    /// The first operand.
    pub closed spec fn lhs(&self) -> Matrix<Item, MatImpl1, RS, CS> {
        self.0
    }

    /// The second operand.
    pub closed spec fn rhs(&self) -> Matrix<Item, MatImpl2, RS, CS> {
        self.1
    }

    /// The sum of `mat1` and `mat2`.
    pub closed spec fn spec_new(
        mat1: Matrix<Item, MatImpl1, RS, CS>,
        mat2: Matrix<Item, MatImpl2, RS, CS>,
    ) -> Self {
        Addition(mat1, mat2, row_major_layout(mat1.spec_dim()), PhantomData, PhantomData)
    }

    /// Creates the sum of `mat1` and `mat2`, which have to be of the same
    /// extent. The sum has that extent too.
    pub fn new(mat1: Matrix<Item, MatImpl1, RS, CS>, mat2: Matrix<Item, MatImpl2, RS, CS>) -> (sum:
        Self)
        requires
            mat1.spec_dim() == mat2.spec_dim(),
        ensures
            sum == Self::spec_new(mat1, mat2),
            sum.wf(),
            sum.lhs() == mat1,
            sum.rhs() == mat2,
            sum.spec_dim() == mat1.spec_dim(),
    {
        let layout1 = mat1.layout();
        let dim = layout1.dim();
        let dim2 = mat2.layout().dim();
        runtime_assert(dim.0 == dim2.0 && dim.1 == dim2.1);
        proof {
            use_type_invariant(layout1);
            lemma_layout_fits(*layout1);
            lemma_row_major_fits(mat1.spec_dim());
        }
        let layout = DefaultLayout::from_dimension(dim, (dim.1, 1));
        Addition(mat1, mat2, layout, PhantomData, PhantomData)
    }
}

impl<
    Item: Scalar,
    MatImpl1: MatrixTrait<Item, RS, CS>,
    MatImpl2: MatrixTrait<Item, RS, CS>,
    RS: SizeIdentifier,
    CS: SizeIdentifier,
> Layout for Addition<Item, MatImpl1, MatImpl2, RS, CS> {
    type Impl = DefaultLayout;

    closed spec fn spec_layout(&self) -> DefaultLayout {
        self.2
    }

    fn layout(&self) -> (l: &DefaultLayout) {
        &self.2
    }
}

impl<
    Item: Scalar,
    MatImpl1: MatrixTrait<Item, RS, CS>,
    MatImpl2: MatrixTrait<Item, RS, CS>,
    RS: SizeIdentifier,
    CS: SizeIdentifier,
> SizeType for Addition<Item, MatImpl1, MatImpl2, RS, CS> {
    type C = CS;

    type R = RS;
}

impl<
    Item: Scalar,
    MatImpl1: MatrixTrait<Item, RS, CS>,
    MatImpl2: MatrixTrait<Item, RS, CS>,
    RS: SizeIdentifier,
    CS: SizeIdentifier,
> UnsafeRandomAccessByValue for Addition<Item, MatImpl1, MatImpl2, RS, CS> {
    type Item = Item;

    open spec fn spec_value(&self, row: int, col: int) -> Item {
        self.lhs().spec_value(row, col).spec_plus(self.rhs().spec_value(row, col))
    }

    /// Returns the sum of the entries of the two operands at position
    /// (`row`, `col`).
    fn get_value_unchecked(&self, row: IndexType, col: IndexType) -> (value: Item)
        ensures
            value == self.lhs().spec_value(row as int, col as int).spec_plus(
                self.rhs().spec_value(row as int, col as int),
            ),
    {
        proof {
            use_type_invariant(self);
        }
        self.0.get_value_unchecked(row, col).plus(self.1.get_value_unchecked(row, col))
    }

    /// Returns the sum of the entries of the two operands with flat index
    /// `index`.
    fn get1d_value_unchecked(&self, index: IndexType) -> (value: Item)
        ensures
            value == self.lhs().spec_value1d(index as int).spec_plus(
                self.rhs().spec_value1d(index as int),
            ),
    {
        proof {
            use_type_invariant(self);
        }
        self.0.get1d_value_unchecked(index).plus(self.1.get1d_value_unchecked(index))
    }
}

impl<
    Item: Scalar,
    MatImpl1: MatrixTrait<Item, RS, CS>,
    MatImpl2: MatrixTrait<Item, RS, CS>,
    RS: SizeIdentifier,
    CS: SizeIdentifier,
> std::ops::Add<Matrix<Item, MatImpl2, RS, CS>> for Matrix<Item, MatImpl1, RS, CS> {
    type Output = AdditionMat<Item, MatImpl1, MatImpl2, RS, CS>;

    /// The sum of two owned handles, which have to be of the same extent.
    fn add(self, rhs: Matrix<Item, MatImpl2, RS, CS>) -> (sum: Self::Output)
        ensures
            sum.implementation().lhs() == self,
            sum.implementation().rhs() == rhs,
            sum.implementation().wf(),
            sum.spec_dim() == self.spec_dim(),
    {
        Matrix::new(Addition::new(self, rhs))
    }
}

impl<
    Item: Scalar,
    MatImpl1: MatrixTrait<Item, RS, CS>,
    MatImpl2: MatrixTrait<Item, RS, CS>,
    RS: SizeIdentifier,
    CS: SizeIdentifier,
> vstd::std_specs::ops::AddSpecImpl<Matrix<Item, MatImpl2, RS, CS>> for Matrix<Item, MatImpl1, RS, CS> {
    open spec fn obeys_add_spec() -> bool {
        true
    }

    open spec fn add_req(self, rhs: Matrix<Item, MatImpl2, RS, CS>) -> bool {
        self.spec_dim() == rhs.spec_dim()
    }

    open spec fn add_spec(self, rhs: Matrix<Item, MatImpl2, RS, CS>) -> Self::Output {
        Matrix::spec_new(Addition::spec_new(self, rhs))
    }
}

impl<
    'a,
    Item: Scalar,
    MatImpl1: MatrixTrait<Item, RS, CS>,
    MatImpl2: MatrixTrait<Item, RS, CS>,
    RS: SizeIdentifier,
    CS: SizeIdentifier,
> std::ops::Add<&'a Matrix<Item, MatImpl2, RS, CS>> for Matrix<Item, MatImpl1, RS, CS> {
    type Output = AdditionMat<Item, MatImpl1, MatrixRef<'a, Item, MatImpl2, RS, CS>, RS, CS>;

    /// The sum of an owned and a borrowed handle, which have to be of the
    /// same extent.
    fn add(self, rhs: &'a Matrix<Item, MatImpl2, RS, CS>) -> (sum: Self::Output)
        ensures
            sum.implementation().lhs() == self,
            sum.implementation().rhs() == Matrix::spec_from_ref(rhs),
            sum.implementation().rhs().implementation().referent() == *rhs,
            sum.implementation().wf(),
            sum.spec_dim() == self.spec_dim(),
    {
        Matrix::new(Addition::new(self, Matrix::from_ref(rhs)))
    }
}

impl<
    'a,
    Item: Scalar,
    MatImpl1: MatrixTrait<Item, RS, CS>,
    MatImpl2: MatrixTrait<Item, RS, CS>,
    RS: SizeIdentifier,
    CS: SizeIdentifier,
> vstd::std_specs::ops::AddSpecImpl<&'a Matrix<Item, MatImpl2, RS, CS>> for Matrix<Item, MatImpl1, RS, CS> {
    open spec fn obeys_add_spec() -> bool {
        true
    }

    open spec fn add_req(self, rhs: &'a Matrix<Item, MatImpl2, RS, CS>) -> bool {
        self.spec_dim() == rhs.spec_dim()
    }

    open spec fn add_spec(self, rhs: &'a Matrix<Item, MatImpl2, RS, CS>) -> Self::Output {
        Matrix::spec_new(Addition::spec_new(self, Matrix::spec_from_ref(rhs)))
    }
}

impl<
    'a,
    Item: Scalar,
    MatImpl1: MatrixTrait<Item, RS, CS>,
    MatImpl2: MatrixTrait<Item, RS, CS>,
    RS: SizeIdentifier,
    CS: SizeIdentifier,
> std::ops::Add<Matrix<Item, MatImpl2, RS, CS>> for &'a Matrix<Item, MatImpl1, RS, CS> {
    type Output = AdditionMat<Item, MatrixRef<'a, Item, MatImpl1, RS, CS>, MatImpl2, RS, CS>;

    /// The sum of a borrowed and an owned handle, which have to be of the
    /// same extent.
    fn add(self, rhs: Matrix<Item, MatImpl2, RS, CS>) -> (sum: Self::Output)
        ensures
            sum.implementation().lhs() == Matrix::spec_from_ref(self),
            sum.implementation().lhs().implementation().referent() == *self,
            sum.implementation().rhs() == rhs,
            sum.implementation().wf(),
            sum.spec_dim() == self.spec_dim(),
    {
        Matrix::new(Addition::new(Matrix::from_ref(self), rhs))
    }
}

impl<
    'a,
    Item: Scalar,
    MatImpl1: MatrixTrait<Item, RS, CS>,
    MatImpl2: MatrixTrait<Item, RS, CS>,
    RS: SizeIdentifier,
    CS: SizeIdentifier,
> vstd::std_specs::ops::AddSpecImpl<Matrix<Item, MatImpl2, RS, CS>> for &'a Matrix<Item, MatImpl1, RS, CS> {
    open spec fn obeys_add_spec() -> bool {
        true
    }

    open spec fn add_req(self, rhs: Matrix<Item, MatImpl2, RS, CS>) -> bool {
        self.spec_dim() == rhs.spec_dim()
    }

    open spec fn add_spec(self, rhs: Matrix<Item, MatImpl2, RS, CS>) -> Self::Output {
        Matrix::spec_new(Addition::spec_new(Matrix::spec_from_ref(self), rhs))
    }
}

impl<
    'a,
    Item: Scalar,
    MatImpl1: MatrixTrait<Item, RS, CS>,
    MatImpl2: MatrixTrait<Item, RS, CS>,
    RS: SizeIdentifier,
    CS: SizeIdentifier,
> std::ops::Add<&'a Matrix<Item, MatImpl2, RS, CS>> for &'a Matrix<Item, MatImpl1, RS, CS> {
    type Output = AdditionMat<Item, MatrixRef<'a, Item, MatImpl1, RS, CS>, MatrixRef<'a, Item, MatImpl2, RS, CS>, RS, CS>;

    /// The sum of two borrowed handles, which have to be of the same extent.
    fn add(self, rhs: &'a Matrix<Item, MatImpl2, RS, CS>) -> (sum: Self::Output)
        ensures
            sum.implementation().lhs() == Matrix::spec_from_ref(self),
            sum.implementation().lhs().implementation().referent() == *self,
            sum.implementation().rhs() == Matrix::spec_from_ref(rhs),
            sum.implementation().rhs().implementation().referent() == *rhs,
            sum.implementation().wf(),
            sum.spec_dim() == self.spec_dim(),
    {
        Matrix::new(Addition::new(Matrix::from_ref(self), Matrix::from_ref(rhs)))
    }
}

impl<
    'a,
    Item: Scalar,
    MatImpl1: MatrixTrait<Item, RS, CS>,
    MatImpl2: MatrixTrait<Item, RS, CS>,
    RS: SizeIdentifier,
    CS: SizeIdentifier,
> vstd::std_specs::ops::AddSpecImpl<&'a Matrix<Item, MatImpl2, RS, CS>> for &'a Matrix<Item, MatImpl1, RS, CS> {
    open spec fn obeys_add_spec() -> bool {
        true
    }

    open spec fn add_req(self, rhs: &'a Matrix<Item, MatImpl2, RS, CS>) -> bool {
        self.spec_dim() == rhs.spec_dim()
    }

    open spec fn add_spec(self, rhs: &'a Matrix<Item, MatImpl2, RS, CS>) -> Self::Output {
        Matrix::spec_new(Addition::spec_new(Matrix::spec_from_ref(self), Matrix::spec_from_ref(rhs)))
    }
}

/// The extent of a sum is the extent of each of its operands.
pub proof fn lemma_addition_dim<
    Item: Scalar,
    MatImpl1: MatrixTrait<Item, RS, CS>,
    MatImpl2: MatrixTrait<Item, RS, CS>,
    RS: SizeIdentifier,
    CS: SizeIdentifier,
>(sum: Addition<Item, MatImpl1, MatImpl2, RS, CS>)
    requires
        sum.wf(),
    ensures
        sum.spec_dim() == sum.lhs().spec_dim(),
        sum.spec_dim() == sum.rhs().spec_dim(),
        sum.spec_layout() == row_major_layout(sum.spec_dim()),
{
}

/// The sum of two matrices of the same extent holds these two matrices and
/// is well formed.
pub proof fn lemma_addition_spec_new<
    Item: Scalar,
    MatImpl1: MatrixTrait<Item, RS, CS>,
    MatImpl2: MatrixTrait<Item, RS, CS>,
    RS: SizeIdentifier,
    CS: SizeIdentifier,
>(mat1: Matrix<Item, MatImpl1, RS, CS>, mat2: Matrix<Item, MatImpl2, RS, CS>)
    requires
        mat1.spec_dim() == mat2.spec_dim(),
        mat1.spec_layout().wf(),
    ensures
        Addition::spec_new(mat1, mat2).wf(),
        Addition::spec_new(mat1, mat2).lhs() == mat1,
        Addition::spec_new(mat1, mat2).rhs() == mat2,
        Addition::spec_new(mat1, mat2).spec_dim() == mat1.spec_dim(),
{
    let dim = mat1.spec_dim();
    lemma_layout_fits(mat1.spec_layout());
    lemma_row_major_fits(dim);
    lemma_layout_from_dimension(
        (dim.0 as IndexType, dim.1 as IndexType),
        (dim.1 as IndexType, 1),
    );
}

/// Every entry of a sum is the sum of the entries of the two operands at
/// the same position, whether the position is given as a coordinate or as a
/// flat index.
pub proof fn lemma_addition_value<
    Item: Scalar,
    MatImpl1: MatrixTrait<Item, RS, CS>,
    MatImpl2: MatrixTrait<Item, RS, CS>,
    RS: SizeIdentifier,
    CS: SizeIdentifier,
>(sum: Addition<Item, MatImpl1, MatImpl2, RS, CS>, row: int, col: int, index: int)
    requires
        sum.wf(),
    ensures
        sum.spec_value(row, col) == sum.lhs().spec_value(row, col).spec_plus(
            sum.rhs().spec_value(row, col),
        ),
        sum.spec_value1d(index) == sum.lhs().spec_value1d(index).spec_plus(
            sum.rhs().spec_value1d(index),
        ),
{
}

/// Addition is commutative: `a + b` and `b + a` have the same extent and
/// the same entries, and so have the matrices that they evaluate to.
pub proof fn lemma_addition_commutative<
    Item: Scalar,
    MatImpl1: MatrixTrait<Item, RS, CS>,
    MatImpl2: MatrixTrait<Item, RS, CS>,
    RS: SizeIdentifier,
    CS: SizeIdentifier,
>(
    ab: Addition<Item, MatImpl1, MatImpl2, RS, CS>,
    ba: Addition<Item, MatImpl2, MatImpl1, RS, CS>,
    eval_ab: MatrixD<Item>,
    eval_ba: MatrixD<Item>,
)
    requires
        ab.wf(),
        ba.wf(),
        ab.lhs() == ba.rhs(),
        ab.rhs() == ba.lhs(),
        same_entries(&eval_ab, &ab),
        same_entries(&eval_ba, &ba),
    ensures
        same_entries(&ab, &ba),
        same_entries(&eval_ab, &eval_ba),
{
    assert forall|row: int, col: int| in_bounds(row, col, ab.spec_dim()) implies #[trigger]
        ab.spec_value(row, col) == ba.spec_value(row, col) by {
        Item::lemma_plus_commutative(ab.lhs().spec_value(row, col), ab.rhs().spec_value(row, col));
    }
    assert forall|row: int, col: int| in_bounds(row, col, eval_ab.spec_dim()) implies #[trigger]
        eval_ab.spec_value(row, col) == eval_ba.spec_value(row, col) by {
        assert(ab.spec_value(row, col) == ba.spec_value(row, col));
    }
}

/// Addition of exact scalars is associative: `(a + b) + c` and
/// `a + (b + c)` have the same extent and the same entries, and so have the
/// matrices that they evaluate to.
pub proof fn lemma_addition_associative<
    Item: ExactScalar,
    MatImpl1: MatrixTrait<Item, RS, CS>,
    MatImpl2: MatrixTrait<Item, RS, CS>,
    MatImpl3: MatrixTrait<Item, RS, CS>,
    RS: SizeIdentifier,
    CS: SizeIdentifier,
>(
    left: Addition<Item, Addition<Item, MatImpl1, MatImpl2, RS, CS>, MatImpl3, RS, CS>,
    right: Addition<Item, MatImpl1, Addition<Item, MatImpl2, MatImpl3, RS, CS>, RS, CS>,
    eval_left: MatrixD<Item>,
    eval_right: MatrixD<Item>,
)
    requires
        left.wf(),
        right.wf(),
        left.lhs().implementation().wf(),
        right.rhs().implementation().wf(),
        left.lhs().implementation().lhs() == right.lhs(),
        left.lhs().implementation().rhs() == right.rhs().implementation().lhs(),
        left.rhs() == right.rhs().implementation().rhs(),
        same_entries(&eval_left, &left),
        same_entries(&eval_right, &right),
    ensures
        same_entries(&left, &right),
        same_entries(&eval_left, &eval_right),
{
    let a = right.lhs();
    let b = left.lhs().implementation().rhs();
    let c = left.rhs();
    assert forall|row: int, col: int| in_bounds(row, col, left.spec_dim()) implies #[trigger]
        left.spec_value(row, col) == right.spec_value(row, col) by {
        Item::lemma_plus_associative(
            a.spec_value(row, col),
            b.spec_value(row, col),
            c.spec_value(row, col),
        );
    }
    assert forall|row: int, col: int| in_bounds(row, col, eval_left.spec_dim()) implies #[trigger]
        eval_left.spec_value(row, col) == eval_right.spec_value(row, col) by {
        assert(left.spec_value(row, col) == right.spec_value(row, col));
    }
}

/// Borrowing does not change a sum: the sum of two borrowed handles and the
/// sum of the handles themselves have the same extent and the same entries,
/// and so have the matrices that they evaluate to.
pub proof fn lemma_addition_borrow_transparent<
    'a,
    Item: Scalar,
    MatImpl1: MatrixTrait<Item, RS, CS>,
    MatImpl2: MatrixTrait<Item, RS, CS>,
    RS: SizeIdentifier,
    CS: SizeIdentifier,
>(
    borrowed: Addition<
        Item,
        MatrixRef<'a, Item, MatImpl1, RS, CS>,
        MatrixRef<'a, Item, MatImpl2, RS, CS>,
        RS,
        CS,
    >,
    owned: Addition<Item, MatImpl1, MatImpl2, RS, CS>,
    eval_borrowed: MatrixD<Item>,
    eval_owned: MatrixD<Item>,
)
    requires
        borrowed.wf(),
        owned.wf(),
        borrowed.lhs().implementation().referent() == owned.lhs(),
        borrowed.rhs().implementation().referent() == owned.rhs(),
        same_entries(&eval_borrowed, &borrowed),
        same_entries(&eval_owned, &owned),
    ensures
        same_entries(&borrowed, &owned),
        same_entries(&eval_borrowed, &eval_owned),
{
    assert forall|row: int, col: int| in_bounds(row, col, eval_borrowed.spec_dim()) implies #[trigger]
        eval_borrowed.spec_value(row, col) == eval_owned.spec_value(row, col) by {
        assert(borrowed.spec_value(row, col) == owned.spec_value(row, col));
    }
}

} // verus!
