//! N-dimensional arrays of binary64 bit patterns.
//!
//! The storage is `ndarray`'s dynamically dimensioned array. Verus does not
//! look inside it: what an array holds is named by two uninterpreted
//! functions, and the few `ndarray` methods in use are given contracts over
//! those names. Everything else in this file is proved from those contracts.

use vstd::prelude::*;

verus! {

/// An array of bit patterns with any number of axes.
///
/// Verus cannot take `ndarray`'s array type into a signature, because the
/// type is bounded by a trait of `ndarray`. So the array sits in a private
/// field here and Verus does not read the body of this struct.
#[verifier::external_body]
#[derive(Debug)]
pub struct Tensor {
    inner: ndarray::ArrayD<u64>,
}

/// The axis lengths of the array, first axis first.
pub uninterp spec fn tensor_dims(tensor: Tensor) -> Seq<usize>;

/// The elements of the array in column-major order: the first index varies
/// fastest.
pub uninterp spec fn tensor_elements(tensor: Tensor) -> Seq<u64>;

/// What a tensor is, mathematically: its axis lengths and its elements in
/// column-major order.
pub struct TensorView {
    pub dims: Seq<usize>,
    pub elements: Seq<u64>,
}

impl View for Tensor {
    type V = TensorView;

    open spec fn view(&self) -> TensorView {
        TensorView { dims: tensor_dims(*self), elements: tensor_elements(*self) }
    }
}

/// The number of elements of an array with these axis lengths.
pub open spec fn element_count(dims: Seq<usize>) -> nat
    decreases dims.len(),
{
    if dims.len() == 0 {
        1
    } else {
        dims[0] as nat * element_count(dims.drop_first())
    }
}

/// The product of the axis lengths that are not zero.
pub open spec fn nonzero_count(dims: Seq<usize>) -> nat
    decreases dims.len(),
{
    if dims.len() == 0 {
        1
    } else if dims[0] == 0 {
        nonzero_count(dims.drop_first())
    } else {
        dims[0] as nat * nonzero_count(dims.drop_first())
    }
}

/// Whether an array with these axis lengths can exist: the product of its
/// non-zero axis lengths fits in an `isize`.
pub open spec fn representable(dims: Seq<usize>) -> bool {
    nonzero_count(dims) <= isize::MAX as nat
}

/// Whether `index` names an element of an array with axis lengths `dims`.
pub open spec fn in_bounds(dims: Seq<usize>, index: Seq<usize>) -> bool {
    &&& index.len() == dims.len()
    &&& forall|k: int| 0 <= k < dims.len() ==> index[k] < dims[k]
}

/// The position of the element `index` in column-major order.
pub open spec fn column_major_offset(dims: Seq<usize>, index: Seq<usize>) -> nat
    decreases dims.len(),
{
    if dims.len() == 0 || index.len() != dims.len() {
        0
    } else {
        index[0] as nat + dims[0] as nat * column_major_offset(
            dims.drop_first(),
            index.drop_first(),
        )
    }
}

impl TensorView {
    /// What any existing tensor satisfies: it has as many elements as its
    /// axis lengths say, and those lengths are representable.
    pub open spec fn consistent(self) -> bool {
        &&& representable(self.dims)
        &&& self.elements.len() == element_count(self.dims)
    }

    /// The element at `index`, which must be in bounds.
    pub open spec fn at(self, index: Seq<usize>) -> u64 {
        self.elements[column_major_offset(self.dims, index) as int]
    }

    /// The element in row `row` and column `column` of a two-axis tensor.
    pub open spec fn cell(self, row: usize, column: usize) -> u64 {
        self.at(seq![row, column])
    }
}

/// Counts and offsets for one axis.
pub proof fn lemma_one_axis(n: usize, i: usize)
    ensures
        element_count(seq![n]) == n,
        nonzero_count(seq![n]) == if n == 0 {
            1nat
        } else {
            n as nat
        },
        column_major_offset(seq![n], seq![i]) == i,
{
    let dims = seq![n];
    let index = seq![i];
    let none = Seq::<usize>::empty();
    assert(dims.drop_first() =~= none);
    assert(index.drop_first() =~= none);
    let count = element_count(none);
    let nonzero = nonzero_count(none);
    let offset = column_major_offset(none, none);
    assert(count == 1 && nonzero == 1 && offset == 0);
    assert(element_count(dims) == n as nat * count);
    assert(nonzero_count(dims) == if n == 0 {
        nonzero
    } else {
        n as nat * nonzero
    });
    assert(column_major_offset(dims, index) == i as nat + n as nat * offset);
    assert(n as nat * count == n && n as nat * nonzero == n && n as nat * offset == 0)
        by (nonlinear_arith)
        requires
            count == 1 && nonzero == 1 && offset == 0,
    ;
}

/// Counts and offsets for two axes: the element in row `i` and column `j`
/// of a matrix with `rows` rows is the `i + rows * j`-th.
pub proof fn lemma_two_axes(rows: usize, columns: usize, i: usize, j: usize)
    ensures
        element_count(seq![rows, columns]) == rows * columns,
        rows > 0 && columns > 0 ==> nonzero_count(seq![rows, columns]) == rows * columns,
        column_major_offset(seq![rows, columns], seq![i, j]) == i + rows * j,
{
    let dims = seq![rows, columns];
    let index = seq![i, j];
    let rest = seq![columns];
    let tail = seq![j];
    assert(dims.drop_first() =~= rest);
    assert(index.drop_first() =~= tail);
    lemma_one_axis(columns, j);
    assert(element_count(dims) == rows as nat * element_count(rest));
    assert(nonzero_count(dims) == if rows == 0 {
        nonzero_count(rest)
    } else {
        rows as nat * nonzero_count(rest)
    });
    assert(column_major_offset(dims, index) == i as nat + rows as nat * column_major_offset(
        rest,
        tail,
    ));
}

/// An array without an axis of length zero has at least one element.
pub proof fn lemma_positive_count(dims: Seq<usize>)
    requires
        forall|k: int| 0 <= k < dims.len() ==> dims[k] > 0,
    ensures
        element_count(dims) > 0,
        element_count(dims) == nonzero_count(dims),
    decreases dims.len(),
{
    if dims.len() > 0 {
        let rest = dims.drop_first();
        assert forall|k: int| 0 <= k < rest.len() implies rest[k] > 0 by {
            assert(rest[k] == dims[k + 1]);
        }
        lemma_positive_count(rest);
        assert(dims[0] as nat * element_count(rest) > 0) by (nonlinear_arith)
            requires
                dims[0] > 0,
                element_count(rest) > 0,
        ;
    }
}

/// `ndarray::ArrayBase::from_shape_vec` with a column-major (`f`) shape.
/// It succeeds exactly when the product of the non-zero axis lengths fits in
/// an `isize` and the product of all axis lengths is the vector's length;
/// the array then has these axis lengths and, the layout of the vector being
/// column-major, these elements in that order.
#[verifier::external_body]
fn build_column_major(shape: &[usize], data: Vec<u64>) -> (built: Option<Tensor>)
    ensures
        match built {
            Some(tensor) => {
                &&& representable(shape@)
                &&& element_count(shape@) == data@.len()
                &&& tensor_dims(tensor) == shape@
                &&& tensor_elements(tensor) == data@
            },
            None => !(representable(shape@) && element_count(shape@) == data@.len()),
        },
{
    let shape = ndarray::ShapeBuilder::f(ndarray::IxDyn(shape));
    match ndarray::ArrayD::from_shape_vec(shape, data) {
        Ok(inner) => Some(Tensor { inner }),
        Err(_) => None,
    }
}

/// `ndarray::ArrayBase::shape`: the axis lengths. Every array that `ndarray`
/// builds keeps the product of its non-zero axis lengths within `isize` and
/// holds one element per index.
#[verifier::external_body]
fn axis_lengths(tensor: &Tensor) -> (dims: Vec<usize>)
    ensures
        dims@ == tensor_dims(*tensor),
        representable(dims@),
        element_count(dims@) == tensor_elements(*tensor).len(),
{
    tensor.inner.shape().to_vec()
}

/// `ndarray::ArrayBase::get` with a slice as index: `None` when the index
/// has another number of axes than the array or is out of range on some
/// axis, else the element there.
#[verifier::external_body]
fn element_at(tensor: &Tensor, index: &[usize]) -> (found: Option<u64>)
    ensures
        found == if in_bounds(tensor@.dims, index@) {
            Some(tensor@.at(index@))
        } else {
            None
        },
{
    tensor.inner.get(index).copied()
}

/// `ndarray::ArrayBase::t` followed by `iter`: the elements of the reversed-axes
/// view in its logical order, which is the column-major order of the array.
#[verifier::external_body]
fn elements_of(tensor: &Tensor) -> (elements: Vec<u64>)
    ensures
        elements@ == tensor_elements(*tensor),
{
    tensor.inner.t().iter().copied().collect()
}

impl Tensor {
    /// Builds a tensor with axis lengths `shape` from its elements in
    /// column-major order. Fails when the number of elements is not the
    /// product of the axis lengths, or when the axis lengths are not
    /// representable.
    pub fn from_column_major(shape: &[usize], data: Vec<u64>) -> (built: Option<Tensor>)
        ensures
            built.is_some() <==> representable(shape@) && element_count(shape@) == data@.len(),
            built matches Some(tensor) ==> tensor@.dims == shape@ && tensor@.elements == data@
                && tensor@.consistent(),
    {
        build_column_major(shape, data)
    }

    /// The axis lengths.
    pub fn shape(&self) -> (dims: Vec<usize>)
        ensures
            dims@ == self@.dims,
            self@.consistent(),
    {
        axis_lengths(self)
    }

    /// The element at `index`, or `None` when `index` is not in bounds.
    pub fn get(&self, index: &[usize]) -> (found: Option<u64>)
        ensures
            found == if in_bounds(self@.dims, index@) {
                Some(self@.at(index@))
            } else {
                None
            },
    {
        element_at(self, index)
    }

    /// The elements in column-major order.
    pub fn to_vec(&self) -> (elements: Vec<u64>)
        ensures
            elements@ == self@.elements,
    {
        elements_of(self)
    }

    /// Whether the axis lengths are exactly `expected`.
    pub fn has_shape(&self, expected: &[usize]) -> (same: bool)
        ensures
            same == (self@.dims == expected@),
            self@.consistent(),
    {
        let dims = axis_lengths(self);
        if dims.len() != expected.len() {
            return false;
        }
        let mut k: usize = 0;
        while k < dims.len()
            invariant
                dims@ == self@.dims,
                self@.consistent(),
                dims@.len() == expected@.len(),
                k <= dims@.len(),
                forall|j: int| 0 <= j < k ==> dims@[j] == expected@[j],
            decreases dims.len() - k,
        {
            if dims[k] != expected[k] {
                return false;
            }
            k += 1;
        }
        assert(dims@ =~= expected@);
        true
    }
}

} // verus!
