//! Arrays of any dimension, stored by `ndarray`.
//!
//! Verus does not look inside an array. What an array holds is spoken of
//! through two names for each element type: its shape, and its elements in
//! logical (row-major) order. The functions that make an array or read one
//! state over those names what `ndarray` does; nothing here proves it.

use vstd::prelude::*;

verus! {

/// `ndarray::ShapeError`: why `ndarray` refused a shape.
#[verifier::external_type_specification]
#[verifier::external_body]
pub struct ExShapeError(ndarray::ShapeError);

/// An array of booleans.
#[verifier::external_body]
#[derive(Debug, PartialEq)]
pub struct BoolArray {
    inner: ndarray::ArrayD<bool>,
}

/// An array of integers.
#[verifier::external_body]
#[derive(Debug, PartialEq)]
pub struct IntArray {
    inner: ndarray::ArrayD<i64>,
}

/// An array of floating-point numbers, each held as its IEEE 754 bit
/// pattern: the analysis moves such numbers and never computes with them.
#[verifier::external_body]
#[derive(Debug, PartialEq)]
pub struct BitsArray {
    inner: ndarray::ArrayD<u64>,
}

/// An array of strings.
#[verifier::external_body]
#[derive(Debug, PartialEq)]
pub struct StrArray {
    inner: ndarray::ArrayD<String>,
}

/// The length of each axis of a `BoolArray`.
pub uninterp spec fn bool_array_shape(a: BoolArray) -> Seq<usize>;

/// The elements of a `BoolArray` in logical order.
pub uninterp spec fn bool_array_items(a: BoolArray) -> Seq<bool>;

/// The length of each axis of an `IntArray`.
pub uninterp spec fn int_array_shape(a: IntArray) -> Seq<usize>;

/// The elements of an `IntArray` in logical order.
pub uninterp spec fn int_array_items(a: IntArray) -> Seq<i64>;

/// The length of each axis of a `BitsArray`.
pub uninterp spec fn bits_array_shape(a: BitsArray) -> Seq<usize>;

/// The elements of a `BitsArray` in logical order.
pub uninterp spec fn bits_array_items(a: BitsArray) -> Seq<u64>;

/// The length of each axis of a `StrArray`.
pub uninterp spec fn str_array_shape(a: StrArray) -> Seq<usize>;

/// The elements of a `StrArray` in logical order.
pub uninterp spec fn str_array_items(a: StrArray) -> Seq<Seq<char>>;

/// The characters of each string of `strings`.
pub open spec fn strings_view(strings: Seq<String>) -> Seq<Seq<char>> {
    Seq::new(strings.len(), |i: int| strings[i]@)
}

/// The number of elements that `ndarray` checks a shape by: the product of
/// the axis lengths that are not zero.
pub open spec fn nonzero_size(rows: usize, cols: usize) -> int {
    (if rows == 0 {
        1int
    } else {
        rows as int
    }) * (if cols == 0 {
        1int
    } else {
        cols as int
    })
}

/// `ndarray::arr1`, then `ArrayBase::into_dyn`: the array has one axis and
/// holds clones of the elements of `xs` in their order.
#[verifier::external_body]
fn bool_array_from_slice(xs: &Vec<bool>) -> (r: BoolArray)
    ensures
        bool_array_shape(r) == seq![xs.len()],
        bool_array_items(r) == xs@,
{
    BoolArray { inner: ndarray::arr1(xs.as_slice()).into_dyn() }
}

/// `ndarray::arr1`, then `ArrayBase::into_dyn`: the array has one axis and
/// holds the elements of `xs` in their order.
#[verifier::external_body]
fn int_array_from_slice(xs: &Vec<i64>) -> (r: IntArray)
    ensures
        int_array_shape(r) == seq![xs.len()],
        int_array_items(r) == xs@,
{
    IntArray { inner: ndarray::arr1(xs.as_slice()).into_dyn() }
}

/// `ndarray::arr1`, then `ArrayBase::into_dyn`: the array has one axis and
/// holds the elements of `xs` in their order.
#[verifier::external_body]
fn bits_array_from_slice(xs: &Vec<u64>) -> (r: BitsArray)
    ensures
        bits_array_shape(r) == seq![xs.len()],
        bits_array_items(r) == xs@,
{
    BitsArray { inner: ndarray::arr1(xs.as_slice()).into_dyn() }
}

/// `ndarray::arr1`, then `ArrayBase::into_dyn`: the array has one axis and
/// holds clones of the strings of `xs` in their order.
#[verifier::external_body]
fn str_array_from_slice(xs: &Vec<String>) -> (r: StrArray)
    ensures
        str_array_shape(r) == seq![xs.len()],
        str_array_items(r) == strings_view(xs@),
{
    StrArray { inner: ndarray::arr1(xs.as_slice()).into_dyn() }
}

/// `ndarray::ArrayBase::from_shape_vec` with the shape `[rows, cols]` in
/// row-major order. It succeeds exactly when `items` has `rows * cols`
/// elements and the product of the axis lengths that are not zero is at most
/// `isize::MAX`; the array then has that shape and holds `items` in order.
#[verifier::external_body]
fn int_array_from_shape_vec(rows: usize, cols: usize, items: Vec<i64>) -> (r: Result<IntArray, ndarray::ShapeError>)
    ensures
        r.is_ok() == (nonzero_size(rows, cols) <= isize::MAX && items.len() == rows * cols),
        r is Ok ==> int_array_shape(r->Ok_0) == seq![rows, cols],
        r is Ok ==> int_array_items(r->Ok_0) == items@,
{
    match ndarray::Array::from_shape_vec(vec![rows, cols], items) {
        Ok(inner) => Ok(IntArray { inner }),
        Err(e) => Err(e),
    }
}

/// `ndarray::ArrayBase::shape`, copied into a vector.
#[verifier::external_body]
fn bool_array_shape_of(a: &BoolArray) -> (r: Vec<usize>)
    ensures
        r@ == bool_array_shape(*a),
{
    a.inner.shape().to_vec()
}

/// `ndarray::ArrayBase::shape`, copied into a vector.
#[verifier::external_body]
fn int_array_shape_of(a: &IntArray) -> (r: Vec<usize>)
    ensures
        r@ == int_array_shape(*a),
{
    a.inner.shape().to_vec()
}

/// `ndarray::ArrayBase::shape`, copied into a vector.
#[verifier::external_body]
fn bits_array_shape_of(a: &BitsArray) -> (r: Vec<usize>)
    ensures
        r@ == bits_array_shape(*a),
{
    a.inner.shape().to_vec()
}

/// `ndarray::ArrayBase::shape`, copied into a vector.
#[verifier::external_body]
fn str_array_shape_of(a: &StrArray) -> (r: Vec<usize>)
    ensures
        r@ == str_array_shape(*a),
{
    a.inner.shape().to_vec()
}

/// `ndarray::ArrayBase::iter`: the elements in logical order.
#[verifier::external_body]
fn bool_array_items_of(a: &BoolArray) -> (r: Vec<bool>)
    ensures
        r@ == bool_array_items(*a),
{
    a.inner.iter().cloned().collect()
}

/// `ndarray::ArrayBase::iter`: the elements in logical order.
#[verifier::external_body]
fn int_array_items_of(a: &IntArray) -> (r: Vec<i64>)
    ensures
        r@ == int_array_items(*a),
{
    a.inner.iter().cloned().collect()
}

/// `ndarray::ArrayBase::iter`: the elements in logical order.
#[verifier::external_body]
fn bits_array_items_of(a: &BitsArray) -> (r: Vec<u64>)
    ensures
        r@ == bits_array_items(*a),
{
    a.inner.iter().cloned().collect()
}

/// `ndarray::ArrayBase::iter`: clones of the elements in logical order.
#[verifier::external_body]
fn str_array_items_of(a: &StrArray) -> (r: Vec<String>)
    ensures
        strings_view(r@) == str_array_items(*a),
{
    a.inner.iter().cloned().collect()
}

impl BoolArray {
    /// The array with one axis that holds `items`.
    pub fn from_vec(items: &Vec<bool>) -> (r: BoolArray)
        ensures
            bool_array_shape(r) == seq![items.len()],
            bool_array_items(r) == items@,
    {
        bool_array_from_slice(items)
    }

    /// The length of each axis.
    pub fn shape(&self) -> (r: Vec<usize>)
        ensures
            r@ == bool_array_shape(*self),
    {
        bool_array_shape_of(self)
    }

    /// The elements in logical order.
    pub fn to_vec(&self) -> (r: Vec<bool>)
        ensures
            r@ == bool_array_items(*self),
    {
        bool_array_items_of(self)
    }
}

impl IntArray {
    /// The array with one axis that holds `items`.
    pub fn from_vec(items: &Vec<i64>) -> (r: IntArray)
        ensures
            int_array_shape(r) == seq![items.len()],
            int_array_items(r) == items@,
    {
        int_array_from_slice(items)
    }

    /// The array of `rows` rows and `cols` columns of which every element is
    /// `value`, or `None` where `ndarray` holds no array of that size.
    pub fn filled(rows: usize, cols: usize, value: i64) -> (r: Option<IntArray>)
        ensures
            r is Some <==> nonzero_size(rows, cols) <= isize::MAX,
            r matches Some(a) ==> int_array_shape(a) == seq![rows, cols] && int_array_items(a)
                == Seq::new((rows * cols) as nat, |i: int| value),
    {
        // the size is tested before any cell is made
        let counted_rows: usize = if rows == 0 {
            1
        } else {
            rows
        };
        let counted_cols: usize = if cols == 0 {
            1
        } else {
            cols
        };
        match counted_rows.checked_mul(counted_cols) {
            Some(size) => if size > isize::MAX as usize {
                return None;
            },
            None => { return None; },
        }
        proof {
            lemma_nonzero_size_bounds(rows, cols);
        }
        let cells: usize = rows * cols;
        let mut items: Vec<i64> = Vec::new();
        let mut i: usize = 0;
        while i < cells
            invariant
                i <= cells,
                items.len() == i,
                forall|j: int| 0 <= j < i ==> items@[j] == value,
            decreases cells - i,
        {
            items.push(value);
            i = i + 1;
        }
        assert(items@ =~= Seq::new((rows * cols) as nat, |i: int| value));
        match int_array_from_shape_vec(rows, cols, items) {
            Ok(a) => Some(a),
            Err(_) => None,
        }
    }

    /// The length of each axis.
    pub fn shape(&self) -> (r: Vec<usize>)
        ensures
            r@ == int_array_shape(*self),
    {
        int_array_shape_of(self)
    }

    /// The elements in logical order.
    pub fn to_vec(&self) -> (r: Vec<i64>)
        ensures
            r@ == int_array_items(*self),
    {
        int_array_items_of(self)
    }
}

impl BitsArray {
    /// The array with one axis that holds `items`.
    pub fn from_vec(items: &Vec<u64>) -> (r: BitsArray)
        ensures
            bits_array_shape(r) == seq![items.len()],
            bits_array_items(r) == items@,
    {
        bits_array_from_slice(items)
    }

    /// The length of each axis.
    pub fn shape(&self) -> (r: Vec<usize>)
        ensures
            r@ == bits_array_shape(*self),
    {
        bits_array_shape_of(self)
    }

    /// The elements in logical order.
    pub fn to_vec(&self) -> (r: Vec<u64>)
        ensures
            r@ == bits_array_items(*self),
    {
        bits_array_items_of(self)
    }
}

impl StrArray {
    /// The array with one axis that holds `items`.
    pub fn from_vec(items: &Vec<String>) -> (r: StrArray)
        ensures
            str_array_shape(r) == seq![items.len()],
            str_array_items(r) == strings_view(items@),
    {
        str_array_from_slice(items)
    }

    /// The length of each axis.
    pub fn shape(&self) -> (r: Vec<usize>)
        ensures
            r@ == str_array_shape(*self),
    {
        str_array_shape_of(self)
    }

    /// The elements in logical order.
    pub fn to_vec(&self) -> (r: Vec<String>)
        ensures
            strings_view(r@) == str_array_items(*self),
    {
        str_array_items_of(self)
    }
}

/// A product that does not fit in `usize` is over `isize::MAX`, and so is
/// the product of the lengths that are not zero.
pub proof fn lemma_nonzero_size_bounds(rows: usize, cols: usize)
    ensures
        rows * cols <= nonzero_size(rows, cols),
        rows * cols > usize::MAX ==> nonzero_size(rows, cols) > isize::MAX,
{
    assert(rows * cols <= nonzero_size(rows, cols)) by (nonlinear_arith)
        requires
            nonzero_size(rows, cols) == (if rows == 0 {
                1int
            } else {
                rows as int
            }) * (if cols == 0 {
                1int
            } else {
                cols as int
            }),
    ;
}

} // verus!
