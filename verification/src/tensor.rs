//! Tensor shapes and raw tensor values.
//!
//! Element data is carried as plain bit patterns (an IEEE-754 `f32` value is
//! held as its `u32` bit representation); the numeric kernels that interpret
//! the bits live outside this crate.

use vstd::prelude::*;

verus! {

use vstd::string::{StringExecFns, StrSliceExecFns};

/// Shape of a dense tensor: one extent per axis, row-major addressing.
#[derive(Debug)]
pub struct TensorShape {
    pub dimensions: Vec<usize>,
}

/// Product of a sequence of extents, as a mathematical integer.
pub open spec fn dims_product(dims: Seq<usize>) -> int
    decreases dims.len(),
{
    if dims.len() == 0 {
        1
    } else {
        dims_product(dims.drop_last()) * dims.last()
    }
}

impl TensorShape {
    pub fn new(dimensions: Vec<usize>) -> (r: Self)
        ensures
            r.dimensions@ == dimensions@,
    {
        Self { dimensions }
    }

    pub fn scalar() -> (r: Self)
        ensures
            r.dimensions@.len() == 0,
    {
        Self { dimensions: Vec::new() }
    }

    pub fn vector(size: usize) -> (r: Self)
        ensures
            r.dimensions@ == seq![size],
    {
        let mut dims: Vec<usize> = Vec::new();
        dims.push(size);
        assert(dims@ =~= seq![size]);
        Self { dimensions: dims }
    }

    pub fn matrix(rows: usize, cols: usize) -> (r: Self)
        ensures
            r.dimensions@ == seq![rows, cols],
    {
        let mut dims: Vec<usize> = Vec::new();
        dims.push(rows);
        dims.push(cols);
        assert(dims@ =~= seq![rows, cols]);
        Self { dimensions: dims }
    }

    pub fn tensor_3d(d1: usize, d2: usize, d3: usize) -> (r: Self)
        ensures
            r.dimensions@ == seq![d1, d2, d3],
    {
        let mut dims: Vec<usize> = Vec::new();
        dims.push(d1);
        dims.push(d2);
        dims.push(d3);
        assert(dims@ =~= seq![d1, d2, d3]);
        Self { dimensions: dims }
    }

    /// Number of elements addressed by this shape; saturates at `usize::MAX`
    /// when the true product does not fit in a machine word.
    pub fn total_elements(&self) -> (r: usize)
        ensures
            r as int == if dims_product(self.dimensions@) <= usize::MAX as int {
                dims_product(self.dimensions@)
            } else {
                usize::MAX as int
            },
    {
        let mut product: usize = 1;
        let mut saturated: bool = false;
        let n = self.dimensions.len();
        let mut i: usize = 0;
        while i < n
            invariant
                i <= n,
                n == self.dimensions@.len(),
                0 <= dims_product(self.dimensions@.take(i as int)),
                !saturated ==> product as int == dims_product(self.dimensions@.take(i as int)),
                saturated ==> dims_product(self.dimensions@.take(i as int)) > usize::MAX as int,
                saturated ==> product == usize::MAX,
            decreases n - i,
        {
            proof {
                assert(self.dimensions@.take(i + 1).drop_last() =~= self.dimensions@.take(i as int));
                assert(self.dimensions@.take(i + 1).last() == self.dimensions@[i as int]);
                lemma_dims_product_nonneg(self.dimensions@.take(i as int));
            }
            let d = self.dimensions[i];
            if d == 0 {
                proof {
                    lemma_dims_product_zero(self.dimensions@, i as int);
                }
                return 0;
            }
            match product.checked_mul(d) {
                Some(p) => {
                    if !saturated {
                        product = p;
                    } else {
                        proof {
                            lemma_mul_ge_one_factor(
                                dims_product(self.dimensions@.take(i as int)),
                                d as int,
                            );
                        }
                    }
                }
                None => {
                    if !saturated {
                        proof {
                            lemma_mul_ge_one_factor(
                                dims_product(self.dimensions@.take(i as int)),
                                d as int,
                            );
                        }
                        saturated = true;
                        product = usize::MAX;
                    } else {
                        proof {
                            lemma_mul_ge_one_factor(
                                dims_product(self.dimensions@.take(i as int)),
                                d as int,
                            );
                        }
                    }
                }
            }
            i = i + 1;
        }
        proof {
            assert(self.dimensions@.take(n as int) =~= self.dimensions@);
        }
        product
    }

    /// Number of elements addressed by this shape, or nothing when the
    /// product does not fit in a machine word.
    pub fn total_elements_checked(&self) -> (r: Option<usize>)
        ensures
            match r {
                Some(p) => p as int == dims_product(self.dimensions@),
                None => dims_product(self.dimensions@) > usize::MAX as int,
            },
    {
        let n = self.dimensions.len();
        let mut i: usize = 0;
        while i < n
            invariant
                i <= n,
                n == self.dimensions@.len(),
                forall|j: int| 0 <= j < i ==> self.dimensions@[j] != 0,
            decreases n - i,
        {
            if self.dimensions[i] == 0 {
                proof {
                    lemma_dims_product_zero(self.dimensions@, i as int);
                }
                return Some(0);
            }
            i = i + 1;
        }
        let mut product: usize = 1;
        let mut k: usize = 0;
        while k < n
            invariant
                k <= n,
                n == self.dimensions@.len(),
                forall|j: int| 0 <= j < n ==> self.dimensions@[j] != 0,
                product as int == dims_product(self.dimensions@.take(k as int)),
            decreases n - k,
        {
            proof {
                assert(self.dimensions@.take(k + 1).drop_last() =~= self.dimensions@.take(k as int));
                assert(self.dimensions@.take(k + 1).last() == self.dimensions@[k as int]);
                lemma_dims_product_nonneg(self.dimensions@.take(k as int));
            }
            let d = self.dimensions[k];
            match product.checked_mul(d) {
                Some(p) => {
                    product = p;
                },
                None => {
                    proof {
                        lemma_dims_product_tail_ge(self.dimensions@, k + 1);
                    }
                    return None;
                },
            }
            k = k + 1;
        }
        proof {
            assert(self.dimensions@.take(n as int) =~= self.dimensions@);
        }
        Some(product)
    }

    /// Number of axes.
    pub fn rank(&self) -> (r: usize)
        ensures
            r == self.dimensions@.len(),
    {
        self.dimensions.len()
    }

    /// Whether `self x other` is a well-shaped matrix product:
    /// both operands are two-dimensional and the inner extents agree.
    pub fn is_compatible_for_matmul(&self, other: &TensorShape) -> (r: bool)
        ensures
            r == (self.dimensions@.len() == 2 && other.dimensions@.len() == 2
                && self.dimensions@[1] == other.dimensions@[0]),
    {
        if self.rank() != 2 || other.rank() != 2 {
            return false;
        }
        self.dimensions[1] == other.dimensions[0]
    }
}

proof fn lemma_dims_product_nonneg(dims: Seq<usize>)
    ensures
        dims_product(dims) >= 0,
    decreases dims.len(),
{
    if dims.len() > 0 {
        lemma_dims_product_nonneg(dims.drop_last());
        vstd::arithmetic::mul::lemma_mul_nonnegative(dims_product(dims.drop_last()), dims.last() as int);
    }
}

/// If some extent is zero, the whole product is zero.
proof fn lemma_dims_product_zero(dims: Seq<usize>, i: int)
    requires
        0 <= i < dims.len(),
        dims[i] == 0,
    ensures
        dims_product(dims) == 0,
    decreases dims.len(),
{
    if i == dims.len() - 1 {
        assert(dims.last() == dims[i]);
        vstd::arithmetic::mul::lemma_mul_basics(dims_product(dims.drop_last()));
    } else {
        lemma_dims_product_zero(dims.drop_last(), i);
        vstd::arithmetic::mul::lemma_mul_basics(dims.last() as int);
    }
}

proof fn lemma_mul_ge_one_factor(a: int, b: int)
    requires
        a >= 0,
        b >= 1,
    ensures
        a * b >= a,
    decreases b,
{
    vstd::arithmetic::mul::lemma_mul_inequality(1, b, a);
    vstd::arithmetic::mul::lemma_mul_is_commutative(a, b);
}

/// With every extent positive, the whole product is at least any prefix
/// product.
proof fn lemma_dims_product_tail_ge(dims: Seq<usize>, i: int)
    requires
        0 <= i <= dims.len(),
        forall|j: int| 0 <= j < dims.len() ==> dims[j] != 0,
    ensures
        dims_product(dims) >= dims_product(dims.take(i)),
        dims_product(dims.take(i)) >= 0,
    decreases dims.len() - i,
{
    lemma_dims_product_nonneg(dims.take(i));
    if i == dims.len() {
        assert(dims.take(i) =~= dims);
    } else {
        lemma_dims_product_tail_ge(dims, i + 1);
        assert(dims.take(i + 1).drop_last() =~= dims.take(i));
        assert(dims.take(i + 1).last() == dims[i]);
        lemma_mul_ge_one_factor(dims_product(dims.take(i)), dims[i] as int);
    }
}

/// Raw tensor element storage. Floating-point elements are carried as their
/// IEEE-754 bit patterns (`u32` for single, `u64` for double precision).
#[derive(Debug)]
pub enum TensorData {
    F32(Vec<u32>),
    F64(Vec<u64>),
    I32(Vec<i32>),
    I64(Vec<i64>),
    Bool(Vec<bool>),
}

impl TensorData {
    /// Number of elements held.
    pub open spec fn spec_len(&self) -> nat {
        match self {
            TensorData::F32(v) => v@.len(),
            TensorData::F64(v) => v@.len(),
            TensorData::I32(v) => v@.len(),
            TensorData::I64(v) => v@.len(),
            TensorData::Bool(v) => v@.len(),
        }
    }

    pub fn len(&self) -> (r: usize)
        ensures
            r == self.spec_len(),
    {
        match self {
            TensorData::F32(v) => v.len(),
            TensorData::F64(v) => v.len(),
            TensorData::I32(v) => v.len(),
            TensorData::I64(v) => v.len(),
            TensorData::Bool(v) => v.len(),
        }
    }

    pub fn is_empty(&self) -> (r: bool)
        ensures
            r == (self.spec_len() == 0),
    {
        self.len() == 0
    }
}

/// A dense tensor: a shape and the matching number of elements.
#[derive(Debug)]
pub struct Tensor {
    pub shape: TensorShape,
    pub data: TensorData,
    pub name: Option<String>,
}

impl Tensor {
    /// The element count matches the shape.
    pub open spec fn wf(&self) -> bool {
        dims_product(self.shape.dimensions@) == self.data.spec_len()
    }

    /// Builds a tensor after checking the shape against the data length.
    pub fn new(shape: TensorShape, data: TensorData, name: Option<String>) -> (r: Result<
        Tensor,
        crate::errors::TribeError,
    >)
        ensures
            r matches Ok(t) ==> t.wf() && t.shape.dimensions@ == shape.dimensions@ && t.data
                == data,
            r is Err <==> dims_product(shape.dimensions@) != data.spec_len(),
    {
        let len = data.len();
        let matches_len = match shape.total_elements_checked() {
            Some(p) => p == len,
            None => false,
        };
        if !matches_len {
            return Err(crate::errors::TribeError::InvalidOperation(
                "shape does not match data length".to_owned(),
            ));
        }
        Ok(Tensor { shape, data, name })
    }

    /// A single-element tensor holding one bit pattern.
    pub fn scalar(value_bits: u32) -> (r: Tensor)
        ensures
            r.wf(),
            r.shape.dimensions@.len() == 0,
            r.data matches TensorData::F32(v) && v@ == seq![value_bits],
    {
        let mut v: Vec<u32> = Vec::new();
        v.push(value_bits);
        proof {
            assert(v@ =~= seq![value_bits]);
        }
        Tensor { shape: TensorShape::scalar(), data: TensorData::F32(v), name: None }
    }

    /// A rank-one tensor over the given bit patterns.
    pub fn vector(data: Vec<u32>) -> (r: Tensor)
        ensures
            r.wf(),
            r.shape.dimensions@ == seq![data@.len() as usize],
            r.data matches TensorData::F32(v) && v@ == data@,
    {
        let len = data.len();
        let shape = TensorShape::vector(len);
        proof {
            assert(shape.dimensions@.drop_last() =~= Seq::<usize>::empty());
            assert(dims_product(Seq::<usize>::empty()) == 1);
            assert(shape.dimensions@.last() == len);
            assert(dims_product(shape.dimensions@) == 1 * (len as int));
        }
        Tensor { shape, data: TensorData::F32(data), name: None }
    }

    /// A rank-two tensor, rejected when the extents do not match the data.
    pub fn matrix(data: Vec<u32>, rows: usize, cols: usize) -> (r: Result<
        Tensor,
        crate::errors::TribeError,
    >)
        ensures
            r matches Ok(t) ==> t.wf() && t.shape.dimensions@ == seq![rows, cols] && (
            t.data matches TensorData::F32(v) && v@ == data@),
            r is Err <==> data@.len() != rows * cols,
    {
        let n = data.len();
        match rows.checked_mul(cols) {
            Some(p) => {
                if n != p {
                    proof {
                        vstd::arithmetic::mul::lemma_mul_nonnegative(rows as int, cols as int);
                    }
                    return Err(crate::errors::TribeError::InvalidOperation(
                        "data length does not match matrix dimensions".to_owned(),
                    ));
                }
                let shape = TensorShape::matrix(rows, cols);
                proof {
                    assert(shape.dimensions@.drop_last() =~= seq![rows]);
                    assert(seq![rows].drop_last() =~= Seq::<usize>::empty());
                    assert(dims_product(Seq::<usize>::empty()) == 1);
                    assert(seq![rows].last() == rows);
                    assert(dims_product(seq![rows]) == 1 * (rows as int));
                    assert(dims_product(shape.dimensions@) == (1 * (rows as int)) * (cols as int));
                    assert((1 * (rows as int)) * (cols as int) == (rows as int) * (cols as int));
                }
                Ok(Tensor { shape, data: TensorData::F32(data), name: None })
            },
            None => {
                proof {
                    vstd::arithmetic::mul::lemma_mul_nonnegative(rows as int, cols as int);
                }
                Err(crate::errors::TribeError::InvalidOperation(
                    "data length does not match matrix dimensions".to_owned(),
                ))
            },
        }
    }

    /// The element bit pattern at an index of a single-precision tensor.
    pub fn get(&self, index: usize) -> (r: Result<u32, crate::errors::TribeError>)
        ensures
            r matches Ok(b) <==> (self.data matches TensorData::F32(v) && index < v@.len()),
            r matches Ok(b) ==> (self.data matches TensorData::F32(v) && b == v@[index as int]),
    {
        match &self.data {
            TensorData::F32(v) => {
                if index < v.len() {
                    Ok(v[index])
                } else {
                    Err(crate::errors::TribeError::InvalidOperation(
                        "index out of bounds".to_owned(),
                    ))
                }
            },
            _ => Err(crate::errors::TribeError::InvalidOperation(
                "expected single-precision tensor data".to_owned(),
            )),
        }
    }

    /// The element bit pattern at a row-major two-dimensional index.
    pub fn get_2d(&self, row: usize, col: usize) -> (r: Result<u32, crate::errors::TribeError>)
        ensures
            r matches Ok(b) ==> (self.shape.dimensions@.len() == 2 && (
            self.data matches TensorData::F32(v) && row * self.shape.dimensions@[1] + col
                < v@.len() && b == v@[row * self.shape.dimensions@[1] + col])),
    {
        if self.shape.rank() != 2 {
            return Err(crate::errors::TribeError::InvalidOperation(
                "tensor is not 2-dimensional".to_owned(),
            ));
        }
        let cols = self.shape.dimensions[1];
        let index = match row.checked_mul(cols) {
            Some(p) => match p.checked_add(col) {
                Some(s) => s,
                None => {
                    return Err(crate::errors::TribeError::InvalidOperation(
                        "index out of bounds".to_owned(),
                    ));
                },
            },
            None => {
                return Err(crate::errors::TribeError::InvalidOperation(
                    "index out of bounds".to_owned(),
                ));
            },
        };
        self.get(index)
    }

    /// Reinterprets the tensor under a new shape with the same extent.
    pub fn reshape(&self, new_shape: TensorShape) -> (r: Result<
        Tensor,
        crate::errors::TribeError,
    >)
        requires
            self.wf(),
            dims_product(self.shape.dimensions@) < usize::MAX,
            dims_product(new_shape.dimensions@) < usize::MAX,
        ensures
            r matches Ok(t) ==> t.wf() && t.shape.dimensions@ == new_shape.dimensions@
                && data_equiv(&t.data, &self.data),
            r is Err <==> dims_product(new_shape.dimensions@) != dims_product(
                self.shape.dimensions@,
            ),
    {
        if new_shape.total_elements() != self.shape.total_elements() {
            return Err(crate::errors::TribeError::InvalidOperation(
                "new shape must have the same total extent".to_owned(),
            ));
        }
        Ok(Tensor { shape: new_shape, data: self.data.clone(), name: clone_opt_string(&self.name) })
    }

    /// Whether the tensor is small enough for a constrained embedded
    /// device.
    pub fn is_esp_compatible(&self) -> (r: bool)
        ensures
            r == (dims_product(self.shape.dimensions@) <= 1024),
    {
        self.shape.total_elements() <= 1024
    }
}

/// Clones an optional string, preserving its text.
pub fn clone_opt_string(s: &Option<String>) -> (r: Option<String>)
    ensures
        match (s, &r) {
            (Option::None, Option::None) => true,
            (Option::Some(a), Option::Some(b)) => a@ == b@,
            _ => false,
        },
{
    match s {
        None => None,
        Some(x) => Some(x.clone()),
    }
}

/// Whether two stores hold the same elements of the same kind.
pub open spec fn data_equiv(a: &TensorData, b: &TensorData) -> bool {
    match (a, b) {
        (TensorData::F32(x), TensorData::F32(y)) => x@ == y@,
        (TensorData::F64(x), TensorData::F64(y)) => x@ == y@,
        (TensorData::I32(x), TensorData::I32(y)) => x@ == y@,
        (TensorData::I64(x), TensorData::I64(y)) => x@ == y@,
        (TensorData::Bool(x), TensorData::Bool(y)) => x@ == y@,
        _ => false,
    }
}

impl Clone for TensorData {
    /// A clone holds the same elements.
    fn clone(&self) -> (r: Self)
        ensures
            data_equiv(self, &r),
    {
        match self {
            TensorData::F32(v) => {
                let c = v.clone();
                proof {
                    assert(c@ =~= v@);
                }
                TensorData::F32(c)
            },
            TensorData::F64(v) => {
                let c = v.clone();
                proof {
                    assert(c@ =~= v@);
                }
                TensorData::F64(c)
            },
            TensorData::I32(v) => {
                let c = v.clone();
                proof {
                    assert(c@ =~= v@);
                }
                TensorData::I32(c)
            },
            TensorData::I64(v) => {
                let c = v.clone();
                proof {
                    assert(c@ =~= v@);
                }
                TensorData::I64(c)
            },
            TensorData::Bool(v) => {
                let c = v.clone();
                proof {
                    assert(c@ =~= v@);
                }
                TensorData::Bool(c)
            },
        }
    }
}

/// Whether two tensors agree in shape, elements and name.
pub open spec fn tensor_equiv(a: &Tensor, b: &Tensor) -> bool {
    &&& a.shape.dimensions@ == b.shape.dimensions@
    &&& data_equiv(&a.data, &b.data)
    &&& match (&a.name, &b.name) {
        (Option::None, Option::None) => true,
        (Option::Some(x), Option::Some(y)) => x@ == y@,
        _ => false,
    }
}

impl Clone for TensorShape {
    /// A clone holds the same extents.
    fn clone(&self) -> (r: Self)
        ensures
            r.dimensions@ == self.dimensions@,
    {
        let dims = self.dimensions.clone();
        proof {
            assert(dims@ =~= self.dimensions@);
        }
        TensorShape { dimensions: dims }
    }
}

impl Clone for Tensor {
    /// A clone agrees with the original in every observable field.
    fn clone(&self) -> (r: Self)
        ensures
            tensor_equiv(self, &r),
    {
        Tensor {
            shape: self.shape.clone(),
            data: self.data.clone(),
            name: clone_opt_string(&self.name),
        }
    }
}

} // verus!

