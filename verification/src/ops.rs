//! The tensor-operation catalogue: each operation's shape rules and cost
//! score. The numeric kernels interpreting element bits live outside this
//! crate; everything here is shape and dispatch logic.

use vstd::prelude::*;
use crate::errors::{TribeError, TribeResult};
use crate::tensor::{Tensor, TensorShape};

verus! {

use vstd::string::StringExecFns;

/// Matrix multiplication, with optional operand transposition.
#[derive(Debug, Clone)]
pub struct MatrixMultiply {
    pub transpose_a: bool,
    pub transpose_b: bool,
}

impl MatrixMultiply {
    pub fn new() -> (r: Self)
        ensures
            !r.transpose_a,
            !r.transpose_b,
    {
        Self { transpose_a: false, transpose_b: false }
    }

    pub fn with_transpose(transpose_a: bool, transpose_b: bool) -> (r: Self)
        ensures
            r.transpose_a == transpose_a,
            r.transpose_b == transpose_b,
    {
        Self { transpose_a, transpose_b }
    }

    /// Whether the operand shapes admit this product.
    pub open spec fn spec_inputs_ok(&self, inputs: Seq<Tensor>) -> bool {
        &&& inputs.len() == 2
        &&& inputs[0].shape.dimensions@.len() == 2
        &&& inputs[1].shape.dimensions@.len() == 2
        &&& {
            let a_cols = if self.transpose_a {
                inputs[0].shape.dimensions@[0]
            } else {
                inputs[0].shape.dimensions@[1]
            };
            let b_rows = if self.transpose_b {
                inputs[1].shape.dimensions@[1]
            } else {
                inputs[1].shape.dimensions@[0]
            };
            a_cols == b_rows
        }
    }

    /// Checks the operand shapes.
    pub fn validate_inputs(&self, inputs: &Vec<Tensor>) -> (r: TribeResult<()>)
        ensures
            r is Ok <==> self.spec_inputs_ok(inputs@),
    {
        if inputs.len() != 2 {
            return Err(TribeError::InvalidOperation(String::from_str(
                "matrix multiply requires exactly 2 inputs",
            )));
        }
        let a = &inputs[0];
        let b = &inputs[1];
        if a.shape.rank() != 2 || b.shape.rank() != 2 {
            return Err(TribeError::InvalidOperation(String::from_str(
                "both inputs must be 2-dimensional",
            )));
        }
        let a_cols = if self.transpose_a {
            a.shape.dimensions[0]
        } else {
            a.shape.dimensions[1]
        };
        let b_rows = if self.transpose_b {
            b.shape.dimensions[1]
        } else {
            b.shape.dimensions[0]
        };
        if a_cols != b_rows {
            return Err(TribeError::InvalidOperation(String::from_str(
                "matrix dimensions incompatible",
            )));
        }
        Ok(())
    }

    /// Cost score of this operation.
    pub fn get_complexity_score(&self) -> (r: u64)
        ensures
            r == 1000,
    {
        1000
    }
}

/// Discrete convolution of a signal with a kernel.
#[derive(Debug, Clone)]
pub struct Convolution {
    pub kernel_size: usize,
    pub stride: usize,
    pub padding: usize,
    pub dilation: usize,
}

impl Convolution {
    pub fn new(kernel_size: usize) -> (r: Self)
        ensures
            r.kernel_size == kernel_size,
            r.stride == 1,
            r.padding == 0,
            r.dilation == 1,
    {
        Self { kernel_size, stride: 1, padding: 0, dilation: 1 }
    }

    pub fn with_params(kernel_size: usize, stride: usize, padding: usize, dilation: usize) -> (r:
        Self)
        ensures
            r.kernel_size == kernel_size,
            r.stride == stride,
            r.padding == padding,
            r.dilation == dilation,
    {
        Self { kernel_size, stride, padding, dilation }
    }

    /// The output extent along one axis:
    /// `(input + 2 padding - (dilation (k - 1) + 1)) / stride + 1`.
    pub open spec fn spec_output_size(&self, input_size: int) -> int {
        let effective = (self.dilation as int) * (self.kernel_size as int - 1) + 1;
        (input_size + 2 * (self.padding as int) - effective) / (self.stride as int) + 1
    }

    /// Computes the output extent along one axis.
    pub fn calculate_output_size(&self, input_size: usize) -> (r: usize)
        requires
            self.kernel_size >= 1,
            self.stride >= 1,
            self.dilation * (self.kernel_size - 1) + 1 <= input_size + 2 * self.padding,
            input_size + 2 * self.padding <= usize::MAX,
            self.spec_output_size(input_size as int) <= usize::MAX,
        ensures
            r == self.spec_output_size(input_size as int),
    {
        proof {
            vstd::arithmetic::mul::lemma_mul_nonnegative(
                self.dilation as int,
                (self.kernel_size - 1) as int,
            );
            vstd::arithmetic::div_mod::lemma_div_pos_is_pos(
                (input_size + 2 * self.padding - (self.dilation * (self.kernel_size - 1) + 1)) as int,
                self.stride as int,
            );
            vstd::arithmetic::div_mod::lemma_div_is_ordered(
                0,
                (input_size + 2 * self.padding - (self.dilation * (self.kernel_size - 1) + 1)) as int,
                self.stride as int,
            );
        }
        let effective: usize = self.dilation * (self.kernel_size - 1) + 1;
        let padded: usize = input_size + 2 * self.padding;
        (padded - effective) / self.stride + 1
    }

    /// Whether the operand shapes admit this convolution: a signal and a
    /// kernel of the same rank, one- or two-dimensional.
    pub open spec fn spec_inputs_ok(&self, inputs: Seq<Tensor>) -> bool {
        &&& inputs.len() == 2
        &&& inputs[0].shape.dimensions@.len() == inputs[1].shape.dimensions@.len()
        &&& 1 <= inputs[0].shape.dimensions@.len() <= 2
    }

    /// Checks the operand shapes.
    pub fn validate_inputs(&self, inputs: &Vec<Tensor>) -> (r: TribeResult<()>)
        ensures
            r is Ok <==> self.spec_inputs_ok(inputs@),
    {
        if inputs.len() != 2 {
            return Err(TribeError::InvalidOperation(String::from_str(
                "convolution requires exactly 2 inputs",
            )));
        }
        let input = &inputs[0];
        let kernel = &inputs[1];
        if input.shape.rank() != kernel.shape.rank() {
            return Err(TribeError::InvalidOperation(String::from_str(
                "input and kernel must have the same rank",
            )));
        }
        if input.shape.rank() < 1 || input.shape.rank() > 2 {
            return Err(TribeError::InvalidOperation(String::from_str(
                "only 1- and 2-dimensional convolutions are supported",
            )));
        }
        Ok(())
    }

    /// Cost score of this operation.
    pub fn get_complexity_score(&self) -> (r: u64)
        requires
            self.kernel_size * self.kernel_size * 100 <= u64::MAX,
        ensures
            r == self.kernel_size * self.kernel_size * 100,
    {
        proof {
            vstd::arithmetic::mul::lemma_mul_nonnegative(
                self.kernel_size as int,
                self.kernel_size as int,
            );
        }
        (self.kernel_size as u64) * (self.kernel_size as u64) * 100
    }
}

/// Elementwise activation functions. The leaky variant's slope is carried
/// as an IEEE-754 bit pattern.
#[derive(Debug, Clone)]
pub enum ActivationType {
    ReLU,
    Sigmoid,
    Tanh,
    LeakyReLU(u32),
    Softmax,
}

/// An activation applied over one tensor.
#[derive(Debug, Clone)]
pub struct ActivationFunction {
    pub activation_type: ActivationType,
}

impl ActivationFunction {
    pub fn relu() -> (r: Self)
        ensures
            r.activation_type is ReLU,
    {
        Self { activation_type: ActivationType::ReLU }
    }

    pub fn sigmoid() -> (r: Self)
        ensures
            r.activation_type is Sigmoid,
    {
        Self { activation_type: ActivationType::Sigmoid }
    }

    pub fn tanh() -> (r: Self)
        ensures
            r.activation_type is Tanh,
    {
        Self { activation_type: ActivationType::Tanh }
    }

    pub fn leaky_relu(alpha_bits: u32) -> (r: Self)
        ensures
            r.activation_type matches ActivationType::LeakyReLU(a) && a == alpha_bits,
    {
        Self { activation_type: ActivationType::LeakyReLU(alpha_bits) }
    }

    pub fn softmax() -> (r: Self)
        ensures
            r.activation_type is Softmax,
    {
        Self { activation_type: ActivationType::Softmax }
    }

    /// Checks the operand count.
    pub fn validate_inputs(&self, inputs: &Vec<Tensor>) -> (r: TribeResult<()>)
        ensures
            r is Ok <==> inputs@.len() == 1,
    {
        if inputs.len() != 1 {
            return Err(TribeError::InvalidOperation(String::from_str(
                "activation functions require exactly 1 input",
            )));
        }
        Ok(())
    }

    /// Cost score of this operation.
    pub fn get_complexity_score(&self) -> (r: u64)
        ensures
            r == match self.activation_type {
                ActivationType::ReLU => 10int,
                ActivationType::Sigmoid => 50int,
                ActivationType::Tanh => 50int,
                ActivationType::LeakyReLU(_) => 15int,
                ActivationType::Softmax => 100int,
            },
    {
        match self.activation_type {
            ActivationType::ReLU => 10,
            ActivationType::Sigmoid => 50,
            ActivationType::Tanh => 50,
            ActivationType::LeakyReLU(_) => 15,
            ActivationType::Softmax => 100,
        }
    }
}

/// The vector operations.
#[derive(Debug, Clone)]
pub enum VectorOpType {
    DotProduct,
    CrossProduct,
    Normalize,
    Add,
    Subtract,
    ElementwiseMultiply,
    ElementwiseDivide,
}

/// A vector operation.
#[derive(Debug, Clone)]
pub struct VectorOp {
    pub op_type: VectorOpType,
}

impl VectorOp {
    pub fn dot_product() -> (r: Self)
        ensures
            r.op_type is DotProduct,
    {
        Self { op_type: VectorOpType::DotProduct }
    }

    pub fn normalize() -> (r: Self)
        ensures
            r.op_type is Normalize,
    {
        Self { op_type: VectorOpType::Normalize }
    }

    pub fn add() -> (r: Self)
        ensures
            r.op_type is Add,
    {
        Self { op_type: VectorOpType::Add }
    }

    pub fn subtract() -> (r: Self)
        ensures
            r.op_type is Subtract,
    {
        Self { op_type: VectorOpType::Subtract }
    }

    pub fn elementwise_multiply() -> (r: Self)
        ensures
            r.op_type is ElementwiseMultiply,
    {
        Self { op_type: VectorOpType::ElementwiseMultiply }
    }

    /// Whether the operand shapes admit this operation: normalization takes
    /// one vector; every other operation takes two vectors of equal shape.
    pub open spec fn spec_inputs_ok(&self, inputs: Seq<Tensor>) -> bool {
        match self.op_type {
            VectorOpType::Normalize => {
                &&& inputs.len() == 1
                &&& inputs[0].shape.dimensions@.len() == 1
            },
            _ => {
                &&& inputs.len() == 2
                &&& inputs[0].shape.dimensions@ == inputs[1].shape.dimensions@
                &&& inputs[0].shape.dimensions@.len() == 1
            },
        }
    }

    /// Checks the operand shapes.
    pub fn validate_inputs(&self, inputs: &Vec<Tensor>) -> (r: TribeResult<()>)
        ensures
            r is Ok <==> self.spec_inputs_ok(inputs@),
    {
        match self.op_type {
            VectorOpType::Normalize => {
                if inputs.len() != 1 {
                    return Err(TribeError::InvalidOperation(String::from_str(
                        "normalize requires exactly 1 input",
                    )));
                }
                if inputs[0].shape.rank() != 1 {
                    return Err(TribeError::InvalidOperation(String::from_str(
                        "normalize requires a vector input",
                    )));
                }
                Ok(())
            },
            _ => {
                if inputs.len() != 2 {
                    return Err(TribeError::InvalidOperation(String::from_str(
                        "binary operations require exactly 2 inputs",
                    )));
                }
                if !shapes_equal(&inputs[0].shape, &inputs[1].shape) {
                    return Err(TribeError::InvalidOperation(String::from_str(
                        "input tensors must have the same shape",
                    )));
                }
                if inputs[0].shape.rank() != 1 {
                    return Err(TribeError::InvalidOperation(String::from_str(
                        "vector operations require vector inputs",
                    )));
                }
                Ok(())
            },
        }
    }

    /// Cost score of this operation.
    pub fn get_complexity_score(&self) -> (r: u64)
        ensures
            r == match self.op_type {
                VectorOpType::DotProduct => 50int,
                VectorOpType::CrossProduct => 30int,
                VectorOpType::Normalize => 100int,
                VectorOpType::Add => 10int,
                VectorOpType::Subtract => 10int,
                VectorOpType::ElementwiseMultiply => 20int,
                VectorOpType::ElementwiseDivide => 20int,
            },
    {
        match self.op_type {
            VectorOpType::DotProduct => 50,
            VectorOpType::CrossProduct => 30,
            VectorOpType::Normalize => 100,
            VectorOpType::Add => 10,
            VectorOpType::Subtract => 10,
            VectorOpType::ElementwiseMultiply => 20,
            VectorOpType::ElementwiseDivide => 20,
        }
    }
}

/// Whether two shapes list the same extents.
pub fn shapes_equal(a: &TensorShape, b: &TensorShape) -> (r: bool)
    ensures
        r == (a.dimensions@ == b.dimensions@),
{
    let n = a.dimensions.len();
    if n != b.dimensions.len() {
        proof {
            assert(a.dimensions@ != b.dimensions@);
        }
        return false;
    }
    let mut i: usize = 0;
    while i < n
        invariant
            i <= n,
            n == a.dimensions@.len(),
            n == b.dimensions@.len(),
            forall|j: int| 0 <= j < i ==> a.dimensions@[j] == b.dimensions@[j],
        decreases n - i,
    {
        if a.dimensions[i] != b.dimensions[i] {
            return false;
        }
        i = i + 1;
    }
    proof {
        assert(a.dimensions@ =~= b.dimensions@);
    }
    true
}

} // verus!
