//! Shapes of distance batches and the choice of kernel for each batch.
//!
//! A batch is a run of vectors of one dimension laid out back to back. The
//! functions here check what the distance functions demand of a batch, say how
//! many distances come out, pick the kernel, and, for Arrow arrays, pick the
//! element type from the array types or refuse them.
use crate::blocks::lemma_round_down_le;
use crate::dispatch::{ElemKind, Kernel};
use vstd::arithmetic::div_mod::*;
use vstd::arithmetic::mul::*;
use vstd::prelude::*;

verus! {

/// A batch of `count` vectors of `dimension` elements each.
#[derive(Clone, Copy, Debug, PartialEq, Eq)]
pub struct BatchShape {
    pub dimension: usize,
    pub count: usize,
}

impl BatchShape {
    /// The `i`-th vector of the batch is `values[start(i) .. start(i) + dimension]`.
    pub open spec fn start(self, i: int) -> int {
        i * self.dimension
    }
}

/// The shape of a batch for the negative dot distance: the query has the
/// batch's dimension, the batch holds whole vectors only, and one distance comes
/// out per vector.
pub fn dot_batch_shape(query_len: usize, values_len: usize, dimension: usize) -> (shape:
    BatchShape)
    requires
        0 < dimension,
        query_len == dimension,
        values_len % dimension == 0,
    ensures
        shape.dimension == dimension,
        shape.count == values_len / dimension,
        shape.count * dimension == values_len,
{
    proof {
        lemma_fundamental_div_mod(values_len as int, dimension as int);
        lemma_mul_is_commutative(dimension as int, (values_len / dimension) as int);
    }
    BatchShape { dimension, count: values_len / dimension }
}

/// The vectors of a batch lie inside the values, one after the other, and the
/// elements left over after the last whole vector are fewer than a dimension.
pub proof fn lemma_batch_vectors_in_bounds(shape: BatchShape, values_len: usize, i: int)
    requires
        0 < shape.dimension,
        shape.count == values_len / shape.dimension,
        0 <= i < shape.count,
    ensures
        0 <= shape.start(i),
        shape.start(i) + shape.dimension == shape.start(i + 1),
        shape.start(i) + shape.dimension <= values_len,
        values_len - shape.start(shape.count as int) < shape.dimension,
{
    let d = shape.dimension as int;
    lemma_round_down_le(values_len as int, d);
    lemma_mul_nonnegative(i, d);
    lemma_mul_is_distributive_add_other_way(d, i, 1);
    lemma_mul_is_commutative(d, i);
    lemma_mul_is_commutative(d, i + 1);
    lemma_mul_inequality(i + 1, shape.count as int, d);
}

/// The plan of a cosine distance batch: the kernel that computes each distance
/// and the shape of the batch.
#[derive(Clone, Copy, Debug, PartialEq, Eq)]
pub struct CosineBatchPlan {
    pub kernel: Kernel,
    pub shape: BatchShape,
}

/// The kernel of a cosine batch: `f32` vectors of dimension 8 and 16 have
/// kernels of their own, every other batch uses the cosine kernel of its
/// element type with the query's norm computed once.
pub open spec fn cosine_batch_kernel(elem: ElemKind, dimension: usize) -> Kernel {
    if elem == ElemKind::Float32 && dimension == 8 {
        Kernel::CosineOnce8
    } else if elem == ElemKind::Float32 && dimension == 16 {
        Kernel::CosineOnce16
    } else {
        Kernel::CosineFast(elem)
    }
}

/// The plan of the cosine distances between a query and each whole vector of a
/// batch.
pub fn cosine_batch_plan(elem: ElemKind, query_len: usize, values_len: usize, dimension: usize) -> (plan: CosineBatchPlan)
    requires
        0 < dimension,
        query_len == dimension,
    ensures
        plan.kernel == cosine_batch_kernel(elem, dimension),
        plan.kernel == Kernel::CosineOnce8 || plan.kernel == Kernel::CosineOnce16 ==> elem
            == ElemKind::Float32,
        elem != ElemKind::Float32 ==> plan.kernel == Kernel::CosineFast(elem),
        elem == ElemKind::Float32 && dimension == 8 ==> plan.kernel == Kernel::CosineOnce8,
        elem == ElemKind::Float32 && dimension == 16 ==> plan.kernel == Kernel::CosineOnce16,
        elem == ElemKind::Float32 && dimension != 8 && dimension != 16 ==> plan.kernel
            == Kernel::CosineFast(ElemKind::Float32),
        plan.kernel == Kernel::CosineOnce8 ==> query_len == 8 && plan.shape.dimension == 8,
        plan.kernel == Kernel::CosineOnce16 ==> query_len == 16 && plan.shape.dimension == 16,
        plan.shape.dimension == dimension,
        plan.shape.count == values_len / dimension,
{
    proof {
        lemma_fixed_width_kernels_only_for_f32(elem, dimension);
    }
    let kernel = match elem {
        ElemKind::Float32 => if dimension == 8 {
            Kernel::CosineOnce8
        } else if dimension == 16 {
            Kernel::CosineOnce16
        } else {
            Kernel::CosineFast(elem)
        },
        _ => Kernel::CosineFast(elem),
    };
    CosineBatchPlan { kernel, shape: BatchShape { dimension, count: values_len / dimension } }
}

/// The data type of an Arrow vector array, as far as the distance functions
/// tell the types apart.
#[derive(Clone, Copy, Debug, PartialEq, Eq)]
pub enum ArrowValueType {
    Float16,
    Float32,
    Float64,
    Int8,
    Other,
}

/// Why a distance over Arrow arrays was refused.
#[derive(Clone, Copy, Debug, PartialEq, Eq)]
pub enum BatchError {
    /// The query's data type has no kernel.
    UnsupportedQueryType,
    /// The values of the batch do not have the element type of the kernel.
    ValueTypeMismatch,
}

/// The kernel chosen for an Arrow query: its element type, and whether the
/// query (of `Int8` values) and the batch are first converted to floating point.
#[derive(Clone, Copy, Debug, PartialEq, Eq)]
pub struct ArrowKernel {
    pub elem: ElemKind,
    pub convert_to_float: bool,
}

/// The Arrow type that holds values of an element type, where the Arrow
/// distance functions have one.
pub open spec fn arrow_type_of(elem: ElemKind) -> Option<ArrowValueType> {
    match elem {
        ElemKind::Float16 => Some(ArrowValueType::Float16),
        ElemKind::Float32 => Some(ArrowValueType::Float32),
        ElemKind::Float64 => Some(ArrowValueType::Float64),
        ElemKind::BFloat16 => None,
    }
}

/// The kernel for a query of an Arrow type: the three float types are used as
/// they are, `Int8` queries are converted to `f32`, every other type is refused.
pub fn arrow_query_kernel(query: ArrowValueType) -> (r: Result<ArrowKernel, BatchError>)
    ensures
        r is Err <==> query == ArrowValueType::Other,
        r matches Err(e) ==> e == BatchError::UnsupportedQueryType,
        query == ArrowValueType::Float16 ==> r == Ok::<ArrowKernel, BatchError>(
            ArrowKernel { elem: ElemKind::Float16, convert_to_float: false },
        ),
        query == ArrowValueType::Float32 ==> r == Ok::<ArrowKernel, BatchError>(
            ArrowKernel { elem: ElemKind::Float32, convert_to_float: false },
        ),
        query == ArrowValueType::Float64 ==> r == Ok::<ArrowKernel, BatchError>(
            ArrowKernel { elem: ElemKind::Float64, convert_to_float: false },
        ),
        query == ArrowValueType::Int8 ==> r == Ok::<ArrowKernel, BatchError>(
            ArrowKernel { elem: ElemKind::Float32, convert_to_float: true },
        ),
{
    match query {
        ArrowValueType::Float16 => Ok(ArrowKernel { elem: ElemKind::Float16, convert_to_float: false }),
        ArrowValueType::Float32 => Ok(ArrowKernel { elem: ElemKind::Float32, convert_to_float: false }),
        ArrowValueType::Float64 => Ok(ArrowKernel { elem: ElemKind::Float64, convert_to_float: false }),
        ArrowValueType::Int8 => Ok(ArrowKernel { elem: ElemKind::Float32, convert_to_float: true }),
        ArrowValueType::Other => Err(BatchError::UnsupportedQueryType),
    }
}

/// The batch's values, of type `values` (after the conversion to floating
/// point where the kernel asks for it), suit the kernel exactly when they have
/// its element type.
pub fn check_batch_values(kernel: ArrowKernel, values: ArrowValueType) -> (r: Result<(), BatchError>)
    ensures
        r is Ok <==> arrow_type_of(kernel.elem) == Some(values),
        r matches Err(e) ==> e == BatchError::ValueTypeMismatch,
        kernel.elem == ElemKind::Float16 ==> (r is Ok <==> values == ArrowValueType::Float16),
        kernel.elem == ElemKind::Float32 ==> (r is Ok <==> values == ArrowValueType::Float32),
        kernel.elem == ElemKind::Float64 ==> (r is Ok <==> values == ArrowValueType::Float64),
        kernel.elem == ElemKind::BFloat16 ==> r is Err,
{
    proof {
        lemma_batch_values_same_width();
    }
    let suits = match (kernel.elem, values) {
        (ElemKind::Float16, ArrowValueType::Float16) => true,
        (ElemKind::Float32, ArrowValueType::Float32) => true,
        (ElemKind::Float64, ArrowValueType::Float64) => true,
        _ => false,
    };
    if suits {
        Ok(())
    } else {
        Err(BatchError::ValueTypeMismatch)
    }
}

/// The shape of the batch held by a fixed-size list array of `list_len` lists
/// of `value_length` values each (`values_len` values in all): one distance
/// per list, so that the list array's null buffer lines up with the distances.
pub fn arrow_batch_shape(query_len: usize, value_length: i32, values_len: usize, list_len: usize) -> (shape: BatchShape)
    requires
        0 < value_length,
        query_len == value_length,
        values_len == list_len * value_length,
    ensures
        shape.dimension == value_length,
        shape.count == list_len,
        shape.count == values_len / shape.dimension,
{
    let dimension = value_length as usize;
    proof {
        lemma_div_multiples_vanish(list_len as int, dimension as int);
        lemma_mul_is_commutative(list_len as int, dimension as int);
    }
    BatchShape { dimension, count: values_len / dimension }
}

/// Only `f32` batches of dimension 8 and 16 get the fixed-width kernels; every
/// other element type, at every dimension, gets its own cosine kernel, and
/// `f32` batches of any other dimension get the `f32` cosine kernel.
pub proof fn lemma_fixed_width_kernels_only_for_f32(elem: ElemKind, dimension: usize)
    ensures
        cosine_batch_kernel(elem, dimension) == Kernel::CosineOnce8 || cosine_batch_kernel(
            elem,
            dimension,
        ) == Kernel::CosineOnce16 ==> elem == ElemKind::Float32,
        elem != ElemKind::Float32 ==> cosine_batch_kernel(elem, dimension) == Kernel::CosineFast(
            elem,
        ),
        elem == ElemKind::Float32 && dimension == 8 ==> cosine_batch_kernel(elem, dimension)
            == Kernel::CosineOnce8,
        elem == ElemKind::Float32 && dimension == 16 ==> cosine_batch_kernel(elem, dimension)
            == Kernel::CosineOnce16,
        elem == ElemKind::Float32 && dimension != 8 && dimension != 16 ==> cosine_batch_kernel(
            elem,
            dimension,
        ) == Kernel::CosineFast(ElemKind::Float32),
{
}

/// Each float kernel takes batches of the Arrow float type of its own width and
/// no other type; the `bf16` kernel has no Arrow batch type.
pub proof fn lemma_batch_values_same_width()
    ensures
        arrow_type_of(ElemKind::Float16) == Some(ArrowValueType::Float16),
        arrow_type_of(ElemKind::Float32) == Some(ArrowValueType::Float32),
        arrow_type_of(ElemKind::Float64) == Some(ArrowValueType::Float64),
        arrow_type_of(ElemKind::BFloat16) is None,
{
}

} // verus!
