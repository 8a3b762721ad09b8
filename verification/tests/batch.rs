use lance_linalg::batch::{
    arrow_batch_shape, arrow_query_kernel, check_batch_values, cosine_batch_plan,
    dot_batch_shape, ArrowKernel, ArrowValueType, BatchError,
};
use lance_linalg::dispatch::{ElemKind, Kernel};

#[test]
fn dot_batch_of_whole_vectors() {
    let s = dot_batch_shape(8, 24, 8);
    assert_eq!(s.dimension, 8);
    assert_eq!(s.count, 3);
    let s = dot_batch_shape(20, 0, 20);
    assert_eq!(s.count, 0);
}

#[test]
fn cosine_batch_dimension_8_uses_its_kernel() {
    // The batches of the scipy / sklearn reference values: one vector of 8.
    let p = cosine_batch_plan(ElemKind::Float32, 8, 8, 8);
    assert_eq!(p.kernel, Kernel::CosineOnce8);
    assert_eq!(p.shape.count, 1);
}

#[test]
fn cosine_batch_dimension_16_uses_its_kernel() {
    let p = cosine_batch_plan(ElemKind::Float32, 16, 48, 16);
    assert_eq!(p.kernel, Kernel::CosineOnce16);
    assert_eq!(p.shape.count, 3);
}

#[test]
fn cosine_batch_not_aligned() {
    // A query of 2 values against a batch of 4 values: two distances.
    let p = cosine_batch_plan(ElemKind::Float32, 2, 4, 2);
    assert_eq!(p.kernel, Kernel::CosineFast(ElemKind::Float32));
    assert_eq!(p.shape.count, 2);
}

#[test]
fn cosine_batch_large() {
    let p = cosine_batch_plan(ElemKind::Float32, 1024, 1024, 1024);
    assert_eq!(p.kernel, Kernel::CosineFast(ElemKind::Float32));
    assert_eq!(p.shape.count, 1);
}

#[test]
fn cosine_batch_other_types_use_general_kernel() {
    let p = cosine_batch_plan(ElemKind::Float64, 8, 17, 8);
    assert_eq!(p.kernel, Kernel::CosineFast(ElemKind::Float64));
    // whole vectors only: the trailing value is dropped
    assert_eq!(p.shape.count, 2);
    let p = cosine_batch_plan(ElemKind::Float16, 16, 16, 16);
    assert_eq!(p.kernel, Kernel::CosineFast(ElemKind::Float16));
}

#[test]
fn arrow_query_types() {
    assert_eq!(
        arrow_query_kernel(ArrowValueType::Float16),
        Ok(ArrowKernel { elem: ElemKind::Float16, convert_to_float: false })
    );
    assert_eq!(
        arrow_query_kernel(ArrowValueType::Float32),
        Ok(ArrowKernel { elem: ElemKind::Float32, convert_to_float: false })
    );
    assert_eq!(
        arrow_query_kernel(ArrowValueType::Float64),
        Ok(ArrowKernel { elem: ElemKind::Float64, convert_to_float: false })
    );
    assert_eq!(
        arrow_query_kernel(ArrowValueType::Int8),
        Ok(ArrowKernel { elem: ElemKind::Float32, convert_to_float: true })
    );
    assert_eq!(arrow_query_kernel(ArrowValueType::Other), Err(BatchError::UnsupportedQueryType));
}

#[test]
fn arrow_batch_values_must_match() {
    let f32k = ArrowKernel { elem: ElemKind::Float32, convert_to_float: false };
    assert_eq!(check_batch_values(f32k, ArrowValueType::Float32), Ok(()));
    assert_eq!(check_batch_values(f32k, ArrowValueType::Float64), Err(BatchError::ValueTypeMismatch));
    assert_eq!(check_batch_values(f32k, ArrowValueType::Int8), Err(BatchError::ValueTypeMismatch));
    let f16k = ArrowKernel { elem: ElemKind::Float16, convert_to_float: false };
    assert_eq!(check_batch_values(f16k, ArrowValueType::Float16), Ok(()));
    assert_eq!(check_batch_values(f16k, ArrowValueType::Other), Err(BatchError::ValueTypeMismatch));
    let bf16k = ArrowKernel { elem: ElemKind::BFloat16, convert_to_float: false };
    assert_eq!(check_batch_values(bf16k, ArrowValueType::Other), Err(BatchError::ValueTypeMismatch));
}

#[test]
fn arrow_batch_one_distance_per_list() {
    let s = arrow_batch_shape(8, 8, 40, 5);
    assert_eq!(s.dimension, 8);
    assert_eq!(s.count, 5);
    let s = arrow_batch_shape(3, 3, 0, 0);
    assert_eq!(s.count, 0);
}
