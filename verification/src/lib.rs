//! Verified index layouts, shape checks and kernel dispatch of the dot-product
//! and cosine distance kernels.
pub mod blocks;
pub mod dispatch;
pub mod batch;
