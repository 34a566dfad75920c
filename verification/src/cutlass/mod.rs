//! CUTLASS FP8 matrix multiplication through shared libraries.

pub mod gemm_laws;
pub mod lib_so;
pub mod plan;
