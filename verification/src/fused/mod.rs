//! Fused kernels: how they are launched and what they compute.

pub mod fp8;
pub mod fused_laws;
pub mod gemma4_reference;
pub mod launch_raw;
pub mod reference;
