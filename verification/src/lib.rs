//! Verified core of the rvLLM inference engine.

pub mod arch;
pub mod attention;
pub mod chat;
pub mod chat_frame_laws;
pub mod chat_laws;
pub mod chat_view;
pub mod cutlass;
pub mod dtype;
pub mod env;
pub mod error;
pub mod fused;
pub mod hf;
pub mod hf_laws;
pub mod ids;
pub mod kernels;
pub mod mem;
pub mod metadata;
pub mod paths;
pub mod runtime;
pub mod shape;
pub mod symbols;
pub mod text;
pub mod text_laws;
