//! Device memory: arenas and their regions, tensor views, streams, graph
//! capture, the KV cache layout and the CUDA context.
//!
//! - An arena has a fixed size and never moves; device pointers stay valid for
//!   the arena's lifetime.
//! - A capture scope binds only `GraphSafe` values, and an arena is not one.
//! - What owns a CUDA handle fences its stream before the handle is destroyed.

pub mod arena_laws;
pub mod capture;
pub mod context;
pub mod cuda_owned;
pub mod graph_safe;
pub mod hbm;
pub mod kv_layout;
pub mod layout_laws;
pub mod stream;
pub mod tensor;
pub mod unified;
