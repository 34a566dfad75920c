//! The runtime: scheduling of requests and execution of layers.

pub mod device_laws;
pub mod device_model;
pub mod engine;
pub mod forward_laws;
pub mod gemma4_layer_exec;
pub mod layer_laws;
pub mod layer_ops;
pub mod probe;
pub mod probe_laws;
pub mod sampling;
pub mod sched_state;
pub mod schedule_laws;
pub mod scheduler;
