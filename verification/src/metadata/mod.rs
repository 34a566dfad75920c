//! Batch metadata: one packed buffer per step, in a frozen layout, filled by one
//! function.
//!
//! A layout is determined by bucket and block count alone. Captured graphs bind
//! its offsets and carry its digest, so that a drift is noticed at replay.

pub mod layout;
pub mod pack;
pub mod pack_laws;
pub mod plan;
