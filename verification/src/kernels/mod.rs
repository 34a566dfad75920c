//! Kernel modules and the handles of the functions in them.

pub mod module;
pub mod module_laws;
