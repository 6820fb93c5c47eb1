//! What code generation works with.

pub mod bindings;
