//! Binding descriptors for serverless function parameters.
//!
//! A function parameter is declared with a role name and a list of attribute
//! arguments. This crate resolves such a declaration to one of a closed set of
//! bindings, stamps the direction in which data flows through it, and renders
//! the result either as the record that the host reads or as a token stream
//! that rebuilds the binding inside generated code.

pub mod arguments;
pub mod binding;
pub mod codegen;
pub mod descriptor;
pub mod direction;
pub mod payloads;
pub mod registry;
pub mod resolution;
pub mod synthesis;
pub mod text;
pub mod tokens;
