//! Semantic core of a foreign-library binding generator.
//!
//! Two subsystems live here: a resolvability checker, which decides for each
//! discovered C++ declaration whether every type it transitively references
//! already has a known representation, and a database of generated Rust
//! binding items, which enforces path reachability, per-crate scoping and
//! unique-path synthesis for incremental regeneration.

pub mod cpp_data;
pub mod cpp_ffi_data;
pub mod cpp_function;
pub mod cpp_type;
pub mod database;
pub mod processor;
pub mod rust_code_generator;
pub mod rust_info;
pub mod rust_name_resolver;
pub mod rust_type;
pub mod string_utils;
