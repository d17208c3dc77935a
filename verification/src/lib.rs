//! Compile-time expansion engine for data-file-driven tests.
//!
//! Given an annotation holding a data-file path and a description of a
//! one-parameter test function, the engine decodes the file (JSON or YAML,
//! chosen by extension), and produces one independently named test unit per
//! top-level entry, each binding a freshly deserialized value of the
//! parameter's type to the parameter's name before running the original body.

pub mod engine;
pub mod extension;
pub mod laws;
pub mod literal;
pub mod model;
pub mod outside;
pub mod text;
