//! Smidr: a cargo-inspired build tool for C and C++ projects.
//!
//! This crate holds the verified core of the tool: manifest types and
//! profile resolution, compiler-diagnostic parsing and rendering, the
//! project model, dependency resolution decisions, build-system recipes
//! and the compile/link command planning.

pub mod text;
pub mod diagnostics;
pub mod config;
pub mod dep_table;
pub mod paths;
pub mod error;
pub mod toolchain;
pub mod resolver;
pub mod project;
pub mod builder;
pub mod cli;
pub mod compile_db;
