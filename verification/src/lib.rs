//! Shader uniform resolution and GPU-binding plumbing.
//!
//! The crate models shader uniform values as a tree that mixes literal
//! scalars, references to externally computed assets, and nested bundles.
//! A raw tree is resolved against an asset store into a resolved tree of
//! the same shape, and the resolved tree is then walked to assign GPU
//! binding slots and to batch per-scope draw submissions.

pub mod binding;
pub mod compose;
pub mod config;
pub mod dispatch;
pub mod laws;
pub mod paths;
pub mod plumber;
pub mod reflection;
pub mod resolver;
pub mod uniforms;
