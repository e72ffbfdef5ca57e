//! Semantic model and multi-backend emitter for C++ bindings: a recursive
//! type IR, a preprocessing pass that classifies fields and methods and
//! discovers container instantiations, and emitters for the native shim,
//! the foreign declarations and the safe wrapper API.
pub mod text;
pub mod types;
pub mod model;
pub mod registry;
pub mod preprocess;
pub mod shim;
pub mod ffi;
pub mod wrapper;
pub mod containers;
pub mod bridge;
pub mod dsl;
pub mod laws;
pub mod handle;
pub mod declare;
