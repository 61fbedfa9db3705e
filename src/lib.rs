//! A checked syntax tree, a verified framework for transforming it, analysis
//! passes over it and a memoising store of their diagnostics.
pub mod ast;
pub mod transform_spec;
pub mod transformer;
pub mod laws;
pub mod fail_fast;
pub mod same;
pub mod calls;
pub mod diagnostic;
pub mod modules;
pub mod passes;
pub mod database;
