//! An incremental dataflow engine: operators over streams of row deltas,
//! a router that owns the worker graph, and the workers that drive them.

pub mod operations;
pub mod processing;
