//! Static analysis of differentially private computation graphs.
//!
//! Every node of a graph is analysed from metadata alone: the properties of
//! its output are derived from the properties of its inputs, its sensitivity
//! is derived for a chosen neighboring relation, and statically known
//! arguments are materialized as constant nodes.

pub mod arrays;
pub mod base;
pub mod components;
pub mod errors;
pub mod graph;
pub mod named;
pub mod utilities;
