//! A verified tree-based genetic-programming engine for symbolic regression.
//!
//! A population of arithmetic expression trees is evolved generation by
//! generation to approximate a target function given as (x, y) samples.
//! The engine's decisions depend on sample values and fitness scores only
//! through their ordering, so fitness is carried as the bit pattern of a
//! non-negative binary64 value (`u64`), on which the unsigned order agrees
//! with the numeric order.  The caller evaluates trees numerically and hands
//! the resulting bit patterns back to the engine.

pub mod engine;
pub mod fitness;
pub mod population;
pub mod rng;
pub mod text;
pub mod tree;

pub use engine::Config;
pub use engine::GP;
pub use engine::Report;
pub use engine::Sample;
pub use population::Member;
pub use tree::Action;
pub use tree::Node;
