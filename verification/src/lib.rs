//! Pass composition and fixed-point convergence for a tree-rewriting minifier.
//!
//! A battery of independent rewrite rules is combined into one tree walk. The
//! pass managers here own the per-rule state, decide which rules see which
//! node category and in which order, and drive repeated walks to a fixed
//! point under a bounded budget. The rewrite rules and the tree walk itself
//! are capabilities supplied by the caller.

//!
//! Beside the pass managers the crate holds two lint rules on JSX elements
//! and `Array.prototype.join` on array literals, all on plain values.

pub mod aria_proptypes;
pub mod array_join;
pub mod ast_passes;
pub mod convergence;
pub mod diagnostics;
pub mod iframe_missing_sandbox;
pub mod jsx;
pub mod rule;
pub mod text;
pub mod wiring;
