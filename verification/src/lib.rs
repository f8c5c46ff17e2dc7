//! Typed document trees for a LaTeX-like markup language.
//!
//! An opaque document engine parses and pretty-prints the markup; this crate
//! owns the engine's lifecycle, converts the loosely-typed value graph the
//! engine produces into a closed set of typed node variants, and unifies the
//! failures of both layers into one error type.

use vstd::prelude::*;

pub mod ast;
pub mod dynvalue;
pub mod engine;
pub mod error;
pub mod info;
pub mod json;

pub use engine::{Engine, format_with_opts, format_with_args, jparse, parse};

verus! {

/// Format a document with the default options: line width 80, spaces for
/// indentation, 2 spaces per step, document body only.
pub fn format(engine: &Engine, input: &str) -> (r: Result<String, error::UnlatexError>)
    ensures
        engine.spec_failed() ==> (r matches Err(e) && e@ == engine.spec_fault()),
{
    engine::format_with_opts(engine, input, 80, false, 2, true)
}

} // verus!
