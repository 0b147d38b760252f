//! Code generation: lowering verified actors to typed low-level constructs
//! and emitting an object buffer.
//!
//! The lowered form is this crate's own instruction model: aggregate
//! layouts, function signatures and straight-line typed instructions.
//! Emission serializes a verified module into a deterministic byte
//! encoding; machine-specific object formats and linking belong to the
//! backend toolchain that consumes the buffer, not to this crate.

pub mod error;
pub mod lower;
pub mod expression;
pub mod generator;
pub mod eval;

use vstd::prelude::*;
use vstd::string::StringExecFns;
use crate::codegen::error::CodeGenError;
use crate::codegen::generator::CodeGenerator;

verus! {

/// How hard the backend may optimize.  `Off` disables optimization,
/// `Standard` is the default level, `Aggressive` the highest; the level
/// affects backend code quality only, never lowering semantics.
#[derive(Debug, Clone, Copy, PartialEq, Eq, Structural)]
pub enum OptimizationLevel {
    Off,
    Less,
    Standard,
    Aggressive,
}

/// Configuration of a code-generation run.
#[derive(Debug)]
pub struct CodeGenOptions {
    pub optimization_level: OptimizationLevel,
    pub debug_mode: bool,
    pub target_triple: String,
}

impl Default for CodeGenOptions {
    /// Standard optimization, no diagnostic tracing, and the portable
    /// WebAssembly-style default target.
    fn default() -> (r: Self)
        ensures
            r.optimization_level is Standard,
            !r.debug_mode,
            r.target_triple@ == "wasm32-unknown-unknown"@,
    {
        CodeGenOptions {
            optimization_level: OptimizationLevel::Standard,
            debug_mode: false,
            target_triple: String::from_str("wasm32-unknown-unknown"),
        }
    }
}

/// Creates a code generator for one compilation run, with the given
/// options or the defaults.
pub fn create_generator(module_name: &str, options: Option<CodeGenOptions>) -> (r: Result<
    CodeGenerator,
    CodeGenError,
>)
    ensures
        r matches Ok(g) && ({
            &&& g.module.name@ == module_name@
            &&& g.module.aggregates@.len() == 0
            &&& g.module.functions@.len() == 0
            &&& !g.module.verified
            &&& g.type_converter.struct_types@.len() == 0
            &&& g.actor_methods@.len() == 0
            &&& g.stage is Declared
            &&& match options {
                Some(o) => g.optimization_level == o.optimization_level && g.debug_mode
                    == o.debug_mode,
                None => g.optimization_level is Standard && !g.debug_mode,
            }
        }),
{
    let opts = match options {
        Some(o) => o,
        None => CodeGenOptions::default(),
    };
    CodeGenerator::new(module_name, opts)
}

} // verus!
