//! Compiler core for an actor-oriented source language.
//!
//! Actors — single-process or distributed — carry typed, ownership-annotated
//! fields and methods with concurrency modifiers.  This crate verifies the
//! language's semantic and ownership rules over a parsed syntax tree and
//! lowers verified actors into typed low-level constructs ready for object
//! emission.  Tokenization of source text and parsing into the syntax tree
//! are provided as front-end conveniences; the object/linking toolchain that
//! consumes the emitted buffer is outside this crate.

pub mod ast;
pub mod table;
pub mod semantic;
pub mod codegen;
pub mod ownership;
pub mod lexer;
pub mod parser;
pub mod pipeline;
