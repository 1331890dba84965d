//! A small untyped lambda-calculus expression language: a lexer, a
//! precedence-climbing parser, and a tree-walking evaluator with lexical
//! closures.
//!
//! Number literals are IEEE 754 single-precision values. The verified core
//! holds them as their raw 32-bit patterns (`u32`); the arithmetic itself is
//! carried out by trusted calls into soft-float routines of outside crates.

pub mod builtins;
pub mod laws;
pub mod lexer;
pub mod numeric;
pub mod parser;
pub mod pipeline;
pub mod runner;
pub mod token;
