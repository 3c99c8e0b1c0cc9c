//! Back end of a small compiler pipeline for an expression language with
//! integer and boolean values: a bytecode compiler that walks a typed syntax
//! tree and emits instructions for a stack-based virtual machine, together
//! with the diagnostics subsystem shared by every stage of the pipeline.

pub mod compiler;
pub mod lexer;
pub mod log;
pub mod parser;
