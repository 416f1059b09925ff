//! Semantic analysis and lowering core of the Covalent compiler.
//!
//! The crate types the untyped syntax tree that the parser hands over,
//! inserts the implicit coercions of the language, and lowers typed values
//! into the uniform boxed representation that the generated code works on.

pub mod source;
pub mod text;
pub mod parser;
pub mod analysis;
pub mod codegen;
