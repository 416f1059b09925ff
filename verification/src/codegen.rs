//! Lowering of typed values into the uniform boxed representation.

pub mod llvm;
pub mod runtime;
pub mod tools;
