//! A verified compiler for a small subset of C: lexing, parsing,
//! variable resolution, lowering to a three-address IR, instruction
//! selection, stack-slot allocation, instruction legalization and
//! assembly emission.

pub mod assembly;
pub mod ast;
pub mod codegen;
pub mod decimal;
pub mod emit;
pub mod instruction_fixup;
pub mod parser;
pub mod replace_pseudos;
pub mod tacky;
pub mod tackygen;
pub mod token;
pub mod tokenizer;
pub mod variable_resolution;
