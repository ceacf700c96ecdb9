//! A small MIPS-I toolchain: lexer, assembler, instruction model and
//! simulator, with every function's behaviour stated as a contract.

pub mod address;
pub mod args;
pub mod assembler;
pub mod cpu;
pub mod errors;
pub mod expansion;
pub mod instructions;
pub mod numbers;
pub mod operands;
pub mod registers;
pub mod simulator;
pub mod symbols;
pub mod text;
pub mod tokenizer;
