//! A tiny scripting language: a cursor over sequences, a scanner, a recursive-descent parser,
//! a structural type-checker and a tree-walking interpreter, each stated against a
//! mathematical model and proved to follow it.

pub mod location;
pub mod model;
pub mod stream;
pub mod text;
pub mod tokenizer;
pub mod typechecker;
pub mod parser;
pub mod interpreter;
pub mod laws;
