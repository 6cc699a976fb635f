//! A small imperative scripting language: a lexer, a recursive-descent
//! parser and a tree-walking interpreter, each stated against a model.
pub mod error;
pub mod object;
pub mod token;
pub mod lexer;

pub mod expression;
pub mod statement;
pub mod environment;
pub mod interpreter;
pub mod parser;
pub mod program;
pub mod laws;
