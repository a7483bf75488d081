//! Front end of an interpreter for a small C-like scripting language:
//! a lexer that turns source text into tokens, a syntax tree model, and a
//! Pratt parser that builds the tree, each with a verified contract.

pub mod token;
pub mod lexer;
pub mod ast;
pub mod parser;
