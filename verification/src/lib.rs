//! A lexical scanner for a small scripting language.
pub mod text;
pub mod token;
pub mod error;
pub mod reserved;
pub mod grammar;
pub mod scanner;
pub mod laws;
pub mod runner;
