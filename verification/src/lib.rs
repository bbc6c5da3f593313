//! Front end of a compiler for a small subject language: a lexical scanner
//! that turns source text into spans and token kinds, a content-addressed
//! source-identity model for incremental builds, and a worker-pool scheduler
//! that assigns build tasks and collects build events.

pub mod ast;
pub mod builder;
pub mod common;
pub mod interpreter;
pub mod lexer;
pub mod parser;
pub mod symbol;
pub mod syntax;
