//! A typed-expression compiler core: it parses binary-operator expressions
//! over a small scripting language into an abstract syntax tree, statically
//! checks operand types while parsing, and translates the checked tree into
//! POSIX shell fragments whose meaning is pinned down by a formal model of
//! the emitted constructs.

pub mod ast;
pub mod diag;
pub mod laws;
pub mod parser;
pub mod sem;
pub mod shell;
pub mod token;
pub mod translate;
pub mod typecheck;
