//! A small reader, evaluator and printer for a toy expression language.
//!
//! One line of text is read into an [`Ast`], reduced to its display text and
//! written, followed by a line feed, to a text sink.

pub mod ast;
pub mod text;
pub mod number;
pub mod reader;
pub mod evaluator;
pub mod printer;
pub mod cycle;
pub mod laws;

pub use ast::{Ast, Expr};
pub use cycle::repl;
pub use evaluator::eval;
pub use printer::print;
pub use reader::{read, Unreadable};
