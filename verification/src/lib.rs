//! Lowering of a program of one function that returns one expression to a
//! linear, register-numbered textual intermediate representation.
//!
//! - [`ast`]: the syntax tree and its lowering, `dump` on each node.
//! - [`ir`]: the text of the representation and a model of its instructions.
//! - [`decimal`]: the decimal text of an integer.
//! - [`numbering`]: what is proved of the temporaries' numbers.
//! - [`reading`]: that the text can be read as instructions in one way only.

pub mod ast;
pub mod decimal;
pub mod ir;
pub mod numbering;
pub mod reading;
