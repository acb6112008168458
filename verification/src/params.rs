//! Command-line parameter handling: mode numbers, command specs and the
//! argument grammar.

pub mod error;
pub mod mode;
pub mod parser;
pub mod spec;
