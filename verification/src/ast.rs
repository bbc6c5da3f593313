//! Expression data for the later stages, held index-first: expressions
//! refer to one another and to symbols through stable indices into their
//! stores.

pub mod expr;
