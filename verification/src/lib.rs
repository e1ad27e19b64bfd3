//! Static type resolution for the operators of a lazy tabular expression
//! language: given an operator and the resolved fields of its inputs, the
//! library computes the name and data type of the operator's output.

pub mod array;
pub mod binary;
pub mod boolean;
pub mod cat;
pub mod cum;
pub mod datatypes;
pub mod error;
pub mod function_expr;
pub mod lattice;
pub mod laws;
pub mod list;
pub mod mapper;
pub mod plugin;
pub mod range;
pub mod strings;
pub mod struct_;
pub mod temporal;
