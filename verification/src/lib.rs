//! Lowering of parsed NetsBlox project trees to PyBlox source text, packaged
//! in a compact JSON project envelope.

pub mod ast;
pub mod expr;
pub mod lower;
pub mod stmt;
pub mod assemble;
pub mod json;
pub mod laws;
pub mod text;
