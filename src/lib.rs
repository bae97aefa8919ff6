//! Logical query tree of a boolean full-text search query, with its
//! canonical text rendering.
use vstd::prelude::*;

pub mod laws;
pub mod logical_ast;
pub mod schema;
pub mod score;
pub mod text;

pub use logical_ast::{LogicalAst, LogicalLiteral};
pub use schema::{occur_letter, Bound, Field, Occur, Term, Type};
pub use score::Score;

verus! {

} // verus!
