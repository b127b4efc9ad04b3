//! An expression language over the columns of a table.
//!
//! Expressions are built (`builders`), taken apart and rebuilt (`tree`), named (`naming`), typed
//! over a schema (`typing`), identified by what they compute (`semantic`), displayed (`display`)
//! and written as SQL (`sql`). What only the engine that runs them can know is asked of it
//! (`query`) and remembered (`replies`); such asking ends (`asking`).
//!
//! What each operation gives, kind by kind, stands in `typing_laws`, `text_laws`, `sql_laws` and
//! `structure_laws`; `call_laws` ties the calls of the library to it.
use vstd::prelude::*;

pub mod asking;
pub mod builders;
pub mod call_laws;
pub mod datatypes;
pub mod display;
pub mod error;
pub mod expr;
pub mod functions;
pub mod laws;
pub mod lit;
pub mod mapping;
pub mod naming;
pub mod operator;
pub mod pieces;
pub mod query;
pub mod replies;
pub mod schema;
pub mod semantic;
pub mod sql;
pub mod sql_laws;
pub mod structure_laws;
pub mod text;
pub mod text_laws;
pub mod tree;
pub mod typing;
pub mod typing_laws;

pub use crate::builders::{binary_op, col};
pub use crate::expr::{AggExpr, ApproxPercentileParams, Expr, ExprRef, SketchType};
pub use crate::naming::is_partition_compatible;
pub use crate::operator::Operator;

verus! {

} // verus!
