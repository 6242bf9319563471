//! Scan engine of a columnar file reader.
//!
//! A scan visits the row groups of one file in order, skips the groups that
//! statistics rule out, materializes the projected columns of the others, folds
//! the per-group tables into one and cuts the result to the caller's row limit.
//! The decoding of a column chunk, the predicate and the reducers are
//! collaborators that the caller hands in.

pub mod budget;
pub mod chunk;
pub mod error;
pub mod fanout;
pub mod finish;
pub mod frame;
pub mod materialize;
pub mod outcome;
pub mod plan;
pub mod scan;
pub mod schema;
pub mod select;
pub mod source;
pub mod table;

pub use crate::scan::read_parquet;
