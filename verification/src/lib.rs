//! Dataset-scoped quad resolution for a SPARQL evaluator.
//!
//! A [`dataset::DatasetView`] stands between a pattern matcher and a
//! persistent encoded store. It enforces which graphs a query may see, and it
//! lets the evaluator create strings of its own that the store never learns
//! about.
//!
//! - [`store`] says what is asked of the persistent store, and how its
//!   answers are spoken of without assuming anything of them.
//! - [`encoded`] and [`model`] hold the terms, encoded and as a query writes
//!   them.
//! - [`str_id`] holds the identifiers of both kinds, the store's and the
//!   evaluation's own, and takes patterns and quads from one side to the
//!   other.
//! - [`interner`] keeps the strings that the evaluation makes up.
//! - [`restriction`] works out the graphs of a dataset, and [`graphs`] decides
//!   which of them answer a pattern.
//! - [`dataset`] is the view itself, and [`laws`] states what holds of every
//!   view.

pub mod dataset;
pub mod encoded;
pub mod error;
pub mod graphs;
pub mod interner;
pub mod laws;
pub mod model;
pub mod restriction;
pub mod store;
pub mod str_id;
