//! Typed row decoding for tabular results of a binary database wire protocol.
//!
//! A result set arrives as a column schema (ordered column names with wire-level
//! type tags) together with one raw byte buffer per column per row.  This crate
//! builds [`rows::Row`] values over a shared schema and exposes typed accessors
//! that decode a located buffer into a concrete value, looked up either by
//! column name or by positional index.  Decoding never re-serialises and never
//! coerces across incompatible tag families.

pub mod codec;
pub mod errors;
pub mod foreign;
pub mod numeric;
pub mod rows;
pub mod tags;
pub mod values;
