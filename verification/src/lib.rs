//! One query over many tabular sources.
//!
//! Files of delimited text, database files of the embedded engine and tables
//! piped through standard input are brought together in one relational
//! namespace, a compiled query is run against it, and the result is rendered
//! as text.
//!
//! - [`source`] sorts the arguments of a run into files and standard-input
//!   tables, and [`loader`] resolves the files and loads every source.
//! - [`frame`] reads delimited text into a table with an inferred schema, and
//!   [`schema`] maps inferred types to storage classes and source values to
//!   stored values.
//! - [`store`] is the federated store; [`sql`] writes its statements and
//!   [`catalog`] lists its schemas.
//! - [`query`] compiles and runs a query; [`result`] holds what it returns,
//!   and [`encode`] and [`json`] render that as text.
//! - [`plan`] decides the steps of a run from its options.
//! - [`text`] and [`number`] are the text primitives underneath.
//!
//! Reading files and streams, and printing, is left to the caller: the
//! functions here take what was read and return what is to be printed.

pub mod catalog;
pub mod encode;
pub mod failure;
pub mod frame;
pub mod json;
pub mod loader;
pub mod number;
pub mod plan;
pub mod query;
pub mod result;
pub mod schema;
pub mod source;
pub mod sql;
pub mod store;
pub mod text;
