//! Materialisation of semi-structured incident reports into typed records.
//!
//! A report type is described by an ordered list of field descriptors; a raw
//! report carries an ordered list of untyped values. The engine pairs the two
//! by position, routes each pair through a per-kind table of handlers and
//! builds one typed record per report, or fails with an error that names the
//! report and the field that broke.

pub mod calendar;
pub mod cli;
pub mod config;
pub mod divera;
pub mod error;
pub mod numeral;
pub mod reports;
pub mod sheet;
pub mod text;
pub mod value;
