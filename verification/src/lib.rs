//! Reads the status that a key-value store reports of itself and turns it
//! into the gauges that a monitoring collector scrapes.
//!
//! `parser` cuts the status text into its key/value pairs, `partition`
//! decodes the value of a keyspace line, `exporter` brings the gauges of
//! `metric` up to date from the pairs, and `config` builds the address to
//! reach the store at.

pub mod config;
pub mod error;
pub mod exporter;
pub mod metric;
pub mod parser;
pub mod partition;
pub mod text;
