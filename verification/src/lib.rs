//! Copies a relational database table by table: the definition of each
//! table first, then its rows, decoded, rewritten column by column where
//! the settings ask for it, and inserted in batches.
//!
//! The library holds the rules and no connection:
//!
//! - [`value`]: the typed value of a cell and its decoding from what the
//!   driver read;
//! - [`json`]: JSON documents and their structural merge;
//! - [`transformer`]: the rules that rewrite the values of a column;
//! - [`config`]: the settings of a table and their defaults;
//! - [`extractor`]: the pipeline of one table, a state machine that is
//!   driven with events and answers with actions, and what holds of its
//!   runs;
//! - [`prepare`]: the statements that make the target database ready;
//! - [`report`]: the outcomes of the tables of a run.

pub mod config;
pub mod extractor;
pub mod json;
pub mod prepare;
pub mod report;
pub mod transformer;
pub mod value;
