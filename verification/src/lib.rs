//! A verified core for a minimal word-count utility.
//!
//! The library measures a file's contents three ways (bytes, lines, words),
//! gathers the results in a partial record per metric, and merges the
//! partials into one report line. File reading, flag parsing and printing
//! stay outside; everything here is pure and verified.

pub mod metrics;
pub mod record;
pub mod report;
