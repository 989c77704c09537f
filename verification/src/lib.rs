//! A line-numbering text filter: each input line is emitted with a formatted
//! line number, selectively, according to per-section numbering policy.
//!
//! The input stream is divided into header, body and footer sections by
//! delimiter lines; each section has its own numbering style. Numbers are
//! rendered into a fixed-width field under one of three justification rules.

pub mod config;
pub mod format;
pub mod laws;
pub mod processor;
pub mod section;
pub mod style;
