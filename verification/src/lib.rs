//! The decisions of the `soliditydefend` command line, verified: how findings are
//! counted per severity, which exit code a run ends with and why, which command the
//! flags select, how option values, cached severity labels and interactive answers
//! are read, and which findings pass the minimum-severity filter.

pub mod analysis;
pub mod cli;
pub mod exit;
pub mod prompts;
pub mod severity;
pub mod summary;
pub mod text;
pub mod version;
