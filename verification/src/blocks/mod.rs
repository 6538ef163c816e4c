//! The three record kinds of a file: header, transaction and trailer.

pub mod descriptive;
pub mod detail;
pub mod total;
