//! The generation path's inputs: originator settings and payment rows, their
//! validation, and the padding that makes a value a field.

pub mod csv_file;
pub mod csv_utils;
