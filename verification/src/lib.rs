//! Encoding and validation of fixed-width batch-payment files: one record per
//! 120-character line, a header, one or more transactions and a trailer.

pub mod blocks;
pub mod calendar;
pub mod cemtex;
pub mod csv;
pub mod errors;
pub mod generate;
pub mod helper;
pub mod layout;
pub mod parser_utils;
pub mod patterns;
pub mod reference;
pub mod text;
pub mod types;
