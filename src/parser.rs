//! From a loosely typed query description to the parsed model that the builders compile.
pub mod error;
pub mod parsed;
pub mod statement;
pub mod utils;
