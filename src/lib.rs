//! A compiler from a generic description of a data operation to SQL text.
pub mod builder;
pub mod constants;
pub mod executor;
pub mod parser;
pub mod text;
