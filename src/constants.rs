//! Messages carried by the builder's errors.
use vstd::prelude::*;

verus! {

pub const MISSING_SCHEMA: &'static str = "Schema is missing.";

pub const MISSING_TABLE: &'static str = "Table is missing.";

pub const INVALID_FIELD: &'static str = "Invalid field name.";

pub const INVALID_STATEMENT: &'static str = "Invalid statement.";

} // verus!
