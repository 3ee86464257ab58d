//! Aggregates over the filtered rows: their number, or the mean of their `id`.
use vstd::prelude::*;
use crate::builder::error::BuilderError;
use crate::builder::fields::text_result;
use crate::builder::{operation_sql, render};
use crate::parser::parsed::{FieldName, ParsedOperation, ParsedQuery};

verus! {

pub fn count(query_schema: &ParsedQuery) -> (r: Result<String, BuilderError>)
    ensures
        text_result(r) == operation_sql(ParsedOperation::Count, *query_schema),
{
    render(query_schema, vec![FieldName::From, FieldName::Where], "SELECT COUNT (*) FROM ")
}

pub fn average(query_schema: &ParsedQuery) -> (r: Result<String, BuilderError>)
    ensures
        text_result(r) == operation_sql(ParsedOperation::Average, *query_schema),
{
    render(query_schema, vec![FieldName::From, FieldName::Where], "SELECT AVG(id) FROM ")
}

} // verus!
