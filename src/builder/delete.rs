//! Deletion: `DELETE FROM` the table, filtered, with what the deleted rows return.
use vstd::prelude::*;
use crate::builder::error::BuilderError;
use crate::builder::fields::text_result;
use crate::builder::{operation_sql, render};
use crate::parser::parsed::{FieldName, ParsedOperation, ParsedQuery};

verus! {

pub fn unique(query_schema: &ParsedQuery) -> (r: Result<String, BuilderError>)
    ensures
        text_result(r) == operation_sql(ParsedOperation::DeleteOne, *query_schema),
{
    render(query_schema, vec![FieldName::From, FieldName::Where, FieldName::Return], "DELETE FROM ")
}

pub fn many(query_schema: &ParsedQuery) -> (r: Result<String, BuilderError>)
    ensures
        text_result(r) == operation_sql(ParsedOperation::DeleteMany, *query_schema),
{
    render(query_schema, vec![FieldName::From, FieldName::Where, FieldName::Return], "DELETE FROM ")
}

} // verus!
