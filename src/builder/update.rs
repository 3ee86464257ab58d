//! Update of the filtered rows, with what the updated rows return.
use vstd::prelude::*;
use crate::builder::error::BuilderError;
use crate::builder::fields::text_result;
use crate::builder::{operation_sql, render};
use crate::parser::parsed::{FieldName, ParsedOperation, ParsedQuery};

verus! {

pub fn one(query_schema: &ParsedQuery) -> (r: Result<String, BuilderError>)
    ensures
        text_result(r) == operation_sql(ParsedOperation::UpdateOne, *query_schema),
{
    render(query_schema, vec![FieldName::From, FieldName::Assign, FieldName::Where, FieldName::Return], "UPDATE ")
}

pub fn many(query_schema: &ParsedQuery) -> (r: Result<String, BuilderError>)
    ensures
        text_result(r) == operation_sql(ParsedOperation::UpdateMany, *query_schema),
{
    render(query_schema, vec![FieldName::From, FieldName::Assign, FieldName::Where, FieldName::Return], "UPDATE ")
}

} // verus!
