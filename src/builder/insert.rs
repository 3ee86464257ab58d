//! Insertion of one row or several, with what the new rows return.
use vstd::prelude::*;
use crate::builder::error::BuilderError;
use crate::builder::fields::text_result;
use crate::builder::{operation_sql, render};
use crate::parser::parsed::{FieldName, ParsedOperation, ParsedQuery};

verus! {

pub fn one(query_schema: &ParsedQuery) -> (r: Result<String, BuilderError>)
    ensures
        text_result(r) == operation_sql(ParsedOperation::InsertOne, *query_schema),
{
    render(query_schema, vec![FieldName::From, FieldName::Data, FieldName::Return], "INSERT INTO ")
}

pub fn many(query_schema: &ParsedQuery) -> (r: Result<String, BuilderError>)
    ensures
        text_result(r) == operation_sql(ParsedOperation::InsertMany, *query_schema),
{
    render(query_schema, vec![FieldName::From, FieldName::Data, FieldName::Return], "INSERT INTO ")
}

} // verus!
