//! Reads: the selected columns of the filtered rows.
use vstd::prelude::*;
use crate::builder::error::BuilderError;
use crate::builder::fields::text_result;
use crate::builder::operation_sql;
use crate::builder::query_builder::QueryBuilder;
use crate::parser::parsed::{FieldName, ParsedOperation, ParsedQuery};

verus! {

/// The first-row read, which also renders the query's joins.
pub fn unique(query_schema: &ParsedQuery) -> (r: Result<String, BuilderError>)
    ensures
        text_result(r) == operation_sql(ParsedOperation::FindFirst, *query_schema),
{
    let mut builder = QueryBuilder::new(query_schema);
    let r = builder.order_fields(vec![FieldName::Select, FieldName::From, FieldName::Include, FieldName::Where]).build_ordered();
    proof {
        if r is Ok {
            assert(Seq::<char>::empty() + r->Ok_0@ =~= r->Ok_0@);
        }
    }
    r
}

pub fn many(query_schema: &ParsedQuery) -> (r: Result<String, BuilderError>)
    ensures
        text_result(r) == operation_sql(ParsedOperation::FindMany, *query_schema),
{
    let mut builder = QueryBuilder::new(query_schema);
    let r = builder.order_fields(vec![FieldName::Select, FieldName::From, FieldName::Where]).build_ordered();
    proof {
        if r is Ok {
            assert(Seq::<char>::empty() + r->Ok_0@ =~= r->Ok_0@);
        }
    }
    r
}

} // verus!
