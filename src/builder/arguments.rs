//! Rendering of one argument: its value as an SQL literal, or the argument as a predicate.
use vstd::prelude::*;
use vstd::string::*;
use crate::builder::error::BuilderError;
use crate::parser::parsed::{ParsedArgument, ParsedValue};

verus! {

/// A text between single quotes.
pub open spec fn quoted(s: Seq<char>) -> Seq<char> {
    seq!['\''] + s + seq!['\'']
}

/// A value as an SQL literal: strings and dates quoted, numbers, booleans, floats and custom
/// fragments as they are, and `NULL` for the null value or a missing one.
pub open spec fn value_sql(value: Option<ParsedValue>) -> Seq<char> {
    match value {
        Some(ParsedValue::String(s)) => quoted(s@),
        Some(ParsedValue::Date(s)) => quoted(s@),
        Some(ParsedValue::DateTime(s)) => quoted(s@),
        Some(ParsedValue::Number(n)) => n@,
        Some(ParsedValue::Boolean(b)) => b@,
        Some(ParsedValue::Float(f)) => f@,
        Some(ParsedValue::Custom(c)) => c@,
        Some(ParsedValue::Null) => "NULL"@,
        None => "NULL"@,
    }
}

/// An argument as a predicate: `name = value`, or `name fragment` for a custom value.
pub open spec fn predicate_sql(argument: ParsedArgument) -> Seq<char> {
    match argument.value {
        Some(ParsedValue::Custom(c)) => argument.name@ + " "@ + c@,
        _ => argument.name@ + " = "@ + value_sql(argument.value),
    }
}

fn quote(s: &String) -> (r: String)
    ensures
        r@ == quoted(s@),
{
    let mut r = String::new();
    crate::text::push_char(&mut r, '\'');
    r.append(s.as_str());
    crate::text::push_char(&mut r, '\'');
    assert(r@ =~= quoted(s@));
    r
}

pub fn parse_value(value: &Option<ParsedValue>) -> (r: String)
    ensures
        r@ == value_sql(*value),
{
    match value {
        Some(ParsedValue::String(s)) => quote(s),
        Some(ParsedValue::Date(s)) => quote(s),
        Some(ParsedValue::DateTime(s)) => quote(s),
        Some(ParsedValue::Number(n)) => n.clone(),
        Some(ParsedValue::Boolean(b)) => b.clone(),
        Some(ParsedValue::Float(f)) => f.clone(),
        Some(ParsedValue::Custom(c)) => c.clone(),
        Some(ParsedValue::Null) => crate::text::owned("NULL"),
        None => crate::text::owned("NULL"),
    }
}

pub fn build_where(argument: &ParsedArgument) -> (r: Result<String, BuilderError>)
    ensures
        r matches Ok(s) && s@ == predicate_sql(*argument),
{
    let mut r = argument.name.clone();
    match &argument.value {
        Some(ParsedValue::Custom(custom_value)) => {
            r.append(" ");
            r.append(custom_value.as_str());
        },
        _ => {
            r.append(" = ");
            let value = parse_value(&argument.value);
            r.append(value.as_str());
        },
    }
    Ok(r)
}

/// The name of a returned column.
pub fn build_return(argument: &ParsedArgument) -> (r: Result<String, BuilderError>)
    ensures
        r matches Ok(s) && s@ == argument.name@,
{
    Ok(argument.name.clone())
}

/// The name of a selected column.
pub fn build_select(argument: &ParsedArgument) -> (r: Result<String, BuilderError>)
    ensures
        r matches Ok(s) && s@ == argument.name@,
{
    Ok(argument.name.clone())
}

} // verus!
