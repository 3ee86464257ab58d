//! The errors of parsing a query description.
use vstd::prelude::*;
use vstd::string::*;

verus! {

/// Why a query description could not be parsed.
#[derive(Debug, Clone, PartialEq)]
pub enum ParserError {
    SchemaError(String),
    ParseError(String),
    InputError(String),
    NotFoundError(String),
    Error(String),
    NoArguments(String),
    InvalidFieldName(String),
    InvalidValueType(String),
    InvalidOrder(String),
    InvalidOperation(String),
}

/// The heading under which each kind of parse error is reported.
pub open spec fn parser_error_heading(e: ParserError) -> Seq<char> {
    match e {
        ParserError::SchemaError(_) => "Schema error: "@,
        ParserError::ParseError(_) => "Parse error: "@,
        ParserError::InputError(_) => "Input error: "@,
        ParserError::NotFoundError(_) => "Not found error: "@,
        ParserError::Error(_) => "General error: "@,
        ParserError::NoArguments(_) => "No arguments error: "@,
        ParserError::InvalidFieldName(_) => "Invalid field name: "@,
        ParserError::InvalidValueType(_) => "Invalid value type: "@,
        ParserError::InvalidOrder(_) => "Invalid order: "@,
        ParserError::InvalidOperation(_) => "Invalid operation: "@,
    }
}

/// The detail that an error carries.
pub open spec fn parser_error_detail(e: ParserError) -> String {
    match e {
        ParserError::SchemaError(s) => s,
        ParserError::ParseError(s) => s,
        ParserError::InputError(s) => s,
        ParserError::NotFoundError(s) => s,
        ParserError::Error(s) => s,
        ParserError::NoArguments(s) => s,
        ParserError::InvalidFieldName(s) => s,
        ParserError::InvalidValueType(s) => s,
        ParserError::InvalidOrder(s) => s,
        ParserError::InvalidOperation(s) => s,
    }
}

impl ParserError {
    /// The error as text: its heading followed by its detail.
    pub fn message(&self) -> (r: String)
        ensures
            r@ == parser_error_heading(*self) + parser_error_detail(*self)@,
    {
        let (heading, detail) = match self {
            ParserError::SchemaError(s) => ("Schema error: ", s),
            ParserError::ParseError(s) => ("Parse error: ", s),
            ParserError::InputError(s) => ("Input error: ", s),
            ParserError::NotFoundError(s) => ("Not found error: ", s),
            ParserError::Error(s) => ("General error: ", s),
            ParserError::NoArguments(s) => ("No arguments error: ", s),
            ParserError::InvalidFieldName(s) => ("Invalid field name: ", s),
            ParserError::InvalidValueType(s) => ("Invalid value type: ", s),
            ParserError::InvalidOrder(s) => ("Invalid order: ", s),
            ParserError::InvalidOperation(s) => ("Invalid operation: ", s),
        };
        let mut r = String::new();
        r.append(heading);
        r.append(detail.as_str());
        r
    }
}

} // verus!
