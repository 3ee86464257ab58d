//! The errors of compiling a statement.
use vstd::prelude::*;
use vstd::string::*;

verus! {

/// Why a parsed statement could not be compiled to SQL.
#[derive(Debug, Clone, PartialEq)]
pub enum BuilderError {
    InvalidFieldName(&'static str),
    MissingSchema(&'static str),
    MissingTable(&'static str),
    MissingField(String),
    InputError(&'static str),
    InvalidStatement(&'static str),
    MissingArgumentValue(&'static str),
}

/// The text that an error carries.
pub open spec fn builder_error_detail(e: BuilderError) -> Seq<char> {
    match e {
        BuilderError::InvalidFieldName(s) => s@,
        BuilderError::MissingSchema(s) => s@,
        BuilderError::MissingTable(s) => s@,
        BuilderError::MissingField(s) => s@,
        BuilderError::InputError(s) => s@,
        BuilderError::InvalidStatement(s) => s@,
        BuilderError::MissingArgumentValue(s) => s@,
    }
}

impl BuilderError {
    /// The error as text: the text it carries, in double quotes.
    pub fn message(&self) -> (r: String)
        ensures
            r@ == seq!['"'] + builder_error_detail(*self) + seq!['"'],
    {
        let detail: &str = match self {
            BuilderError::InvalidFieldName(s) => s,
            BuilderError::MissingSchema(s) => s,
            BuilderError::MissingTable(s) => s,
            BuilderError::MissingField(s) => s.as_str(),
            BuilderError::InputError(s) => s,
            BuilderError::InvalidStatement(s) => s,
            BuilderError::MissingArgumentValue(s) => s,
        };
        let mut r = String::new();
        crate::text::push_char(&mut r, '"');
        r.append(detail);
        crate::text::push_char(&mut r, '"');
        r
    }
}

} // verus!
