//! The parsed query model that the SQL builders compile.
use vstd::prelude::*;

verus! {

/// A query against one table of one schema: its fields, in the order given, and its options.
#[derive(Debug, Clone, PartialEq)]
pub struct ParsedQuery {
    pub table: String,
    pub schema: String,
    pub fields: Vec<ParsedField>,
    pub options: QueryOptions,
}

/// The first field of the sequence with the given name.
pub open spec fn first_field(fields: Seq<ParsedField>, name: FieldName) -> Option<ParsedField>
    decreases fields.len(),
{
    if fields.len() == 0 {
        None
    } else if fields[0].name == name {
        Some(fields[0])
    } else {
        first_field(fields.drop_first(), name)
    }
}

/// The field that a borrowed lookup result refers to.
pub open spec fn field_of(r: Option<&ParsedField>) -> Option<ParsedField> {
    match r {
        Some(f) => Some(*f),
        None => None,
    }
}

impl ParsedQuery {
    pub fn new(table: String, schema: String, fields: Vec<ParsedField>, options: QueryOptions) -> (r: Self)
        ensures
            r == (ParsedQuery { table, schema, fields, options }),
    {
        ParsedQuery { table, schema, fields, options }
    }

    /// The first field with the given name; later ones of that name are not consulted.
    pub fn get_field_by_field_name(&self, name: FieldName) -> (r: Option<&ParsedField>)
        ensures
            field_of(r) == first_field(self.fields@, name),
    {
        let n = self.fields.len();
        let mut i: usize = 0;
        assert(self.fields@.subrange(0, n as int) =~= self.fields@);
        while i < n
            invariant
                n == self.fields@.len(),
                i <= n,
                first_field(self.fields@, name) == first_field(self.fields@.subrange(i as int, n as int), name),
            decreases n - i,
        {
            let ghost rest = self.fields@.subrange(i as int, n as int);
            assert(rest[0] == self.fields@[i as int]);
            if self.fields[i].name == name {
                return Some(&self.fields[i]);
            }
            assert(rest.drop_first() =~= self.fields@.subrange(i + 1, n as int));
            i = i + 1;
        }
        None
    }
}

/// The kinds of field that a query description can hold.
#[derive(Debug, Clone, Copy, PartialEq, Eq, Structural)]
pub enum FieldName {
    Where,
    Select,
    Include,
    Data,
    Assign,
    Return,
    NoReturn,
    Aggs,
    From,
}

/// One field: its kind and its arguments, in the order given.
#[derive(Debug, Clone, PartialEq)]
pub struct ParsedField {
    pub name: FieldName,
    pub arguments: Vec<ParsedArgument>,
}

/// A named argument; a missing value stands for SQL `NULL`.
#[derive(Debug, Clone, PartialEq)]
pub struct ParsedArgument {
    pub name: String,
    pub value: Option<ParsedValue>,
}

/// A literal, tagged with its kind. `Custom` is a raw SQL fragment, passed through as it is.
#[derive(Debug, Clone, PartialEq)]
pub enum ParsedValue {
    String(String),
    Number(String),
    Boolean(String),
    Float(String),
    Date(String),
    DateTime(String),
    Custom(String),
    Null,
}

/// Joins, each as (source table, source key, joining table, joining key).
#[derive(Debug, Clone, PartialEq)]
pub struct ParsedInclude {
    pub joins: Vec<(String, String, String, String)>,
}

/// The options of a query. `order_by` holds (field, direction) pairs in the order requested.
#[derive(Debug, Clone, PartialEq)]
pub struct QueryOptions {
    pub order_by: Option<Vec<(String, String)>>,
    pub limit: Option<String>,
    pub offset: Option<String>,
    pub num_of_rows: Option<usize>,
    pub includes: Option<ParsedInclude>,
    pub group_by: Option<Vec<String>>,
}

/// What a statement does; it fixes the clauses and the SQL verb.
#[derive(Debug, Clone, Copy, PartialEq, Eq, Structural)]
pub enum ParsedOperation {
    FindFirst,
    FindMany,
    UpdateOne,
    UpdateMany,
    DeleteOne,
    DeleteMany,
    InsertOne,
    InsertMany,
    Count,
    Average,
}

/// A query together with the operation to perform on it.
#[derive(Debug, Clone, PartialEq)]
pub struct ParsedStatement {
    pub query: ParsedQuery,
    pub operation: ParsedOperation,
}

} // verus!
