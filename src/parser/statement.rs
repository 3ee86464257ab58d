//! The raw query description as the host hands it over, and its parsing into the model.
use vstd::prelude::*;
use vstd::string::*;
use crate::parser::error::ParserError;
use crate::parser::parsed::{
    FieldName, ParsedArgument, ParsedField, ParsedInclude, ParsedOperation, ParsedQuery,
    ParsedStatement, ParsedValue, QueryOptions,
};
use crate::parser::utils::{camel_to_snake_case, snake_of};
use crate::text::{decimal, i64_to_text, owned, str_eq};

verus! {

/// Joins as the host describes them.
#[derive(Debug, Clone, PartialEq)]
pub struct IncludeField {
    pub joins: Vec<Join>,
}

/// One join: `table.key = joining_table.joining_key`.
#[derive(Debug, Clone, PartialEq)]
pub struct Join {
    pub table: String,
    pub key: String,
    pub joining_table: String,
    pub joining_key: String,
}

/// The tuple that a join becomes.
pub open spec fn join_tuple(j: Join) -> (String, String, String, String) {
    (j.table, j.key, j.joining_table, j.joining_key)
}

impl IncludeField {
    pub fn parse(&self) -> (r: ParsedInclude)
        ensures
            r.joins@ == self.joins@.map_values(|j: Join| join_tuple(j)),
    {
        let mut joins: Vec<(String, String, String, String)> = Vec::new();
        let mut i: usize = 0;
        while i < self.joins.len()
            invariant
                i <= self.joins@.len(),
                joins@ == self.joins@.map_values(|j: Join| join_tuple(j)).take(i as int),
            decreases self.joins@.len() - i,
        {
            let join = &self.joins[i];
            joins.push(
                (
                    join.table.clone(),
                    join.key.clone(),
                    join.joining_table.clone(),
                    join.joining_key.clone(),
                ),
            );
            assert(joins@ =~= self.joins@.map_values(|j: Join| join_tuple(j)).take(i + 1));
            i = i + 1;
        }
        assert(self.joins@.map_values(|j: Join| join_tuple(j)).take(self.joins@.len() as int)
            =~= self.joins@.map_values(|j: Join| join_tuple(j)));
        ParsedInclude { joins }
    }
}

/// A field as the host describes it: a kind by name, and its arguments.
#[derive(Debug, Clone, PartialEq)]
pub struct Field {
    pub name: String,
    pub arguments: Vec<Argument>,
}

/// The field kind that a name stands for; the lookup is exact and case sensitive.
pub open spec fn field_name_of(name: Seq<char>) -> Option<FieldName> {
    if name == "where"@ {
        Some(FieldName::Where)
    } else if name == "select"@ {
        Some(FieldName::Select)
    } else if name == "include"@ {
        Some(FieldName::Include)
    } else if name == "data"@ {
        Some(FieldName::Data)
    } else if name == "set"@ {
        Some(FieldName::Assign)
    } else if name == "return"@ {
        Some(FieldName::Return)
    } else if name == "no_return"@ {
        Some(FieldName::NoReturn)
    } else if name == "aggs"@ {
        Some(FieldName::Aggs)
    } else {
        None
    }
}

impl FieldName {
    /// The field kind of a name; an unknown name is an `InvalidFieldName` error.
    pub fn from_name(s: &str) -> (r: Result<FieldName, ParserError>)
        ensures
            match r {
                Ok(name) => field_name_of(s@) == Some(name),
                Err(e) => field_name_of(s@) is None && (e matches ParserError::InvalidFieldName(m)
                    && m@ == "Invalid field name!"@),
            },
    {
        if str_eq(s, "where") {
            Ok(FieldName::Where)
        } else if str_eq(s, "select") {
            Ok(FieldName::Select)
        } else if str_eq(s, "include") {
            Ok(FieldName::Include)
        } else if str_eq(s, "data") {
            Ok(FieldName::Data)
        } else if str_eq(s, "set") {
            Ok(FieldName::Assign)
        } else if str_eq(s, "return") {
            Ok(FieldName::Return)
        } else if str_eq(s, "no_return") {
            Ok(FieldName::NoReturn)
        } else if str_eq(s, "aggs") {
            Ok(FieldName::Aggs)
        } else {
            Err(ParserError::InvalidFieldName(owned("Invalid field name!")))
        }
    }
}

impl std::str::FromStr for FieldName {
    type Err = ParserError;

    fn from_str(s: &str) -> Result<Self, Self::Err> {
        FieldName::from_name(s)
    }
}

/// Whether every argument has a known value type, or no type at all.
pub open spec fn arguments_valid(arguments: Seq<Argument>) -> bool {
    forall|i: int| 0 <= i < arguments.len() ==> (#[trigger] arguments[i].typed_value()) is Some
}

/// Whether a parsed field is the parsing of a raw one.
pub open spec fn field_parsed(raw: Field, parsed: ParsedField) -> bool {
    &&& field_name_of(raw.name@) == Some(parsed.name)
    &&& parsed.arguments@.len() == raw.arguments@.len()
    &&& forall|i: int|
        0 <= i < raw.arguments@.len() ==> #[trigger] argument_parsed(raw.arguments@[i], parsed.arguments@[i])
}

/// The error of a field whose name is not known.
pub open spec fn is_field_name_error(e: ParserError) -> bool {
    e matches ParserError::InvalidFieldName(m) && m@ == "Invalid field name!"@
}

/// The error of an argument whose type name is not known.
pub open spec fn is_value_type_error(e: ParserError) -> bool {
    e matches ParserError::InvalidValueType(m) && m@ == "Invalid value type!"@
}

/// What parsing a field gives: the parsed field, or the error of an unknown name, or else
/// the error of its first argument with an unknown value type.
pub open spec fn field_parse_result(raw: Field, r: Result<ParsedField, ParserError>) -> bool {
    match r {
        Ok(parsed) => field_parsed(raw, parsed),
        Err(e) => if field_name_of(raw.name@) is None {
            is_field_name_error(e)
        } else {
            !arguments_valid(raw.arguments@) && is_value_type_error(e)
        },
    }
}

impl Field {
    pub fn parse(&self) -> (r: Result<ParsedField, ParserError>)
        ensures
            field_parse_result(*self, r),
    {
        let name = match self.parse_field_name() {
            Ok(name) => name,
            Err(e) => return Err(e),
        };
        let arguments = match self.parse_arguments() {
            Ok(arguments) => arguments,
            Err(e) => return Err(e),
        };
        Ok(ParsedField { name, arguments })
    }

    fn parse_field_name(&self) -> (r: Result<FieldName, ParserError>)
        ensures
            match r {
                Ok(name) => field_name_of(self.name@) == Some(name),
                Err(e) => field_name_of(self.name@) is None && is_field_name_error(e),
            },
    {
        FieldName::from_name(self.name.as_str())
    }

    fn parse_arguments(&self) -> (r: Result<Vec<ParsedArgument>, ParserError>)
        ensures
            match r {
                Ok(parsed) => parsed@.len() == self.arguments@.len() && forall|i: int|
                    0 <= i < parsed@.len() ==> #[trigger] argument_parsed(self.arguments@[i], parsed@[i]),
                Err(e) => !arguments_valid(self.arguments@) && is_value_type_error(e),
            },
    {
        let mut parsed: Vec<ParsedArgument> = Vec::new();
        let mut i: usize = 0;
        while i < self.arguments.len()
            invariant
                i <= self.arguments@.len(),
                parsed@.len() == i,
                forall|j: int| 0 <= j < i ==> #[trigger] argument_parsed(self.arguments@[j], parsed@[j]),
            decreases self.arguments@.len() - i,
        {
            match self.arguments[i].parse() {
                Ok(argument) => parsed.push(argument),
                Err(e) => {
                    assert(self.arguments@[i as int].typed_value() is None);
                    return Err(e);
                },
            }
            i = i + 1;
        }
        Ok(parsed)
    }
}

/// An argument as the host describes it: a name, and a value with the name of its type.
#[derive(Debug, Clone, PartialEq)]
pub struct Argument {
    pub name: String,
    pub value: Option<String>,
    pub value_type: Option<String>,
}

/// Whether a type name is one of the known value types.
pub open spec fn known_value_type(t: Seq<char>) -> bool {
    t == "number"@ || t == "string"@ || t == "boolean"@ || t == "date"@ || t == "datetime"@ || t
        == "custom"@ || t == "null"@
}

fn is_known_value_type(t: &str) -> (r: bool)
    ensures
        r == known_value_type(t@),
{
    str_eq(t, "number") || str_eq(t, "string") || str_eq(t, "boolean") || str_eq(t, "date")
        || str_eq(t, "datetime") || str_eq(t, "custom") || str_eq(t, "null")
}

/// Whether a parsed argument is the parsing of a raw one: its name in snake case, its value
/// tagged with the type named.
pub open spec fn argument_parsed(raw: Argument, parsed: ParsedArgument) -> bool {
    parsed.name@ == snake_of(raw.name@) && raw.typed_value() == Some(parsed.value)
}

impl Argument {
    /// The tagged value, or `None` for a type name that is present but not known, whether or
    /// not a value is there. No type name, or a known type name without a value, gives no value.
    pub open spec fn typed_value(self) -> Option<Option<ParsedValue>> {
        match (self.value, self.value_type) {
            (_, None) => Some(None),
            (None, Some(t)) => if known_value_type(t@) {
                Some(None)
            } else {
                None
            },
            (Some(v), Some(t)) => if t@ == "number"@ {
                Some(Some(ParsedValue::Number(v)))
            } else if t@ == "string"@ {
                Some(Some(ParsedValue::String(v)))
            } else if t@ == "boolean"@ {
                Some(Some(ParsedValue::Boolean(v)))
            } else if t@ == "date"@ {
                Some(Some(ParsedValue::Date(v)))
            } else if t@ == "datetime"@ {
                Some(Some(ParsedValue::DateTime(v)))
            } else if t@ == "custom"@ {
                Some(Some(ParsedValue::Custom(v)))
            } else if t@ == "null"@ {
                Some(Some(ParsedValue::Null))
            } else {
                None
            },
        }
    }

    pub fn parse(&self) -> (r: Result<ParsedArgument, ParserError>)
        ensures
            match r {
                Ok(parsed) => argument_parsed(*self, parsed),
                Err(e) => self.typed_value() is None && (e matches ParserError::InvalidValueType(m)
                    && m@ == "Invalid value type!"@),
            },
    {
        let value = match self.parse_value() {
            Ok(value) => value,
            Err(e) => return Err(e),
        };
        let name = camel_to_snake_case(self.name.as_str());
        Ok(ParsedArgument { name, value })
    }

    fn parse_value(&self) -> (r: Result<Option<ParsedValue>, ParserError>)
        ensures
            match r {
                Ok(value) => self.typed_value() == Some(value),
                Err(e) => self.typed_value() is None && (e matches ParserError::InvalidValueType(m)
                    && m@ == "Invalid value type!"@),
            },
    {
        let value_type = match &self.value_type {
            Some(value_type) => value_type.as_str(),
            None => return Ok(None),
        };
        if !is_known_value_type(value_type) {
            return Err(ParserError::InvalidValueType(owned("Invalid value type!")));
        }
        let value = match &self.value {
            Some(value) => value,
            None => return Ok(None),
        };
        if str_eq(value_type, "number") {
            Ok(Some(ParsedValue::Number(value.clone())))
        } else if str_eq(value_type, "string") {
            Ok(Some(ParsedValue::String(value.clone())))
        } else if str_eq(value_type, "boolean") {
            Ok(Some(ParsedValue::Boolean(value.clone())))
        } else if str_eq(value_type, "date") {
            Ok(Some(ParsedValue::Date(value.clone())))
        } else if str_eq(value_type, "datetime") {
            Ok(Some(ParsedValue::DateTime(value.clone())))
        } else if str_eq(value_type, "custom") {
            Ok(Some(ParsedValue::Custom(value.clone())))
        } else if str_eq(value_type, "null") {
            Ok(Some(ParsedValue::Null))
        } else {
            Err(ParserError::InvalidValueType(owned("Invalid value type!")))
        }
    }
}

/// A requested ordering: a field and a direction.
#[derive(Debug, Clone, PartialEq)]
pub struct OrderBy {
    pub field: String,
    pub order: Order,
}

/// Whether parsed ordering pairs are the parsing of raw orderings, kept in the order given.
pub open spec fn order_by_parsed(raw: Seq<OrderBy>, parsed: Seq<(String, String)>) -> bool {
    &&& parsed.len() == raw.len()
    &&& forall|i: int|
        0 <= i < raw.len() ==> (#[trigger] parsed[i]).0 == raw[i].field && parsed[i].1@ == raw[i].order.text()
}

impl OrderBy {
    /// The (field, direction) pairs, in the order given.
    pub fn parse(order_by: Option<Vec<OrderBy>>) -> (r: Option<Vec<(String, String)>>)
        ensures
            match (order_by, r) {
                (Some(raw), Some(parsed)) => order_by_parsed(raw@, parsed@),
                (None, None) => true,
                _ => false,
            },
    {
        match order_by {
            None => None,
            Some(raw) => {
                let mut parsed: Vec<(String, String)> = Vec::new();
                let mut i: usize = 0;
                while i < raw.len()
                    invariant
                        i <= raw@.len(),
                        parsed@.len() == i,
                        forall|j: int|
                            0 <= j < i ==> (#[trigger] parsed@[j]).0 == raw@[j].field && parsed@[j].1@
                                == raw@[j].order.text(),
                    decreases raw@.len() - i,
                {
                    let direction = owned(raw[i].order.parse());
                    parsed.push((raw[i].field.clone(), direction));
                    i = i + 1;
                }
                Some(parsed)
            },
        }
    }
}

/// A direction of ordering.
#[derive(Debug, Clone, Copy, PartialEq, Eq, Structural)]
pub enum Order {
    Asc,
    Desc,
}

impl Order {
    /// The direction as written in a query description.
    pub open spec fn text(self) -> Seq<char> {
        match self {
            Order::Asc => "asc"@,
            Order::Desc => "desc"@,
        }
    }

    pub fn parse(&self) -> (r: &str)
        ensures
            r@ == self.text(),
    {
        match self {
            Order::Asc => "asc",
            Order::Desc => "desc",
        }
    }
}

/// The options as the host describes them.
#[derive(Debug, Clone, PartialEq)]
pub struct Options {
    pub order_by: Option<Vec<OrderBy>>,
    pub limit: Option<i64>,
    pub offset: Option<i64>,
    pub num_of_rows: Option<i64>,
    pub includes: Option<IncludeField>,
    pub group_by: Option<Vec<String>>,
}

/// Whether an optional text is the decimal form of an optional count.
pub open spec fn count_parsed(raw: Option<i64>, parsed: Option<String>) -> bool {
    match (raw, parsed) {
        (Some(n), Some(t)) => t@ == decimal(n as int),
        (None, None) => true,
        _ => false,
    }
}

/// Whether parsed options are the parsing of raw ones: orderings kept in order, counts as
/// decimal text, the row count taken as a `usize`, joins as tuples, grouping unchanged.
pub open spec fn options_parsed(raw: Options, parsed: QueryOptions) -> bool {
    &&& match (raw.order_by, parsed.order_by) {
        (Some(r), Some(p)) => order_by_parsed(r@, p@),
        (None, None) => true,
        _ => false,
    }
    &&& count_parsed(raw.limit, parsed.limit)
    &&& count_parsed(raw.offset, parsed.offset)
    &&& parsed.num_of_rows == match raw.num_of_rows {
        Some(n) => Some(n as usize),
        None => None::<usize>,
    }
    &&& match (raw.includes, parsed.includes) {
        (Some(r), Some(p)) => p.joins@ == r.joins@.map_values(|j: Join| join_tuple(j)),
        (None, None) => true,
        _ => false,
    }
    &&& match (raw.group_by, parsed.group_by) {
        (Some(r), Some(p)) => p@ == r@,
        (None, None) => true,
        _ => false,
    }
}

fn copy_order_by(order_by: &Option<Vec<OrderBy>>) -> (r: Option<Vec<OrderBy>>)
    ensures
        match (*order_by, r) {
            (Some(a), Some(b)) => b@ == a@,
            (None, None) => true,
            _ => false,
        },
{
    match order_by {
        None => None,
        Some(v) => {
            let mut copy: Vec<OrderBy> = Vec::new();
            let mut i: usize = 0;
            while i < v.len()
                invariant
                    i <= v@.len(),
                    copy@ == v@.take(i as int),
                decreases v@.len() - i,
            {
                copy.push(OrderBy { field: v[i].field.clone(), order: v[i].order });
                assert(copy@ =~= v@.take(i + 1));
                i = i + 1;
            }
            assert(v@.take(v@.len() as int) =~= v@);
            Some(copy)
        },
    }
}

fn copy_strings(v: &Vec<String>) -> (r: Vec<String>)
    ensures
        r@ == v@,
{
    let mut copy: Vec<String> = Vec::new();
    let mut i: usize = 0;
    while i < v.len()
        invariant
            i <= v@.len(),
            copy@ == v@.take(i as int),
        decreases v@.len() - i,
    {
        copy.push(v[i].clone());
        assert(copy@ =~= v@.take(i + 1));
        i = i + 1;
    }
    assert(v@.take(v@.len() as int) =~= v@);
    copy
}

impl Options {
    /// The parsed options; parsing options never fails.
    pub fn parse(&self) -> (r: Result<QueryOptions, ParserError>)
        ensures
            r matches Ok(parsed) && options_parsed(*self, parsed),
    {
        let limit = match self.limit {
            Some(n) => Some(i64_to_text(n)),
            None => None,
        };
        let offset = match self.offset {
            Some(n) => Some(i64_to_text(n)),
            None => None,
        };
        let num_of_rows = match self.num_of_rows {
            Some(n) => Some(n as usize),
            None => None,
        };
        let order_by = OrderBy::parse(copy_order_by(&self.order_by));
        let includes = match &self.includes {
            Some(joins) => Some(joins.parse()),
            None => None,
        };
        let group_by = match &self.group_by {
            Some(g) => Some(copy_strings(g)),
            None => None,
        };
        Ok(QueryOptions { order_by, limit, offset, num_of_rows, includes, group_by })
    }
}

/// What a statement is to do, and on which table of which schema.
#[derive(Debug, Clone, PartialEq)]
pub struct Metadata {
    pub command: String,
    pub table: String,
    pub schema: String,
}

/// A whole query description as the host hands it over.
#[derive(Debug, Clone, PartialEq)]
pub struct Statement {
    pub metadata: Metadata,
    pub fields: Vec<Field>,
    pub options: Options,
}

/// The lowercase mapping of a text, as Unicode defines it.
pub uninterp spec fn lowercase_of(s: Seq<char>) -> Seq<char>;

/// Relies on `str::to_lowercase`, which maps each character to its Unicode lowercase form.
#[verifier::external_body]
fn lowercase(s: &str) -> (r: String)
    ensures
        r@ == lowercase_of(s@),
{
    s.to_lowercase()
}

/// The operation that a lowercase command names.
pub open spec fn operation_of(name: Seq<char>) -> Option<ParsedOperation> {
    if name == "findfirst"@ {
        Some(ParsedOperation::FindFirst)
    } else if name == "findmany"@ {
        Some(ParsedOperation::FindMany)
    } else if name == "updateone"@ {
        Some(ParsedOperation::UpdateOne)
    } else if name == "updatemany"@ {
        Some(ParsedOperation::UpdateMany)
    } else if name == "deleteone"@ {
        Some(ParsedOperation::DeleteOne)
    } else if name == "deletemany"@ {
        Some(ParsedOperation::DeleteMany)
    } else if name == "insertone"@ {
        Some(ParsedOperation::InsertOne)
    } else if name == "insertmany"@ {
        Some(ParsedOperation::InsertMany)
    } else if name == "count"@ {
        Some(ParsedOperation::Count)
    } else if name == "average"@ {
        Some(ParsedOperation::Average)
    } else {
        None
    }
}

/// What looking up an operation name gives: the operation, or an `InvalidOperation` error.
pub open spec fn operation_result(name: Seq<char>, r: Result<ParsedOperation, ParserError>) -> bool {
    match r {
        Ok(operation) => operation_of(name) == Some(operation),
        Err(e) => operation_of(name) is None && (e matches ParserError::InvalidOperation(m) && m@
            == "Invalid operation!"@),
    }
}

/// The operation that an already lowercased command names.
pub fn operation_from_name(name: &str) -> (r: Result<ParsedOperation, ParserError>)
    ensures
        operation_result(name@, r),
{
    if str_eq(name, "findfirst") {
        Ok(ParsedOperation::FindFirst)
    } else if str_eq(name, "findmany") {
        Ok(ParsedOperation::FindMany)
    } else if str_eq(name, "updateone") {
        Ok(ParsedOperation::UpdateOne)
    } else if str_eq(name, "updatemany") {
        Ok(ParsedOperation::UpdateMany)
    } else if str_eq(name, "deleteone") {
        Ok(ParsedOperation::DeleteOne)
    } else if str_eq(name, "deletemany") {
        Ok(ParsedOperation::DeleteMany)
    } else if str_eq(name, "insertone") {
        Ok(ParsedOperation::InsertOne)
    } else if str_eq(name, "insertmany") {
        Ok(ParsedOperation::InsertMany)
    } else if str_eq(name, "count") {
        Ok(ParsedOperation::Count)
    } else if str_eq(name, "average") {
        Ok(ParsedOperation::Average)
    } else {
        Err(ParserError::InvalidOperation(owned("Invalid operation!")))
    }
}

/// The operation that a command names, its case ignored.
pub fn create_operation(metadata: Metadata) -> (r: Result<ParsedOperation, ParserError>)
    ensures
        operation_result(lowercase_of(metadata.command@), r),
{
    let command = lowercase(metadata.command.as_str());
    operation_from_name(command.as_str())
}

/// Whether every field has a known name and arguments of known value types.
pub open spec fn fields_valid(fields: Seq<Field>) -> bool {
    forall|i: int|
        0 <= i < fields.len() ==> field_name_of((#[trigger] fields[i]).name@) is Some && arguments_valid(
            fields[i].arguments@,
        )
}

/// What parsing a query gives: the parsed query, or the error of the first field that fails.
pub open spec fn query_result(metadata: Metadata, fields: Seq<Field>, options: Options, r: Result<ParsedQuery, ParserError>) -> bool {
    match r {
        Ok(q) => {
            &&& q.table == metadata.table
            &&& q.schema == metadata.schema
            &&& q.fields@.len() == fields.len()
            &&& forall|i: int| 0 <= i < fields.len() ==> #[trigger] field_parsed(fields[i], q.fields@[i])
            &&& options_parsed(options, q.options)
        },
        Err(e) => exists|i: int|
            0 <= i < fields.len() && (forall|j: int| 0 <= j < i ==> #[trigger] field_parse_ok(fields[j]))
                && #[trigger] field_parse_result(fields[i], Err(e)),
    }
}

/// A field that parsed had a known name and arguments of known value types.
proof fn lemma_parsed_field_ok(raw: Field, parsed: ParsedField)
    requires
        field_parsed(raw, parsed),
    ensures
        field_parse_ok(raw),
{
    assert forall|k: int| 0 <= k < raw.arguments@.len() implies (#[trigger] raw.arguments@[k].typed_value()) is Some by {
        assert(argument_parsed(raw.arguments@[k], parsed.arguments@[k]));
    }
}

/// Whether a raw field parses.
pub open spec fn field_parse_ok(raw: Field) -> bool {
    field_name_of(raw.name@) is Some && arguments_valid(raw.arguments@)
}

pub fn create_query(metadata: Metadata, fields: Vec<Field>, options: Options) -> (r: Result<ParsedQuery, ParserError>)
    ensures
        query_result(metadata, fields@, options, r),
        r is Ok <==> (forall|i: int| 0 <= i < fields@.len() ==> #[trigger] field_parse_ok(fields@[i])),
{
    let options = match options.parse() {
        Ok(options) => options,
        Err(e) => return Err(e),
    };
    let mut parsed: Vec<ParsedField> = Vec::new();
    let mut i: usize = 0;
    while i < fields.len()
        invariant
            i <= fields@.len(),
            parsed@.len() == i,
            forall|j: int| 0 <= j < i ==> #[trigger] field_parsed(fields@[j], parsed@[j]),
            forall|j: int| 0 <= j < i ==> #[trigger] field_parse_ok(fields@[j]),
        decreases fields@.len() - i,
    {
        match fields[i].parse() {
            Ok(field) => {
                proof {
                    lemma_parsed_field_ok(fields@[i as int], field);
                }
                parsed.push(field);
            },
            Err(e) => {
                assert(!field_parse_ok(fields@[i as int]));
                return Err(e);
            },
        }
        i = i + 1;
    }
    let Metadata { command: _, table, schema } = metadata;
    Ok(ParsedQuery { table, schema, fields: parsed, options })
}

/// What parsing a whole description gives: an `InvalidOperation` error when the command names
/// no operation, whatever the rest holds; else the error of the query, or the statement.
pub open spec fn statement_result(metadata: Metadata, fields: Seq<Field>, options: Options, r: Result<ParsedStatement, ParserError>) -> bool {
    match operation_of(lowercase_of(metadata.command@)) {
        None => r matches Err(e) && operation_result(lowercase_of(metadata.command@), Err(e)),
        Some(op) => match r {
            Ok(s) => s.operation == op && query_result(metadata, fields, options, Ok(s.query)),
            Err(e) => query_result(metadata, fields, options, Err(e)),
        },
    }
}

pub fn create_statement(metadata: Metadata, fields: Vec<Field>, options: Options) -> (r: Result<ParsedStatement, ParserError>)
    ensures
        statement_result(metadata, fields@, options, r),
        r is Ok <==> (operation_of(lowercase_of(metadata.command@)) is Some && forall|i: int|
            0 <= i < fields@.len() ==> #[trigger] field_parse_ok(fields@[i])),
{
    let command = Metadata {
        command: metadata.command.clone(),
        table: String::new(),
        schema: String::new(),
    };
    let operation = match create_operation(command) {
        Ok(operation) => operation,
        Err(e) => return Err(e),
    };
    let query = match create_query(metadata, fields, options) {
        Ok(query) => query,
        Err(e) => return Err(e),
    };
    Ok(ParsedStatement { query, operation })
}

/// A command that names no operation makes parsing fail with `InvalidOperation`, whatever the
/// fields and options hold; no statement, and so no SQL, comes of it.
pub proof fn lemma_unknown_operation(metadata: Metadata, fields: Seq<Field>, options: Options)
    requires
        operation_of(lowercase_of(metadata.command@)) is None,
    ensures
        forall|r: Result<ParsedStatement, ParserError>|
            #[trigger] statement_result(metadata, fields, options, r) ==> r matches Err(
                ParserError::InvalidOperation(_),
            ),
{
}

} // verus!
