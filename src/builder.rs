//! Compilation of a parsed statement to SQL text.
pub mod aggregations;
pub mod arguments;
pub mod delete;
pub mod error;
pub mod fields;
pub mod find;
pub mod insert;
pub mod options;
pub mod query_builder;
pub mod update;
pub mod utils;

use vstd::prelude::*;
use vstd::string::*;
use crate::builder::error::BuilderError;
use crate::builder::fields::{invalid_statement, text_result, where_clause};
use crate::builder::options::options_sql;
use crate::builder::query_builder::{
    clause, from_clause, lemma_failed_prefix, ordered_parts, ordered_sql, select_part, QueryBuilder,
};
use crate::constants::{MISSING_SCHEMA, MISSING_TABLE};
use crate::parser::parsed::{
    first_field, FieldName, ParsedField, ParsedOperation, ParsedQuery, ParsedStatement, ParsedValue,
};
use crate::text::join;

verus! {

/// The clause kinds of an operation, in the order they are written.
pub open spec fn operation_order(operation: ParsedOperation) -> Seq<FieldName> {
    match operation {
        ParsedOperation::FindFirst => seq![
            FieldName::Select,
            FieldName::From,
            FieldName::Include,
            FieldName::Where,
        ],
        ParsedOperation::FindMany => seq![FieldName::Select, FieldName::From, FieldName::Where],
        ParsedOperation::DeleteOne | ParsedOperation::DeleteMany => seq![
            FieldName::From,
            FieldName::Where,
            FieldName::Return,
        ],
        ParsedOperation::InsertOne | ParsedOperation::InsertMany => seq![
            FieldName::From,
            FieldName::Data,
            FieldName::Return,
        ],
        ParsedOperation::UpdateOne | ParsedOperation::UpdateMany => seq![
            FieldName::From,
            FieldName::Assign,
            FieldName::Where,
            FieldName::Return,
        ],
        ParsedOperation::Count | ParsedOperation::Average => seq![FieldName::From, FieldName::Where],
    }
}

/// The SQL verb written before an operation's clauses; reads need none, their clauses
/// begin with SELECT.
pub open spec fn operation_prefix(operation: ParsedOperation) -> Seq<char> {
    match operation {
        ParsedOperation::FindFirst | ParsedOperation::FindMany => Seq::empty(),
        ParsedOperation::DeleteOne | ParsedOperation::DeleteMany => "DELETE FROM "@,
        ParsedOperation::InsertOne | ParsedOperation::InsertMany => "INSERT INTO "@,
        ParsedOperation::UpdateOne | ParsedOperation::UpdateMany => "UPDATE "@,
        ParsedOperation::Count => "SELECT COUNT (*) FROM "@,
        ParsedOperation::Average => "SELECT AVG(id) FROM "@,
    }
}

/// A rendered text with a prefix before it; an error stays as it is.
pub open spec fn prefixed(prefix: Seq<char>, r: Result<Seq<char>, BuilderError>) -> Result<Seq<char>, BuilderError> {
    match r {
        Ok(s) => Ok(prefix + s),
        Err(e) => Err(e),
    }
}

/// The SQL of an operation on a query.
pub open spec fn operation_sql(operation: ParsedOperation, query: ParsedQuery) -> Result<Seq<char>, BuilderError> {
    prefixed(operation_prefix(operation), ordered_sql(query, operation_order(operation)))
}

/// The SQL of a statement.
pub open spec fn statement_sql(statement: ParsedStatement) -> Result<Seq<char>, BuilderError> {
    operation_sql(statement.operation, statement.query)
}

/// Renders a query's clauses in the order of `fields`, with `prefix` before them.
pub(crate) fn render(query: &ParsedQuery, fields: Vec<FieldName>, prefix: &str) -> (r: Result<String, BuilderError>)
    ensures
        text_result(r) == prefixed(prefix@, ordered_sql(*query, fields@)),
{
    let mut builder = QueryBuilder::new(query);
    let ordered = builder.order_fields(fields);
    match ordered.build_ordered() {
        Ok(body) => {
            let mut r = crate::text::owned(prefix);
            r.append(body.as_str());
            Ok(r)
        },
        Err(e) => Err(e),
    }
}

pub fn build(statement: &ParsedStatement) -> (r: Result<String, BuilderError>)
    ensures
        text_result(r) == statement_sql(*statement),
{
    match statement.operation {
        ParsedOperation::FindFirst => find::unique(&statement.query),
        ParsedOperation::FindMany => find::many(&statement.query),
        ParsedOperation::DeleteOne => delete::unique(&statement.query),
        ParsedOperation::DeleteMany => delete::many(&statement.query),
        ParsedOperation::InsertOne => insert::one(&statement.query),
        ParsedOperation::UpdateOne => update::one(&statement.query),
        ParsedOperation::UpdateMany => update::many(&statement.query),
        ParsedOperation::InsertMany => insert::many(&statement.query),
        ParsedOperation::Count => aggregations::count(&statement.query),
        ParsedOperation::Average => aggregations::average(&statement.query),
    }
}

/// Whether an operation reads rows; its clauses then begin with the SELECT head.
pub open spec fn is_read(operation: ParsedOperation) -> bool {
    operation is FindFirst || operation is FindMany
}

/// Compiling is a function of the statement alone: any two results that `build` may give for
/// one statement hold the same text, or the same error.
pub proof fn lemma_build_deterministic(statement: ParsedStatement)
    ensures
        forall|first: Result<String, BuilderError>, second: Result<String, BuilderError>|
            text_result(first) == statement_sql(statement) && text_result(second) == statement_sql(
                statement,
            ) ==> #[trigger] text_result(first) == #[trigger] text_result(second),
{
}

/// The clauses of an order whose first kind fails.
proof fn lemma_first_fails(q: ParsedQuery, order: Seq<FieldName>)
    requires
        order.len() >= 1,
        clause(q, order[0]) is Err,
    ensures
        ordered_parts(q, order) == Err::<Seq<Seq<char>>, BuilderError>(clause(q, order[0])->Err_0),
{
    let t1 = order.take(1);
    assert(t1.drop_last() =~= Seq::<FieldName>::empty());
    assert(ordered_parts(q, t1.drop_last()) == Ok::<Seq<Seq<char>>, BuilderError>(Seq::empty()));
    assert(t1.last() == order[0]);
    assert(ordered_parts(q, t1) == Err::<Seq<Seq<char>>, BuilderError>(clause(q, order[0])->Err_0));
    lemma_failed_prefix(q, order, 1);
}

/// The clauses of an order whose first kind succeeds and whose second fails.
proof fn lemma_second_fails(q: ParsedQuery, order: Seq<FieldName>)
    requires
        order.len() >= 2,
        clause(q, order[0]) is Ok,
        clause(q, order[1]) is Err,
    ensures
        ordered_parts(q, order) == Err::<Seq<Seq<char>>, BuilderError>(clause(q, order[1])->Err_0),
{
    let t1 = order.take(1);
    let t2 = order.take(2);
    assert(t1.drop_last() =~= Seq::<FieldName>::empty());
    assert(ordered_parts(q, t1.drop_last()) == Ok::<Seq<Seq<char>>, BuilderError>(Seq::empty()));
    assert(t1.last() == order[0]);
    assert(ordered_parts(q, t1) is Ok);
    assert(t2.drop_last() =~= t1);
    assert(t2.last() == order[1]);
    assert(ordered_parts(q, t2) == Err::<Seq<Seq<char>>, BuilderError>(clause(q, order[1])->Err_0));
    lemma_failed_prefix(q, order, 2);
}

/// An empty schema makes every statement fail with `MissingSchema`, and an empty table, under a
/// schema, with `MissingTable`. For a read the SELECT head comes first, so this holds of reads
/// whose SELECT head renders.
pub proof fn lemma_missing_schema_or_table(statement: ParsedStatement)
    requires
        statement.query.schema@.len() == 0 || statement.query.table@.len() == 0,
        is_read(statement.operation) ==> select_part(statement.query) is Ok,
    ensures
        statement_sql(statement) == Err::<Seq<char>, BuilderError>(
            if statement.query.schema@.len() == 0 {
                BuilderError::MissingSchema(MISSING_SCHEMA)
            } else {
                BuilderError::MissingTable(MISSING_TABLE)
            },
        ),
{
    let q = statement.query;
    let order = operation_order(statement.operation);
    if is_read(statement.operation) {
        assert(order[0] == FieldName::Select);
        assert(order[1] == FieldName::From);
        lemma_second_fails(q, order);
    } else {
        assert(order[0] == FieldName::From);
        lemma_first_fails(q, order);
    }
}

/// A read with a Select field that has no arguments fails with `InvalidStatement`, whatever
/// else the query holds.
pub proof fn lemma_select_without_arguments(operation: ParsedOperation, query: ParsedQuery)
    requires
        is_read(operation),
        first_field(query.fields@, FieldName::Select) matches Some(f) && f.arguments@.len() == 0,
    ensures
        operation_sql(operation, query) == Err::<Seq<char>, BuilderError>(invalid_statement()),
{
    let order = operation_order(operation);
    assert(order[0] == FieldName::Select);
    lemma_first_fails(query, order);
}

/// Four parts joined by a separator.
proof fn lemma_join4(a: Seq<char>, b: Seq<char>, c: Seq<char>, d: Seq<char>, sep: Seq<char>)
    ensures
        join(seq![a, b, c, d], sep) == a + sep + b + sep + c + sep + d,
{
    assert(seq![a].len() == 1);
    assert(join(seq![a], sep) == a);
    assert(seq![a, b].drop_last() =~= seq![a]);
    assert(join(seq![a, b], sep) == a + sep + b);
    assert(seq![a, b, c].drop_last() =~= seq![a, b]);
    assert(join(seq![a, b, c], sep) == a + sep + b + sep + c);
    assert(seq![a, b, c, d].drop_last() =~= seq![a, b, c]);
    assert(join(seq![a, b, c, d], sep) == a + sep + b + sep + c + sep + d);
}

/// The clauses of three kinds, in order, when all of them render.
proof fn lemma_three_parts(q: ParsedQuery, order: Seq<FieldName>)
    requires
        order.len() == 3,
        clause(q, order[0]) is Ok,
        clause(q, order[1]) is Ok,
        clause(q, order[2]) is Ok,
    ensures
        ordered_parts(q, order) == Ok::<Seq<Seq<char>>, BuilderError>(
            seq![clause(q, order[0])->Ok_0, clause(q, order[1])->Ok_0, clause(q, order[2])->Ok_0],
        ),
{
    let c0 = clause(q, order[0])->Ok_0;
    let c1 = clause(q, order[1])->Ok_0;
    let c2 = clause(q, order[2])->Ok_0;
    let t1 = order.take(1);
    let t2 = order.take(2);
    assert(t1.drop_last() =~= Seq::<FieldName>::empty());
    assert(ordered_parts(q, t1.drop_last()) == Ok::<Seq<Seq<char>>, BuilderError>(Seq::empty()));
    assert(t1.last() == order[0]);
    assert(ordered_parts(q, t1) == Ok::<Seq<Seq<char>>, BuilderError>(Seq::empty().push(c0)));
    assert(t2.drop_last() =~= t1);
    assert(t2.last() == order[1]);
    assert(ordered_parts(q, t2) == Ok::<Seq<Seq<char>>, BuilderError>(Seq::empty().push(c0).push(c1)));
    assert(order.drop_last() =~= t2);
    assert(ordered_parts(q, order) == Ok::<Seq<Seq<char>>, BuilderError>(
        Seq::empty().push(c0).push(c1).push(c2),
    ));
    assert(Seq::empty().push(c0).push(c1).push(c2) =~= seq![c0, c1, c2]);
}

/// A many-row read without a Where field: the SELECT head, the table, then the options, with
/// two spaces where the WHERE clause would stand. With no Select field the head is
/// `SELECT * FROM`.
pub proof fn lemma_find_many_without_where(query: ParsedQuery)
    requires
        first_field(query.fields@, FieldName::Where) is None,
        select_part(query) is Ok,
        from_clause(query) is Ok,
    ensures
        operation_sql(ParsedOperation::FindMany, query) == Ok::<Seq<char>, BuilderError>(
            select_part(query)->Ok_0 + " "@ + from_clause(query)->Ok_0 + "  "@ + options_sql(
                query.options,
            ),
        ),
        first_field(query.fields@, FieldName::Select) is None ==> select_part(query)->Ok_0
            == "SELECT * FROM"@,
{
    let order = operation_order(ParsedOperation::FindMany);
    lemma_three_parts(query, order);
    let s = select_part(query)->Ok_0;
    let f = from_clause(query)->Ok_0;
    let o = options_sql(query.options);
    assert(seq![s, f, Seq::<char>::empty()].push(o) =~= seq![s, f, Seq::<char>::empty(), o]);
    lemma_join4(s, f, Seq::empty(), o, " "@);
    reveal_strlit(" ");
    reveal_strlit("  ");
    assert(s + " "@ + f + " "@ + Seq::<char>::empty() + " "@ + o =~= s + " "@ + f + "  "@ + o);
    assert(Seq::<char>::empty() + s =~= s);
}

/// A Where field of one custom argument renders `WHERE name fragment`.
pub proof fn lemma_custom_where(field: ParsedField)
    requires
        field.arguments@.len() == 1,
        field.arguments@[0].value matches Some(ParsedValue::Custom(_)),
    ensures
        where_clause(field) == Ok::<Seq<char>, BuilderError>(
            "WHERE "@ + field.arguments@[0].name@ + " "@ + field.arguments@[0].value->Some_0->Custom_0@,
        ),
{
    let a = field.arguments@[0];
    let p = crate::builder::arguments::predicate_sql(a);
    assert(crate::builder::fields::arg_predicates(field.arguments@) =~= seq![p]);
    assert(join(seq![p], " AND "@) == p);
    assert("WHERE "@ + p =~= "WHERE "@ + a.name@ + " "@ + a.value->Some_0->Custom_0@);
}

/// The clause rules that every operation relies on: the table reference needs a schema and
/// a table; the SELECT head defaults to `SELECT * FROM` and needs an argument when a Select
/// field is given; a missing Where field contributes nothing.
pub proof fn lemma_clause_rules(query: ParsedQuery)
    ensures
        query.schema@.len() == 0 ==> clause(query, FieldName::From) == Err::<Seq<char>, BuilderError>(
            BuilderError::MissingSchema(MISSING_SCHEMA),
        ),
        query.schema@.len() > 0 && query.table@.len() == 0 ==> clause(query, FieldName::From) == Err::<
            Seq<char>,
            BuilderError,
        >(BuilderError::MissingTable(MISSING_TABLE)),
        query.schema@.len() > 0 && query.table@.len() > 0 ==> clause(query, FieldName::From) == Ok::<
            Seq<char>,
            BuilderError,
        >(query.schema@ + "."@ + query.table@),
        first_field(query.fields@, FieldName::Select) is None ==> clause(query, FieldName::Select) == Ok::<
            Seq<char>,
            BuilderError,
        >("SELECT * FROM"@),
        first_field(query.fields@, FieldName::Select) matches Some(f) && f.arguments@.len() == 0 ==> clause(
            query,
            FieldName::Select,
        ) == Err::<Seq<char>, BuilderError>(invalid_statement()),
        first_field(query.fields@, FieldName::Where) is None ==> clause(query, FieldName::Where) == Ok::<
            Seq<char>,
            BuilderError,
        >(Seq::empty()),
{
}

/// The RETURNING clause of a query: `RETURNING *` with neither a Return nor a NoReturn field,
/// and nothing with a NoReturn field and no Return field.
pub proof fn lemma_return_default(query: ParsedQuery)
    requires
        first_field(query.fields@, FieldName::Return) is None,
    ensures
        first_field(query.fields@, FieldName::NoReturn) is None ==> clause(query, FieldName::Return)
            == Ok::<Seq<char>, BuilderError>("RETURNING *"@),
        first_field(query.fields@, FieldName::NoReturn) is Some ==> clause(query, FieldName::Return)
            == Ok::<Seq<char>, BuilderError>(Seq::empty()),
{
}

} // verus!
