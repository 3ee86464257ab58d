//! Clause builders: each renders one field of a query as an SQL clause.
use vstd::prelude::*;
use vstd::string::*;
use crate::builder::arguments::{self, predicate_sql, value_sql};
use crate::builder::error::BuilderError;
use crate::constants::INVALID_STATEMENT;
use crate::parser::parsed::{ParsedArgument, ParsedField, ParsedInclude};
use crate::text::{join, push_joined, views};

verus! {

/// A result with its text seen as characters.
pub open spec fn text_result(r: Result<String, BuilderError>) -> Result<Seq<char>, BuilderError> {
    match r {
        Ok(s) => Ok(s@),
        Err(e) => Err(e),
    }
}

/// The error of a clause whose arguments do not make a statement.
pub open spec fn invalid_statement() -> BuilderError {
    BuilderError::InvalidStatement(INVALID_STATEMENT)
}

pub open spec fn arg_names(args: Seq<ParsedArgument>) -> Seq<Seq<char>> {
    args.map_values(|a: ParsedArgument| a.name@)
}

pub open spec fn arg_values(args: Seq<ParsedArgument>) -> Seq<Seq<char>> {
    args.map_values(|a: ParsedArgument| value_sql(a.value))
}

pub open spec fn arg_predicates(args: Seq<ParsedArgument>) -> Seq<Seq<char>> {
    args.map_values(|a: ParsedArgument| predicate_sql(a))
}

/// An argument as an assignment `name = value`.
pub open spec fn assignment_sql(a: ParsedArgument) -> Seq<char> {
    a.name@ + " = "@ + value_sql(a.value)
}

pub open spec fn arg_assignments(args: Seq<ParsedArgument>) -> Seq<Seq<char>> {
    args.map_values(|a: ParsedArgument| assignment_sql(a))
}

/// `SELECT a, b FROM`, from the argument names; no argument is an error.
pub open spec fn select_clause(field: ParsedField) -> Result<Seq<char>, BuilderError> {
    if field.arguments@.len() == 0 {
        Err(invalid_statement())
    } else {
        Ok("SELECT "@ + join(arg_names(field.arguments@), ", "@) + " FROM"@)
    }
}

/// `WHERE p AND q`, one predicate per argument; no argument is an error.
pub open spec fn where_clause(field: ParsedField) -> Result<Seq<char>, BuilderError> {
    if field.arguments@.len() == 0 {
        Err(invalid_statement())
    } else {
        Ok("WHERE "@ + join(arg_predicates(field.arguments@), " AND "@))
    }
}

/// `SET a = 1, b = 2`, one assignment per argument; no argument is an error.
pub open spec fn set_clause(field: ParsedField) -> Result<Seq<char>, BuilderError> {
    if field.arguments@.len() == 0 {
        Err(invalid_statement())
    } else {
        Ok("SET "@ + join(arg_assignments(field.arguments@), ", "@))
    }
}

/// `(a, b) VALUES (1, 2)` for one row; no argument is an error.
pub open spec fn one_data_clause(field: ParsedField) -> Result<Seq<char>, BuilderError> {
    if field.arguments@.len() == 0 {
        Err(invalid_statement())
    } else {
        Ok("("@ + join(arg_names(field.arguments@), ", "@) + ") VALUES ("@ + join(
            arg_values(field.arguments@),
            ", "@,
        ) + ")"@)
    }
}

/// `RETURNING a, b` from the argument names; a field without arguments returns nothing.
pub open spec fn return_clause(field: ParsedField) -> Seq<char> {
    if field.arguments@.len() == 0 {
        Seq::empty()
    } else {
        "RETURNING "@ + join(arg_names(field.arguments@), ", "@)
    }
}

fn argument_names(args: &Vec<ParsedArgument>, count: usize) -> (r: Vec<String>)
    requires
        count <= args@.len(),
    ensures
        views(r@) == arg_names(args@).take(count as int),
{
    let mut r: Vec<String> = Vec::new();
    let mut i: usize = 0;
    while i < count
        invariant
            count <= args@.len(),
            i <= count,
            r@.len() == i,
            views(r@) == arg_names(args@).take(i as int),
        decreases count - i,
    {
        r.push(args[i].name.clone());
        assert(views(r@) =~= arg_names(args@).take(i + 1));
        i = i + 1;
    }
    r
}

fn argument_values(args: &Vec<ParsedArgument>) -> (r: Vec<String>)
    ensures
        views(r@) == arg_values(args@),
{
    let mut r: Vec<String> = Vec::new();
    let mut i: usize = 0;
    while i < args.len()
        invariant
            i <= args@.len(),
            r@.len() == i,
            views(r@) == arg_values(args@).take(i as int),
        decreases args@.len() - i,
    {
        r.push(arguments::parse_value(&args[i].value));
        assert(views(r@) =~= arg_values(args@).take(i + 1));
        i = i + 1;
    }
    assert(arg_values(args@).take(args@.len() as int) =~= arg_values(args@));
    r
}

fn argument_predicates(args: &Vec<ParsedArgument>) -> (r: Vec<String>)
    ensures
        views(r@) == arg_predicates(args@),
{
    let mut r: Vec<String> = Vec::new();
    let mut i: usize = 0;
    while i < args.len()
        invariant
            i <= args@.len(),
            r@.len() == i,
            views(r@) == arg_predicates(args@).take(i as int),
        decreases args@.len() - i,
    {
        let predicate = match arguments::build_where(&args[i]) {
            Ok(p) => p,
            Err(_) => String::new(),
        };
        r.push(predicate);
        assert(views(r@) =~= arg_predicates(args@).take(i + 1));
        i = i + 1;
    }
    assert(arg_predicates(args@).take(args@.len() as int) =~= arg_predicates(args@));
    r
}

fn argument_assignments(args: &Vec<ParsedArgument>) -> (r: Vec<String>)
    ensures
        views(r@) == arg_assignments(args@),
{
    let mut r: Vec<String> = Vec::new();
    let mut i: usize = 0;
    while i < args.len()
        invariant
            i <= args@.len(),
            r@.len() == i,
            views(r@) == arg_assignments(args@).take(i as int),
        decreases args@.len() - i,
    {
        let mut assignment = args[i].name.clone();
        assignment.append(" = ");
        let value = arguments::parse_value(&args[i].value);
        assignment.append(value.as_str());
        r.push(assignment);
        assert(views(r@) =~= arg_assignments(args@).take(i + 1));
        i = i + 1;
    }
    assert(arg_assignments(args@).take(args@.len() as int) =~= arg_assignments(args@));
    r
}

pub fn build_select(select_field: &ParsedField) -> (r: Result<String, BuilderError>)
    ensures
        text_result(r) == select_clause(*select_field),
{
    let args = &select_field.arguments;
    if args.len() == 0 {
        return Err(BuilderError::InvalidStatement(INVALID_STATEMENT));
    }
    let names = argument_names(args, args.len());
    assert(arg_names(args@).take(args@.len() as int) =~= arg_names(args@));
    let mut r = String::new();
    r.append("SELECT ");
    push_joined(&mut r, &names, ", ");
    r.append(" FROM");
    Ok(r)
}

pub fn build_where(where_field: &ParsedField) -> (r: Result<String, BuilderError>)
    ensures
        text_result(r) == where_clause(*where_field),
{
    let args = &where_field.arguments;
    if args.len() == 0 {
        return Err(BuilderError::InvalidStatement(INVALID_STATEMENT));
    }
    let predicates = argument_predicates(args);
    let mut r = String::new();
    r.append("WHERE ");
    push_joined(&mut r, &predicates, " AND ");
    Ok(r)
}

pub fn build_set(set_field: &ParsedField) -> (r: Result<String, BuilderError>)
    ensures
        text_result(r) == set_clause(*set_field),
{
    let args = &set_field.arguments;
    if args.len() == 0 {
        return Err(BuilderError::InvalidStatement(INVALID_STATEMENT));
    }
    let assignments = argument_assignments(args);
    let mut r = String::new();
    r.append("SET ");
    push_joined(&mut r, &assignments, ", ");
    Ok(r)
}

pub fn build_one_data(data_field: &ParsedField) -> (r: Result<String, BuilderError>)
    ensures
        text_result(r) == one_data_clause(*data_field),
{
    let args = &data_field.arguments;
    if args.len() == 0 {
        return Err(BuilderError::InvalidStatement(INVALID_STATEMENT));
    }
    let columns = argument_names(args, args.len());
    assert(arg_names(args@).take(args@.len() as int) =~= arg_names(args@));
    let values = argument_values(args);
    let mut r = String::new();
    r.append("(");
    push_joined(&mut r, &columns, ", ");
    r.append(") VALUES (");
    push_joined(&mut r, &values, ", ");
    r.append(")");
    Ok(r)
}

pub fn build_return(return_field: &ParsedField) -> (r: Result<String, BuilderError>)
    ensures
        text_result(r) == Ok::<Seq<char>, BuilderError>(return_clause(*return_field)),
{
    let args = &return_field.arguments;
    if args.len() == 0 {
        return Ok(String::new());
    }
    let names = argument_names(args, args.len());
    assert(arg_names(args@).take(args@.len() as int) =~= arg_names(args@));
    let mut r = String::new();
    r.append("RETURNING ");
    push_joined(&mut r, &names, ", ");
    Ok(r)
}

/// The first argument of the sequence with the given name.
pub open spec fn first_named(args: Seq<ParsedArgument>, name: Seq<char>) -> Option<ParsedArgument>
    decreases args.len(),
{
    if args.len() == 0 {
        None
    } else if args[0].name@ == name {
        Some(args[0])
    } else {
        first_named(args.drop_first(), name)
    }
}

/// The arguments of row `k` when the flat list holds rows of `width` arguments each.
pub open spec fn row_chunk(args: Seq<ParsedArgument>, width: nat, k: int) -> Seq<ParsedArgument> {
    args.subrange(k * width, k * width + width)
}

/// Whether the row names every column.
pub open spec fn row_complete(row: Seq<ParsedArgument>, columns: Seq<Seq<char>>) -> bool {
    forall|j: int| 0 <= j < columns.len() ==> (#[trigger] first_named(row, columns[j])) is Some
}

/// The value that a row gives a column: that of its first argument of that name.
pub open spec fn row_value(row: Seq<ParsedArgument>, column: Seq<char>) -> Seq<char> {
    match first_named(row, column) {
        Some(a) => value_sql(a.value),
        None => Seq::empty(),
    }
}

/// The values that a row gives the columns, in the order of the columns.
pub open spec fn row_values(row: Seq<ParsedArgument>, columns: Seq<Seq<char>>) -> Seq<Seq<char>> {
    columns.map_values(|c: Seq<char>| row_value(row, c))
}

/// A row as a tuple of values, one per column, in the order of the columns.
pub open spec fn row_tuple(row: Seq<ParsedArgument>, columns: Seq<Seq<char>>) -> Seq<char> {
    "("@ + join(row_values(row, columns), ", "@) + ")"@
}

/// The tuples of all rows, in order.
pub open spec fn row_tuples(args: Seq<ParsedArgument>, width: nat, rows: nat, columns: Seq<Seq<char>>) -> Seq<
    Seq<char>,
> {
    Seq::new(rows, |k: int| row_tuple(row_chunk(args, width, k), columns))
}

/// Several rows of one insert. The flat argument list holds `rows` consecutive groups of the
/// same width; the names of the first group are the columns, and each row gives each column
/// the value of its first argument of that name. An empty list, no rows, a list that does not
/// split evenly, or a row that lacks a column is an error.
pub open spec fn many_data_clause(field: ParsedField, rows: nat) -> Result<Seq<char>, BuilderError> {
    let args = field.arguments@;
    let width = args.len() / rows;
    let columns = arg_names(args).take(width as int);
    if args.len() == 0 || rows == 0 || args.len() % rows != 0 {
        Err(invalid_statement())
    } else if exists|k: int| 0 <= k < rows && !#[trigger] row_complete(row_chunk(args, width, k), columns) {
        Err(invalid_statement())
    } else {
        Ok("("@ + join(columns, ", "@) + ")\nVALUES\n"@ + join(
            row_tuples(args, width, rows, columns),
            ",\n"@,
        ))
    }
}

/// The position of the first argument named `name` among positions `lo` to `hi`.
fn find_named(args: &Vec<ParsedArgument>, lo: usize, hi: usize, name: &String) -> (r: Option<usize>)
    requires
        lo <= hi <= args@.len(),
    ensures
        match r {
            Some(i) => lo <= i < hi && first_named(args@.subrange(lo as int, hi as int), name@) == Some(
                args@[i as int],
            ),
            None => first_named(args@.subrange(lo as int, hi as int), name@) is None,
        },
{
    let mut i = lo;
    while i < hi
        invariant
            lo <= i <= hi <= args@.len(),
            first_named(args@.subrange(lo as int, hi as int), name@) == first_named(
                args@.subrange(i as int, hi as int),
                name@,
            ),
        decreases hi - i,
    {
        let ghost rest = args@.subrange(i as int, hi as int);
        assert(rest[0] == args@[i as int]);
        if args[i].name == *name {
            return Some(i);
        }
        assert(rest.drop_first() =~= args@.subrange(i + 1, hi as int));
        i = i + 1;
    }
    None
}

/// The tuple of one row, or `None` when the row lacks a column.
fn build_row(args: &Vec<ParsedArgument>, start: usize, width: usize, columns: &Vec<String>) -> (r: Option<String>)
    requires
        start + width <= args@.len(),
        columns@.len() == width,
    ensures
        match r {
            Some(t) => row_complete(args@.subrange(start as int, start + width), views(columns@))
                && t@ == row_tuple(args@.subrange(start as int, start + width), views(columns@)),
            None => !row_complete(args@.subrange(start as int, start + width), views(columns@)),
        },
{
    let ghost row = args@.subrange(start as int, start + width);
    let ghost cols = views(columns@);
    let total = args.len();
    assert(total == args@.len());
    let end = start + width;
    let mut values: Vec<String> = Vec::new();
    let mut j: usize = 0;
    while j < width
        invariant
            start + width <= args@.len(),
            columns@.len() == width,
            row.len() == width,
            end == start + width,
            row == args@.subrange(start as int, start + width),
            cols == views(columns@),
            j <= width,
            values@.len() == j,
            forall|jj: int| 0 <= jj < j ==> (#[trigger] first_named(row, cols[jj])) is Some,
            views(values@) == row_values(row, cols).take(j as int),
        decreases width - j,
    {
        match find_named(args, start, end, &columns[j]) {
            Some(idx) => {
                assert(cols[j as int] == columns@[j as int]@);
                let value = arguments::parse_value(&args[idx].value);
                assert(value@ == row_value(row, cols[j as int]));
                values.push(value);
                assert(views(values@)[j as int] == value@);
                assert(views(values@) =~= row_values(row, cols).take(j + 1));
            },
            None => {
                assert(cols[j as int] == columns@[j as int]@);
                assert(first_named(row, cols[j as int]) is None);
                return None;
            },
        }
        j = j + 1;
    }
    assert(row_values(row, cols).take(width as int) =~= row_values(row, cols));
    let mut t = String::new();
    t.append("(");
    push_joined(&mut t, &values, ", ");
    t.append(")");
    Some(t)
}

pub fn build_many_data(data_field: &ParsedField, num_rows: usize) -> (r: Result<String, BuilderError>)
    ensures
        text_result(r) == many_data_clause(*data_field, num_rows as nat),
{
    let args = &data_field.arguments;
    let n = args.len();
    if n == 0 || num_rows == 0 || n % num_rows != 0 {
        return Err(BuilderError::InvalidStatement(INVALID_STATEMENT));
    }
    let width = n / num_rows;
    let ghost w = width as nat;
    assert(n == num_rows * width) by (nonlinear_arith)
        requires
            n % num_rows == 0,
            width == n / num_rows,
            num_rows > 0,
    ;
    assert(width <= n) by (nonlinear_arith)
        requires
            width == n / num_rows,
            num_rows > 0,
    ;
    let columns = argument_names(args, width);
    let ghost cols = views(columns@);
    let mut rows: Vec<String> = Vec::new();
    let mut k: usize = 0;
    let mut start: usize = 0;
    while k < num_rows
        invariant
            args@ == data_field.arguments@,
            n == args@.len(),
            n == num_rows * width,
            n > 0,
            num_rows > 0,
            n % num_rows == 0,
            width == n / num_rows,
            w == width,
            cols == views(columns@),
            cols == arg_names(args@).take(width as int),
            columns@.len() == width,
            k <= num_rows,
            start == k * width,
            rows@.len() == k,
            forall|kk: int| 0 <= kk < k ==> #[trigger] row_complete(row_chunk(args@, w, kk), cols),
            views(rows@) == row_tuples(args@, w, num_rows as nat, cols).take(k as int),
        decreases num_rows - k,
    {
        assert(start + width <= n) by (nonlinear_arith)
            requires
                start == k * width,
                k < num_rows,
                n == num_rows * width,
        ;
        assert(row_chunk(args@, w, k as int) == args@.subrange(start as int, start + width));
        match build_row(args, start, width, &columns) {
            Some(t) => {
                let ghost tv = t@;
                rows.push(t);
                assert(views(rows@)[k as int] == tv);
                assert(views(rows@) =~= row_tuples(args@, w, num_rows as nat, cols).take(k + 1));
            },
            None => {
                assert(!row_complete(row_chunk(args@, w, k as int), cols));
                assert(w == args@.len() / (num_rows as nat));
                assert(exists|kk: int|
                    0 <= kk < num_rows && !#[trigger] row_complete(
                        row_chunk(args@, args@.len() / (num_rows as nat), kk),
                        arg_names(args@).take((args@.len() / (num_rows as nat)) as int),
                    ));
                return Err(BuilderError::InvalidStatement(INVALID_STATEMENT));
            },
        }
        assert((k + 1) * width == k * width + width) by (nonlinear_arith);
        start = start + width;
        k = k + 1;
    }
    assert(row_tuples(args@, w, num_rows as nat, cols).take(num_rows as int) =~= row_tuples(
        args@,
        w,
        num_rows as nat,
        cols,
    ));
    let mut r = String::new();
    r.append("(");
    push_joined(&mut r, &columns, ", ");
    r.append(")\nVALUES\n");
    push_joined(&mut r, &rows, ",\n");
    Ok(r)
}

/// The condition of one join: `source.key = joining.key`.
pub open spec fn join_condition(j: (String, String, String, String)) -> Seq<char> {
    j.0@ + "."@ + j.1@ + " = "@ + j.2@ + "."@ + j.3@
}

/// The joined table of one join, within the query's schema.
pub open spec fn join_table(schema: Seq<char>, j: (String, String, String, String)) -> Seq<char> {
    schema + "."@ + j.2@
}

/// `INNER JOIN s.t1, s.t2 ON c1 AND c2`; nothing when there is no join.
pub open spec fn join_clause(joins: ParsedInclude, schema: Seq<char>) -> Seq<char> {
    let js = joins.joins@;
    if js.len() == 0 {
        Seq::empty()
    } else {
        "INNER JOIN "@ + join(js.map_values(|j| join_table(schema, j)), ", "@) + " ON "@ + join(
            js.map_values(|j| join_condition(j)),
            " AND "@,
        )
    }
}

pub fn build_include(parsed_include: &ParsedInclude, schema: &str) -> (r: Result<String, BuilderError>)
    ensures
        text_result(r) == Ok::<Seq<char>, BuilderError>(join_clause(*parsed_include, schema@)),
{
    let js = &parsed_include.joins;
    if js.len() == 0 {
        return Ok(String::new());
    }
    let ghost conditions = js@.map_values(|j| join_condition(j));
    let ghost tables = js@.map_values(|j| join_table(schema@, j));
    let mut join_conditions: Vec<String> = Vec::new();
    let mut join_tables: Vec<String> = Vec::new();
    let mut i: usize = 0;
    while i < js.len()
        invariant
            conditions == js@.map_values(|j| join_condition(j)),
            tables == js@.map_values(|j| join_table(schema@, j)),
            i <= js@.len(),
            join_conditions@.len() == i,
            join_tables@.len() == i,
            views(join_conditions@) == conditions.take(i as int),
            views(join_tables@) == tables.take(i as int),
        decreases js@.len() - i,
    {
        let (source_table, source_key, joining_table, joining_key) = &js[i];
        let mut condition = source_table.clone();
        condition.append(".");
        condition.append(source_key.as_str());
        condition.append(" = ");
        condition.append(joining_table.as_str());
        condition.append(".");
        condition.append(joining_key.as_str());
        join_conditions.push(condition);
        let mut table = crate::text::owned(schema);
        table.append(".");
        table.append(joining_table.as_str());
        join_tables.push(table);
        assert(views(join_conditions@) =~= conditions.take(i + 1));
        assert(views(join_tables@) =~= tables.take(i + 1));
        i = i + 1;
    }
    assert(conditions.take(js@.len() as int) =~= conditions);
    assert(tables.take(js@.len() as int) =~= tables);
    let mut r = String::new();
    r.append("INNER JOIN ");
    push_joined(&mut r, &join_tables, ", ");
    r.append(" ON ");
    push_joined(&mut r, &join_conditions, " AND ");
    Ok(r)
}


} // verus!
