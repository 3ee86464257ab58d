//! The dispatcher: renders a query's clauses in a given order and joins them with spaces.
use vstd::prelude::*;
use vstd::string::*;
use crate::builder::error::BuilderError;
use crate::builder::fields::{
    self, invalid_statement, join_clause, many_data_clause, one_data_clause, return_clause,
    select_clause, set_clause, text_result, where_clause,
};
use crate::builder::options::{options_sql, render_options};
use crate::constants::{INVALID_FIELD, INVALID_STATEMENT, MISSING_SCHEMA, MISSING_TABLE};
use crate::parser::parsed::{first_field, FieldName, ParsedQuery};
use crate::text::{join, join_strings, views};

verus! {

/// `schema.table`; an empty schema or table is an error, the schema checked first.
pub open spec fn from_clause(q: ParsedQuery) -> Result<Seq<char>, BuilderError> {
    if q.schema@.len() == 0 {
        Err(BuilderError::MissingSchema(MISSING_SCHEMA))
    } else if q.table@.len() == 0 {
        Err(BuilderError::MissingTable(MISSING_TABLE))
    } else {
        Ok(q.schema@ + "."@ + q.table@)
    }
}

/// The SELECT head: from the first Select field, or `SELECT * FROM` when there is none.
pub open spec fn select_part(q: ParsedQuery) -> Result<Seq<char>, BuilderError> {
    match first_field(q.fields@, FieldName::Select) {
        Some(f) => select_clause(f),
        None => Ok("SELECT * FROM"@),
    }
}

/// The WHERE clause of the first Where field; nothing when there is none.
pub open spec fn where_part(q: ParsedQuery) -> Result<Seq<char>, BuilderError> {
    match first_field(q.fields@, FieldName::Where) {
        Some(f) => where_clause(f),
        None => Ok(Seq::empty()),
    }
}

/// The SET clause of the first Assign field; nothing when there is none.
pub open spec fn set_part(q: ParsedQuery) -> Result<Seq<char>, BuilderError> {
    match first_field(q.fields@, FieldName::Assign) {
        Some(f) => set_clause(f),
        None => Ok(Seq::empty()),
    }
}

/// The number of rows to insert: the hint, or one when there is none.
pub open spec fn row_count(q: ParsedQuery) -> nat {
    match q.options.num_of_rows {
        Some(n) => n as nat,
        None => 1,
    }
}

/// Several inserted rows: from the first Data field and the row count, both of which must be
/// present (and the field must have arguments).
pub open spec fn many_rows_part(q: ParsedQuery) -> Result<Seq<char>, BuilderError> {
    match (first_field(q.fields@, FieldName::Data), q.options.num_of_rows) {
        (Some(f), Some(n)) => many_data_clause(f, n as nat),
        _ => Err(invalid_statement()),
    }
}

/// The inserted data: several rows when the row count is above one; else one row from the
/// first Data field, or nothing when there is none.
pub open spec fn data_part(q: ParsedQuery) -> Result<Seq<char>, BuilderError> {
    let data = first_field(q.fields@, FieldName::Data);
    if row_count(q) > 1 {
        many_rows_part(q)
    } else {
        match data {
            Some(f) => one_data_clause(f),
            None => Ok(Seq::empty()),
        }
    }
}

/// The RETURNING clause: from the first Return field; else nothing when a NoReturn field is
/// present; else `RETURNING *`.
pub open spec fn return_part(q: ParsedQuery) -> Seq<char> {
    match first_field(q.fields@, FieldName::Return) {
        Some(f) => return_clause(f),
        None => if first_field(q.fields@, FieldName::NoReturn) is Some {
            Seq::empty()
        } else {
            "RETURNING *"@
        },
    }
}

/// The joins of the query's options; nothing when there are none.
pub open spec fn join_part(q: ParsedQuery) -> Seq<char> {
    match q.options.includes {
        Some(i) => join_clause(i, q.schema@),
        None => Seq::empty(),
    }
}

/// The clause of one kind. A kind that no operation orders is an error.
pub open spec fn clause(q: ParsedQuery, kind: FieldName) -> Result<Seq<char>, BuilderError> {
    match kind {
        FieldName::Select => select_part(q),
        FieldName::Include => Ok(join_part(q)),
        FieldName::From => from_clause(q),
        FieldName::Where => where_part(q),
        FieldName::Assign => set_part(q),
        FieldName::Data => data_part(q),
        FieldName::Return => Ok(return_part(q)),
        _ => Err(BuilderError::InvalidFieldName(INVALID_FIELD)),
    }
}

/// The clauses of the given kinds in order, or the error of the first that fails.
pub open spec fn ordered_parts(q: ParsedQuery, order: Seq<FieldName>) -> Result<Seq<Seq<char>>, BuilderError>
    decreases order.len(),
{
    if order.len() == 0 {
        Ok(Seq::empty())
    } else {
        match ordered_parts(q, order.drop_last()) {
            Err(e) => Err(e),
            Ok(parts) => match clause(q, order.last()) {
                Err(e) => Err(e),
                Ok(c) => Ok(parts.push(c)),
            },
        }
    }
}

/// The clauses in order followed by the options fragment, each two separated by one space,
/// empty ones included.
pub open spec fn ordered_sql(q: ParsedQuery, order: Seq<FieldName>) -> Result<Seq<char>, BuilderError> {
    match ordered_parts(q, order) {
        Err(e) => Err(e),
        Ok(parts) => Ok(join(parts.push(options_sql(q.options)), " "@)),
    }
}

/// Renders the clauses of one query in the order set for it.
pub struct QueryBuilder<'a> {
    query: &'a ParsedQuery,
    field_order: Vec<FieldName>,
}

impl<'a> QueryBuilder<'a> {
    /// The query being rendered.
    pub closed spec fn target(&self) -> ParsedQuery {
        *self.query
    }

    /// The order of the clauses.
    pub closed spec fn order(&self) -> Seq<FieldName> {
        self.field_order@
    }

    pub fn new(query: &'a ParsedQuery) -> (r: Self)
        ensures
            r.target() == *query,
            r.order() == Seq::<FieldName>::empty(),
    {
        QueryBuilder { query, field_order: Vec::new() }
    }

    pub fn order_fields(&mut self, field_order: Vec<FieldName>) -> (r: &mut Self)
        ensures
            (*r).target() == old(self).target(),
            (*r).order() == field_order@,
            *final(self) == *final(r),
    {
        self.field_order = field_order;
        self
    }

    fn build_select(&self) -> (r: Result<String, BuilderError>)
        ensures
            text_result(r) == select_part(self.target()),
    {
        match self.query.get_field_by_field_name(FieldName::Select) {
            Some(select_field) => fields::build_select(select_field),
            None => Ok(crate::text::owned("SELECT * FROM")),
        }
    }

    fn build_where(&self) -> (r: Result<String, BuilderError>)
        ensures
            text_result(r) == where_part(self.target()),
    {
        match self.query.get_field_by_field_name(FieldName::Where) {
            Some(where_field) => fields::build_where(where_field),
            None => Ok(String::new()),
        }
    }

    fn build_set(&self) -> (r: Result<String, BuilderError>)
        ensures
            text_result(r) == set_part(self.target()),
    {
        match self.query.get_field_by_field_name(FieldName::Assign) {
            Some(set_field) => fields::build_set(set_field),
            None => Ok(String::new()),
        }
    }

    fn build_data_one(&self) -> (r: Result<String, BuilderError>)
        ensures
            text_result(r) == match first_field(self.target().fields@, FieldName::Data) {
                Some(f) => one_data_clause(f),
                None => Ok(Seq::empty()),
            },
    {
        match self.query.get_field_by_field_name(FieldName::Data) {
            Some(data_field) => fields::build_one_data(data_field),
            None => Ok(String::new()),
        }
    }

    fn build_from(&self) -> (r: Result<String, BuilderError>)
        ensures
            text_result(r) == from_clause(self.target()),
    {
        if self.query.schema.as_str().is_empty() {
            return Err(BuilderError::MissingSchema(MISSING_SCHEMA));
        }
        if self.query.table.as_str().is_empty() {
            return Err(BuilderError::MissingTable(MISSING_TABLE));
        }
        let mut from_clause = self.query.schema.clone();
        from_clause.append(".");
        from_clause.append(self.query.table.as_str());
        Ok(from_clause)
    }

    fn build_options(&self) -> (r: Result<String, BuilderError>)
        ensures
            text_result(r) == Ok::<Seq<char>, BuilderError>(options_sql(self.target().options)),
    {
        Ok(render_options(&self.query.options))
    }

    fn build_return(&self) -> (r: Result<String, BuilderError>)
        ensures
            text_result(r) == Ok::<Seq<char>, BuilderError>(return_part(self.target())),
    {
        match self.query.get_field_by_field_name(FieldName::Return) {
            Some(return_field) => fields::build_return(return_field),
            None => match self.query.get_field_by_field_name(FieldName::NoReturn) {
                Some(_) => Ok(String::new()),
                None => Ok(crate::text::owned("RETURNING *")),
            },
        }
    }

    fn build_data_many(&self) -> (r: Result<String, BuilderError>)
        ensures
            text_result(r) == many_rows_part(self.target()),
    {
        let data_field = match self.query.get_field_by_field_name(FieldName::Data) {
            Some(field) => field,
            None => return Err(BuilderError::InvalidStatement(INVALID_STATEMENT)),
        };
        let num_rows = match self.query.options.num_of_rows {
            Some(num_of_rows) => num_of_rows,
            None => return Err(BuilderError::InvalidStatement(INVALID_STATEMENT)),
        };
        if data_field.arguments.len() == 0 {
            return Err(BuilderError::InvalidStatement(INVALID_STATEMENT));
        }
        fields::build_many_data(data_field, num_rows)
    }

    fn build_data(&self) -> (r: Result<String, BuilderError>)
        ensures
            text_result(r) == data_part(self.target()),
    {
        let num_rows = match self.query.options.num_of_rows {
            Some(n) => n,
            None => 1,
        };
        if num_rows > 1 {
            self.build_data_many()
        } else {
            self.build_data_one()
        }
    }

    fn build_include(&self) -> (r: Result<String, BuilderError>)
        ensures
            text_result(r) == Ok::<Seq<char>, BuilderError>(join_part(self.target())),
    {
        match &self.query.options.includes {
            Some(joins) => fields::build_include(joins, self.query.schema.as_str()),
            None => Ok(String::new()),
        }
    }

    fn build_clause(&self, kind: FieldName) -> (r: Result<String, BuilderError>)
        ensures
            text_result(r) == clause(self.target(), kind),
    {
        match kind {
            FieldName::Select => self.build_select(),
            FieldName::Include => self.build_include(),
            FieldName::From => self.build_from(),
            FieldName::Where => self.build_where(),
            FieldName::Assign => self.build_set(),
            FieldName::Data => self.build_data(),
            FieldName::Return => self.build_return(),
            _ => Err(BuilderError::InvalidFieldName(INVALID_FIELD)),
        }
    }

    /// The clauses in the set order and then the options, joined by single spaces; the
    /// first clause that fails gives the error.
    pub fn build_ordered(&self) -> (r: Result<String, BuilderError>)
        ensures
            text_result(r) == ordered_sql(self.target(), self.order()),
    {
        let ghost order = self.field_order@;
        let ghost q = self.target();
        let mut ordered_fields: Vec<String> = Vec::new();
        let mut i: usize = 0;
        assert(order.take(0) =~= Seq::<FieldName>::empty());
        assert(views(ordered_fields@) =~= Seq::<Seq<char>>::empty());
        while i < self.field_order.len()
            invariant
                order == self.field_order@,
                order == self.order(),
                q == self.target(),
                i <= order.len(),
                ordered_parts(q, order.take(i as int)) == Ok::<Seq<Seq<char>>, BuilderError>(
                    views(ordered_fields@),
                ),
            decreases order.len() - i,
        {
            let ghost before = views(ordered_fields@);
            assert(order.take(i + 1).drop_last() =~= order.take(i as int));
            assert(order.take(i + 1).last() == order[i as int]);
            let part = self.build_clause(self.field_order[i]);
            match part {
                Ok(p) => {
                    ordered_fields.push(p);
                    assert(views(ordered_fields@) =~= before.push(p@));
                },
                Err(e) => {
                    proof {
                        lemma_failed_prefix(q, order, i as int + 1);
                    }
                    return Err(e);
                },
            }
            i = i + 1;
        }
        assert(order.take(order.len() as int) =~= order);
        let ghost parts = views(ordered_fields@);
        let options = render_options(&self.query.options);
        ordered_fields.push(options);
        assert(views(ordered_fields@) =~= parts.push(options_sql(q.options)));
        let r = join_strings(&ordered_fields, " ");
        Ok(r)
    }
}

/// Once a prefix of the order fails, the whole order fails with the same error.
pub proof fn lemma_failed_prefix(q: ParsedQuery, order: Seq<FieldName>, n: int)
    requires
        0 <= n <= order.len(),
        ordered_parts(q, order.take(n)) is Err,
    ensures
        ordered_parts(q, order) == ordered_parts(q, order.take(n)),
    decreases order.len() - n,
{
    if n < order.len() {
        assert(order.take(n + 1).drop_last() =~= order.take(n));
        lemma_failed_prefix(q, order, n + 1);
    } else {
        assert(order.take(n) =~= order);
    }
}

} // verus!
