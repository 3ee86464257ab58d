//! The option assembler: ORDER BY, LIMIT, OFFSET and GROUP BY, in that order.
use vstd::prelude::*;
use vstd::string::*;
use crate::builder::error::BuilderError;
use crate::builder::fields::text_result;
use crate::parser::parsed::QueryOptions;
use crate::parser::utils::{camel_to_snake_case, snake_of};
use crate::text::{join, push_joined, views};

verus! {

/// The uppercase mapping of a text, character by character, as Unicode defines it.
pub uninterp spec fn uppercase_of(s: Seq<char>) -> Seq<char>;

/// Relies on `str::to_uppercase`, which maps each character to its Unicode uppercase form.
#[verifier::external_body]
fn uppercase(s: &str) -> (r: String)
    ensures
        r@ == uppercase_of(s@),
{
    s.to_uppercase()
}

/// One ordering term as written: field, a space, direction.
pub open spec fn term_sql(term: (String, String)) -> Seq<char> {
    term.0@ + " "@ + term.1@
}

/// One requested ordering: the field in snake case and the direction in upper case.
pub open spec fn order_term(order: (String, String)) -> Seq<char> {
    snake_of(order.0@) + " "@ + uppercase_of(order.1@)
}

/// `ORDER BY` and the terms, separated by commas alone.
pub open spec fn order_by_sql(order_by: Seq<(String, String)>) -> Seq<char> {
    "ORDER BY "@ + join(order_by.map_values(|o: (String, String)| order_term(o)), ","@)
}

/// ` GROUP BY a, b`; nothing for an empty list.
pub open spec fn group_by_sql(group_by: Seq<String>) -> Seq<char> {
    if group_by.len() == 0 {
        Seq::empty()
    } else {
        " GROUP BY "@ + join(views(group_by), ", "@)
    }
}

/// The options fragment: each option that is present, in the fixed order, laid end to end.
pub open spec fn options_sql(options: QueryOptions) -> Seq<char> {
    (match options.order_by {
        Some(o) => order_by_sql(o@),
        None => Seq::empty(),
    }) + (match options.limit {
        Some(l) => " LIMIT "@ + l@,
        None => Seq::empty(),
    }) + (match options.offset {
        Some(o) => " OFFSET "@ + o@,
        None => Seq::empty(),
    }) + (match options.group_by {
        Some(g) => group_by_sql(g@),
        None => Seq::empty(),
    })
}

/// `ORDER BY` followed by terms whose field and direction are already in their final form.
pub fn render_order_by(terms: &Vec<(String, String)>) -> (r: String)
    ensures
        r@ == "ORDER BY "@ + join(terms@.map_values(|t: (String, String)| term_sql(t)), ","@),
{
    let ghost rendered = terms@.map_values(|t: (String, String)| term_sql(t));
    let mut parts: Vec<String> = Vec::new();
    let mut i: usize = 0;
    while i < terms.len()
        invariant
            rendered == terms@.map_values(|t: (String, String)| term_sql(t)),
            i <= terms@.len(),
            parts@.len() == i,
            views(parts@) == rendered.take(i as int),
        decreases terms@.len() - i,
    {
        let (field, direction) = &terms[i];
        let mut part = field.clone();
        part.append(" ");
        part.append(direction.as_str());
        parts.push(part);
        assert(views(parts@) =~= rendered.take(i + 1));
        i = i + 1;
    }
    assert(rendered.take(terms@.len() as int) =~= rendered);
    let mut r = String::new();
    r.append("ORDER BY ");
    push_joined(&mut r, &parts, ",");
    r
}

fn build_order_by(order_by: &Vec<(String, String)>) -> (r: Result<String, BuilderError>)
    ensures
        text_result(r) == Ok::<Seq<char>, BuilderError>(order_by_sql(order_by@)),
{
    let mut terms: Vec<(String, String)> = Vec::new();
    let mut i: usize = 0;
    while i < order_by.len()
        invariant
            i <= order_by@.len(),
            terms@.len() == i,
            forall|j: int|
                0 <= j < i ==> #[trigger] term_sql(terms@[j]) == order_term(order_by@[j]),
        decreases order_by@.len() - i,
    {
        let (field, order) = &order_by[i];
        let snake = camel_to_snake_case(field.as_str());
        let upper = uppercase(order.as_str());
        terms.push((snake, upper));
        assert(term_sql(terms@[i as int]) == order_term(order_by@[i as int]));
        i = i + 1;
    }
    let r = render_order_by(&terms);
    assert(terms@.map_values(|t: (String, String)| term_sql(t)) =~= order_by@.map_values(
        |o: (String, String)| order_term(o),
    ));
    Ok(r)
}

fn build_limit_options(limit: &str) -> (r: Result<String, BuilderError>)
    ensures
        text_result(r) == Ok::<Seq<char>, BuilderError>(" LIMIT "@ + limit@),
{
    let mut r = String::new();
    r.append(" LIMIT ");
    r.append(limit);
    Ok(r)
}

fn build_offset_options(offset: &str) -> (r: Result<String, BuilderError>)
    ensures
        text_result(r) == Ok::<Seq<char>, BuilderError>(" OFFSET "@ + offset@),
{
    let mut r = String::new();
    r.append(" OFFSET ");
    r.append(offset);
    Ok(r)
}

fn build_group_by(group_by: &Vec<String>) -> (r: Result<String, BuilderError>)
    ensures
        text_result(r) == Ok::<Seq<char>, BuilderError>(group_by_sql(group_by@)),
{
    if group_by.len() == 0 {
        return Ok(String::new());
    }
    let mut r = String::new();
    r.append(" GROUP BY ");
    push_joined(&mut r, group_by, ", ");
    Ok(r)
}

/// The options fragment of a query, in the order ORDER BY, LIMIT, OFFSET, GROUP BY.
pub(crate) fn render_options(options: &QueryOptions) -> (r: String)
    ensures
        r@ == options_sql(*options),
{
    let mut options_string = String::new();
    if let Some(order_by) = &options.order_by {
        if let Ok(order_by) = build_order_by(order_by) {
            options_string.append(order_by.as_str());
        }
    }
    if let Some(limit) = &options.limit {
        if let Ok(limit) = build_limit_options(limit.as_str()) {
            options_string.append(limit.as_str());
        }
    }
    if let Some(offset) = &options.offset {
        if let Ok(offset) = build_offset_options(offset.as_str()) {
            options_string.append(offset.as_str());
        }
    }
    if let Some(group_by) = &options.group_by {
        if let Ok(group_by) = build_group_by(group_by) {
            options_string.append(group_by.as_str());
        }
    }
    assert(options_string@ =~= options_sql(*options));
    options_string
}

/// The options fragment of a query; assembling it never fails.
pub fn build_options(options: QueryOptions) -> (r: Result<String, BuilderError>)
    ensures
        text_result(r) == Ok::<Seq<char>, BuilderError>(options_sql(options)),
{
    Ok(render_options(&options))
}

} // verus!
