//! What the execution side needs from the library: connection settings and the cleaning of
//! error messages returned by the database service.
use vstd::prelude::*;
use vstd::string::*;
use crate::text::push_char;

verus! {

/// Where and as whom statements are executed.
#[derive(Debug, Clone, PartialEq)]
pub struct ConnectionOptions {
    pub resource_arn: String,
    pub secret_arn: String,
    pub database: String,
    pub region: String,
}

impl ConnectionOptions {
    pub fn new(resource_arn: String, secret_arn: String, database: String, region: String) -> (r: Self)
        ensures
            r == (ConnectionOptions { resource_arn, secret_arn, database, region }),
    {
        ConnectionOptions { resource_arn, secret_arn, database, region }
    }
}

/// The text with each escaped newline, a backslash followed by `n`, replaced by `;`,
/// scanning from the left.
pub open spec fn newlines_replaced(s: Seq<char>) -> Seq<char>
    decreases s.len(),
{
    if s.len() < 2 {
        s
    } else if s[0] == '\\' && s[1] == 'n' {
        seq![';'] + newlines_replaced(s.subrange(2, s.len() as int))
    } else {
        seq![s[0]] + newlines_replaced(s.drop_first())
    }
}

/// The text without any occurrence of `c`.
pub open spec fn without_char(s: Seq<char>, c: char) -> Seq<char>
    decreases s.len(),
{
    if s.len() == 0 {
        s
    } else if s.last() == c {
        without_char(s.drop_last(), c)
    } else {
        without_char(s.drop_last(), c).push(s.last())
    }
}

/// Whether a character has the Unicode `White_Space` property.
pub open spec fn white_space(c: char) -> bool {
    ('\t' <= c && c <= '\r') || c == ' ' || c == '\u{85}' || c == '\u{a0}' || c == '\u{1680}' || (
    '\u{2000}' <= c && c <= '\u{200a}') || c == '\u{2028}' || c == '\u{2029}' || c == '\u{202f}'
        || c == '\u{205f}' || c == '\u{3000}'
}

/// The text without its leading white space.
pub open spec fn trim_start(s: Seq<char>) -> Seq<char>
    decreases s.len(),
{
    if s.len() > 0 && white_space(s[0]) {
        trim_start(s.drop_first())
    } else {
        s
    }
}

/// The text without its trailing white space.
pub open spec fn trim_end(s: Seq<char>) -> Seq<char>
    decreases s.len(),
{
    if s.len() > 0 && white_space(s.last()) {
        trim_end(s.drop_last())
    } else {
        s
    }
}

/// The text without leading and trailing white space.
pub open spec fn trimmed(s: Seq<char>) -> Seq<char> {
    trim_end(trim_start(s))
}

/// An error message made fit for a caller: escaped newlines become `;`, backslashes and
/// double quotes are dropped, and surrounding white space is trimmed.
pub open spec fn cleaned_message(s: Seq<char>) -> Seq<char> {
    trimmed(without_char(without_char(newlines_replaced(s), '\\'), '"'))
}

fn is_white_space(c: char) -> (r: bool)
    ensures
        r == white_space(c),
{
    ('\t' <= c && c <= '\r') || c == ' ' || c == '\u{85}' || c == '\u{a0}' || c == '\u{1680}' || (
    '\u{2000}' <= c && c <= '\u{200a}') || c == '\u{2028}' || c == '\u{2029}' || c == '\u{202f}'
        || c == '\u{205f}' || c == '\u{3000}'
}

fn chars_of(s: &str) -> (r: Vec<char>)
    ensures
        r@ == s@,
{
    let n = s.unicode_len();
    let mut r: Vec<char> = Vec::new();
    let mut i: usize = 0;
    while i < n
        invariant
            n == s@.len(),
            i <= n,
            r@ == s@.take(i as int),
        decreases n - i,
    {
        r.push(s.get_char(i));
        assert(r@ =~= s@.take(i + 1));
        i = i + 1;
    }
    assert(s@.take(n as int) =~= s@);
    r
}

fn replace_newlines(s: &Vec<char>) -> (r: Vec<char>)
    ensures
        r@ == newlines_replaced(s@),
{
    let n = s.len();
    let mut r: Vec<char> = Vec::new();
    let mut i: usize = 0;
    assert(s@.subrange(0, n as int) =~= s@);
    while i < n
        invariant
            n == s@.len(),
            i <= n,
            r@ + newlines_replaced(s@.subrange(i as int, n as int)) == newlines_replaced(s@),
        decreases n - i,
    {
        let ghost rest = s@.subrange(i as int, n as int);
        if i + 1 < n && s[i] == '\\' && s[i + 1] == 'n' {
            assert(rest.subrange(2, rest.len() as int) =~= s@.subrange(i + 2, n as int));
            r.push(';');
            assert(r@ + newlines_replaced(s@.subrange(i + 2, n as int)) =~= newlines_replaced(s@));
            i = i + 2;
        } else {
            proof {
                if rest.len() >= 2 {
                    assert(rest.drop_first() =~= s@.subrange(i + 1, n as int));
                } else {
                    assert(s@.subrange(i + 1, n as int) =~= Seq::<char>::empty());
                }
            }
            r.push(s[i]);
            assert(r@ + newlines_replaced(s@.subrange(i + 1, n as int)) =~= newlines_replaced(s@));
            i = i + 1;
        }
    }
    assert(r@ =~= r@ + newlines_replaced(s@.subrange(n as int, n as int)));
    r
}

fn remove_char(s: &Vec<char>, c: char) -> (r: Vec<char>)
    ensures
        r@ == without_char(s@, c),
{
    let mut r: Vec<char> = Vec::new();
    let mut i: usize = 0;
    while i < s.len()
        invariant
            i <= s@.len(),
            r@ == without_char(s@.take(i as int), c),
        decreases s@.len() - i,
    {
        assert(s@.take(i + 1).drop_last() =~= s@.take(i as int));
        if s[i] != c {
            r.push(s[i]);
        }
        i = i + 1;
    }
    assert(s@.take(s@.len() as int) =~= s@);
    r
}

fn trim(s: &Vec<char>) -> (r: String)
    ensures
        r@ == trimmed(s@),
{
    let n = s.len();
    let mut start: usize = 0;
    assert(s@.subrange(0, n as int) =~= s@);
    while start < n && is_white_space(s[start])
        invariant
            n == s@.len(),
            start <= n,
            trim_start(s@) == trim_start(s@.subrange(start as int, n as int)),
        decreases n - start,
    {
        assert(s@.subrange(start as int, n as int).drop_first() =~= s@.subrange(start + 1, n as int));
        start = start + 1;
    }
    let mut end: usize = n;
    while end > start && is_white_space(s[end - 1])
        invariant
            n == s@.len(),
            start <= end <= n,
            trim_start(s@) == s@.subrange(start as int, n as int),
            trimmed(s@) == trim_end(s@.subrange(start as int, end as int)),
        decreases end - start,
    {
        assert(s@.subrange(start as int, end as int).drop_last() =~= s@.subrange(start as int, end - 1));
        end = end - 1;
    }
    let mut r = String::new();
    let mut k: usize = start;
    while k < end
        invariant
            start <= k <= end <= n,
            n == s@.len(),
            r@ == s@.subrange(start as int, k as int),
        decreases end - k,
    {
        push_char(&mut r, s[k]);
        assert(r@ =~= s@.subrange(start as int, k + 1));
        k = k + 1;
    }
    r
}

pub fn format_error_message(error_message: &str) -> (r: String)
    ensures
        r@ == cleaned_message(error_message@),
{
    let chars = chars_of(error_message);
    let replaced = replace_newlines(&chars);
    let unslashed = remove_char(&replaced, '\\');
    let unquoted = remove_char(&unslashed, '"');
    trim(&unquoted)
}

} // verus!
