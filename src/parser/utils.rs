//! Conversions between camel case and snake case identifiers.
use vstd::prelude::*;
use vstd::string::*;
use crate::text::push_char;

verus! {

/// Whether a character has the Unicode `Uppercase` property.
pub uninterp spec fn char_is_uppercase(c: char) -> bool;

/// Whether a character has the Unicode `Lowercase` property.
pub uninterp spec fn char_is_lowercase(c: char) -> bool;

/// Relies on `char::is_uppercase`, which tells whether `c` has the Unicode `Uppercase` property.
#[verifier::external_body]
fn is_uppercase(c: char) -> (r: bool)
    ensures
        r == char_is_uppercase(c),
{
    c.is_uppercase()
}

/// Relies on `char::is_lowercase`, which tells whether `c` has the Unicode `Lowercase` property.
#[verifier::external_body]
fn is_lowercase(c: char) -> (r: bool)
    ensures
        r == char_is_lowercase(c),
{
    c.is_lowercase()
}

/// `c` with the ASCII letters `A` to `Z` mapped to `a` to `z`; any other character unchanged.
pub open spec fn ascii_lower(c: char) -> char {
    if 'A' <= c && c <= 'Z' {
        ((c as u32) + 32) as char
    } else {
        c
    }
}

/// `c` with the ASCII letters `a` to `z` mapped to `A` to `Z`; any other character unchanged.
pub open spec fn ascii_upper(c: char) -> char {
    if 'a' <= c && c <= 'z' {
        ((c as u32) - 32) as char
    } else {
        c
    }
}

pub fn to_ascii_lower(c: char) -> (r: char)
    ensures
        r == ascii_lower(c),
{
    if 'A' <= c && c <= 'Z' {
        ((c as u8) + 32) as char
    } else {
        c
    }
}

pub fn to_ascii_upper(c: char) -> (r: char)
    ensures
        r == ascii_upper(c),
{
    if 'a' <= c && c <= 'z' {
        ((c as u8) - 32) as char
    } else {
        c
    }
}

/// What the character at `i` becomes in snake case. An uppercase character is lowered
/// (ASCII only), with an underscore before it when a lowercase character follows it.
pub open spec fn snake_piece(s: Seq<char>, i: int) -> Seq<char> {
    let c = s[i];
    if char_is_uppercase(c) {
        if i + 1 < s.len() && char_is_lowercase(s[i + 1]) {
            seq!['_', ascii_lower(c)]
        } else {
            seq![ascii_lower(c)]
        }
    } else {
        seq![c]
    }
}

/// The snake case text of the first `n` characters of `s`.
pub open spec fn snake_prefix(s: Seq<char>, n: nat) -> Seq<char>
    decreases n,
{
    if n == 0 {
        Seq::empty()
    } else {
        snake_prefix(s, (n - 1) as nat) + snake_piece(s, n - 1)
    }
}

/// The snake case form of a camel case identifier (`firstName` becomes `first_name`).
pub open spec fn snake_of(s: Seq<char>) -> Seq<char> {
    snake_prefix(s, s.len())
}

/// After the first `n` characters of `s`: the camel case text so far, and whether the
/// next character is to be raised.
pub open spec fn camel_state(s: Seq<char>, n: nat) -> (Seq<char>, bool)
    decreases n,
{
    if n == 0 {
        (Seq::empty(), false)
    } else {
        let (out, raise) = camel_state(s, (n - 1) as nat);
        let c = s[n - 1];
        if c == '_' {
            (out, true)
        } else if raise {
            (out.push(ascii_upper(c)), false)
        } else {
            (out.push(c), false)
        }
    }
}

/// The camel case form of a snake case text: each underscore is dropped and the character
/// after a run of underscores is raised (ASCII only).
pub open spec fn camel_of(s: Seq<char>) -> Seq<char> {
    camel_state(s, s.len()).0
}

pub fn camel_to_snake_case(s: &str) -> (r: String)
    ensures
        r@ == snake_of(s@),
{
    let n = s.unicode_len();
    let mut snake_case = String::new();
    let mut i: usize = 0;
    while i < n
        invariant
            n == s@.len(),
            i <= n,
            snake_case@ == snake_prefix(s@, i as nat),
        decreases n - i,
    {
        let current_char = s.get_char(i);
        if is_uppercase(current_char) {
            if i + 1 < n {
                let next_char = s.get_char(i + 1);
                if is_lowercase(next_char) {
                    push_char(&mut snake_case, '_');
                }
            }
            push_char(&mut snake_case, to_ascii_lower(current_char));
        } else {
            push_char(&mut snake_case, current_char);
        }
        assert(snake_case@ =~= snake_prefix(s@, (i + 1) as nat));
        i = i + 1;
    }
    snake_case
}

pub fn snake_to_camel_case(snake: &str) -> (r: String)
    ensures
        r@ == camel_of(snake@),
{
    let n = snake.unicode_len();
    let mut camel = String::new();
    let mut capitalize_next = false;
    let mut i: usize = 0;
    while i < n
        invariant
            n == snake@.len(),
            i <= n,
            camel_state(snake@, i as nat) == (camel@, capitalize_next),
        decreases n - i,
    {
        let c = snake.get_char(i);
        if c == '_' {
            capitalize_next = true;
        } else if capitalize_next {
            push_char(&mut camel, to_ascii_upper(c));
            capitalize_next = false;
        } else {
            push_char(&mut camel, c);
        }
        i = i + 1;
    }
    camel
}

} // verus!
