//! Text helpers shared by the parser and the SQL builders: joining fragments,
//! comparing strings and writing integers in decimal.
use vstd::prelude::*;
use vstd::string::*;

verus! {

/// The parts laid end to end with `sep` between each two neighbours.
pub open spec fn join(parts: Seq<Seq<char>>, sep: Seq<char>) -> Seq<char>
    decreases parts.len(),
{
    if parts.len() == 0 {
        Seq::empty()
    } else if parts.len() == 1 {
        parts[0]
    } else {
        join(parts.drop_last(), sep) + sep + parts.last()
    }
}

/// The text of each string of a sequence.
pub open spec fn views(v: Seq<String>) -> Seq<Seq<char>> {
    v.map_values(|s: String| s@)
}

/// Relies on `String::push`: the character is appended at the end.
#[verifier::external_body]
pub(crate) fn push_char(s: &mut String, c: char)
    ensures
        final(s)@ == old(s)@.push(c),
{
    s.push(c);
}

/// A string with the same text as `s`.
pub fn owned(s: &str) -> (r: String)
    ensures
        r@ == s@,
{
    let mut r = String::new();
    r.append(s);
    r
}

/// Whether the two strings hold the same characters.
pub fn str_eq(a: &str, b: &str) -> (r: bool)
    ensures
        r == (a@ == b@),
{
    let n = a.unicode_len();
    if n != b.unicode_len() {
        return false;
    }
    let mut i: usize = 0;
    while i < n
        invariant
            n == a@.len(),
            n == b@.len(),
            i <= n,
            a@.take(i as int) == b@.take(i as int),
        decreases n - i,
    {
        if a.get_char(i) != b.get_char(i) {
            assert(a@[i as int] != b@[i as int]);
            return false;
        }
        assert(a@.take(i + 1) =~= a@.take(i as int).push(a@[i as int]));
        assert(b@.take(i + 1) =~= b@.take(i as int).push(b@[i as int]));
        i = i + 1;
    }
    assert(a@ =~= a@.take(n as int));
    assert(b@ =~= b@.take(n as int));
    true
}

/// Appends the parts with `sep` between each two neighbours.
pub fn push_joined(out: &mut String, parts: &Vec<String>, sep: &str)
    ensures
        final(out)@ == old(out)@ + join(views(parts@), sep@),
{
    let ghost start = out@;
    let mut i: usize = 0;
    while i < parts.len()
        invariant
            i <= parts@.len(),
            out@ == start + join(views(parts@).take(i as int), sep@),
        decreases parts@.len() - i,
    {
        let ghost before = views(parts@).take(i as int);
        let ghost after = views(parts@).take(i + 1);
        assert(after.drop_last() =~= before);
        if i > 0 {
            out.append(sep);
        }
        out.append(parts[i].as_str());
        proof {
            if i == 0 {
                assert(before =~= Seq::<Seq<char>>::empty());
            }
            assert(out@ =~= start + join(after, sep@));
        }
        i = i + 1;
    }
    assert(views(parts@).take(parts@.len() as int) =~= views(parts@));
}

/// The parts joined with `sep` between each two neighbours.
pub fn join_strings(parts: &Vec<String>, sep: &str) -> (r: String)
    ensures
        r@ == join(views(parts@), sep@),
{
    let mut r = String::new();
    push_joined(&mut r, parts, sep);
    assert(r@ =~= join(views(parts@), sep@));
    r
}

/// The decimal digit for `d`, where `d < 10`.
pub open spec fn digit_char(d: int) -> char {
    if d == 0 {
        '0'
    } else if d == 1 {
        '1'
    } else if d == 2 {
        '2'
    } else if d == 3 {
        '3'
    } else if d == 4 {
        '4'
    } else if d == 5 {
        '5'
    } else if d == 6 {
        '6'
    } else if d == 7 {
        '7'
    } else if d == 8 {
        '8'
    } else {
        '9'
    }
}

/// The decimal digits of a natural number, most significant first, without leading zeros.
pub open spec fn digits(n: nat) -> Seq<char>
    decreases n,
{
    if n < 10 {
        seq![digit_char(n as int)]
    } else {
        digits(n / 10) + seq![digit_char((n % 10) as int)]
    }
}

/// The decimal text of an integer, with a leading `-` when it is negative.
pub open spec fn decimal(n: int) -> Seq<char> {
    if n < 0 {
        seq!['-'] + digits((-n) as nat)
    } else {
        digits(n as nat)
    }
}

fn digit(d: u64) -> (c: char)
    requires
        d < 10,
    ensures
        c == digit_char(d as int),
{
    if d == 0 {
        '0'
    } else if d == 1 {
        '1'
    } else if d == 2 {
        '2'
    } else if d == 3 {
        '3'
    } else if d == 4 {
        '4'
    } else if d == 5 {
        '5'
    } else if d == 6 {
        '6'
    } else if d == 7 {
        '7'
    } else if d == 8 {
        '8'
    } else {
        '9'
    }
}

fn push_digits(out: &mut String, n: u64)
    ensures
        final(out)@ == old(out)@ + digits(n as nat),
    decreases n,
{
    if n >= 10 {
        push_digits(out, n / 10);
    }
    push_char(out, digit(n % 10));
    assert(out@ =~= old(out)@ + digits(n as nat));
}

/// The decimal text of `n`.
pub fn i64_to_text(n: i64) -> (r: String)
    ensures
        r@ == decimal(n as int),
{
    let mut r = String::new();
    if n < 0 {
        push_char(&mut r, '-');
        let magnitude: u64 = (-(n as i128)) as u64;
        push_digits(&mut r, magnitude);
    } else {
        push_digits(&mut r, n as u64);
    }
    assert(r@ =~= decimal(n as int));
    r
}

} // verus!
