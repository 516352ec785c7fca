//! Text building for shader source: decimal numbers and the std string
//! operations it relies on.
use vstd::prelude::*;

verus! {

/// The character of decimal digit `d`.
pub open spec fn digit_char(d: int) -> char {
    seq!['0', '1', '2', '3', '4', '5', '6', '7', '8', '9'][d]
}

/// Decimal representation of `n`, without leading zeros.
pub open spec fn decimal(n: nat) -> Seq<char>
    decreases n,
{
    if n < 10 {
        seq![digit_char(n as int)]
    } else {
        decimal(n / 10) + seq![digit_char((n % 10) as int)]
    }
}

/// `t` with every occurrence of the non-empty `p` replaced by `r`, scanning
/// from the left and resuming after each replaced occurrence.
pub open spec fn replace_all(t: Seq<char>, p: Seq<char>, r: Seq<char>) -> Seq<char>
    decreases t.len(),
{
    if t.len() == 0 {
        seq![]
    } else if 0 < p.len() <= t.len() && t.subrange(0, p.len() as int) == p {
        r + replace_all(t.subrange(p.len() as int, t.len() as int), p, r)
    } else {
        seq![t[0]] + replace_all(t.subrange(1, t.len() as int), p, r)
    }
}

/// Relies on `String::push_str`: appends `t` to `s`.
#[verifier::external_body]
pub(crate) fn append_str(s: &mut String, t: &str)
    ensures
        final(s)@ == old(s)@ + t@,
{
    s.push_str(t)
}

/// Relies on `String::push`: appends `c` to `s`.
#[verifier::external_body]
pub(crate) fn append_char(s: &mut String, c: char)
    ensures
        final(s)@ == old(s)@.push(c),
{
    s.push(c)
}

/// Relies on `str::replace`: replaces all non-overlapping matches of `from`,
/// found from the left, by `to`.
#[verifier::external_body]
pub(crate) fn replace_text(s: &str, from: &str, to: &str) -> (r: String)
    requires
        from@.len() > 0,
    ensures
        r@ == replace_all(s@, from@, to@),
{
    s.replace(from, to)
}

/// The character of the digit `d`.
fn digit(d: u32) -> (c: char)
    requires
        d < 10,
    ensures
        c == digit_char(d as int),
{
    match d {
        0 => '0',
        1 => '1',
        2 => '2',
        3 => '3',
        4 => '4',
        5 => '5',
        6 => '6',
        7 => '7',
        8 => '8',
        _ => '9',
    }
}

/// Appends the decimal representation of `n` to `s`.
pub fn push_decimal(s: &mut String, n: u32)
    ensures
        final(s)@ == old(s)@ + decimal(n as nat),
    decreases n,
{
    if n >= 10 {
        push_decimal(s, n / 10);
    }
    append_char(s, digit(n % 10));
    assert(final(s)@ =~= old(s)@ + decimal(n as nat));
}

/// The decimal representation of `n`.
pub fn decimal_string(n: u32) -> (r: String)
    ensures
        r@ == decimal(n as nat),
{
    let mut s = String::new();
    push_decimal(&mut s, n);
    assert(s@ =~= decimal(n as nat));
    s
}

} // verus!
