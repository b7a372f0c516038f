//! Building the `Debug`-style text of values, piece by piece.

use vstd::prelude::*;

verus! {

/// The ASCII digit for `d` (which must be below ten).
pub open spec fn digit_char(d: nat) -> char {
    ((d + 48) as u8) as char
}

/// Decimal notation of a natural number, without leading zeros.
pub open spec fn decimal(n: nat) -> Seq<char>
    decreases n,
{
    if n < 10 {
        seq![digit_char(n)]
    } else {
        decimal(n / 10).push(digit_char(n % 10))
    }
}

/// What `format!("{:?}", s)` gives for a string `s`: the text in double
/// quotes, with escapes.
pub uninterp spec fn debug_quoted(s: Seq<char>) -> Seq<char>;

/// Appends one character (calls `String::push`).
#[verifier::external_body]
pub fn push_char(s: &mut String, c: char)
    ensures
        final(s)@ == old(s)@.push(c),
{
    s.push(c);
}

/// The `Debug` text of a string slice (calls `<str as Debug>::fmt` through
/// `format!`).  Its value is named `debug_quoted` of the slice.
#[verifier::external_body]
pub fn debug_str(v: &str) -> (r: String)
    ensures
        r@ == debug_quoted(v@),
{
    format!("{:?}", v)
}

/// Appends the decimal notation of `n`.
pub fn push_decimal(s: &mut String, n: usize)
    ensures
        final(s)@ == old(s)@ + decimal(n as nat),
    decreases n,
{
    if n >= 10 {
        push_decimal(s, n / 10);
    }
    let d: u8 = (n % 10) as u8;
    let c: char = (d + 48) as char;
    push_char(s, c);
    proof {
        assert(digit_char((n % 10) as nat) == c);
    }
}

/// Appends the `Debug` text of a string.
pub fn push_debug_str(s: &mut String, v: &str)
    ensures
        final(s)@ == old(s)@ + debug_quoted(v@),
{
    let q = debug_str(v);
    s.append(q.as_str());
}

/// Appends the `Debug` text of a `bool`.
pub fn push_bool(s: &mut String, b: bool)
    ensures
        final(s)@ == old(s)@ + bool_text(b),
{
    if b {
        s.append("true");
    } else {
        s.append("false");
    }
}

/// `true` or `false`.
pub open spec fn bool_text(b: bool) -> Seq<char> {
    if b { "true"@ } else { "false"@ }
}

} // verus!
