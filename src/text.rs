//! Small pieces of text that std produces: one character appended, an integer
//! in decimal.
use vstd::prelude::*;

verus! {

/// The decimal digits of `n`, most significant first, as `{}` writes an integer.
pub open spec fn decimal(n: nat) -> Seq<char>
    decreases n,
{
    if n < 10 {
        seq![((('0' as u32) + n) as u32) as char]
    } else {
        decimal(n / 10).push(((('0' as u32) + (n % 10)) as u32) as char)
    }
}

/// Relies on `String::push`: appends `c` at the end of `s`.
#[verifier::external_body]
pub(crate) fn push_char(s: &mut String, c: char)
    ensures
        final(s)@ == old(s)@.push(c),
{
    s.push(c)
}

/// Relies on `ToString` through `Display` for `usize`: its decimal digits,
/// without sign or padding.
#[verifier::external_body]
pub(crate) fn usize_decimal(n: usize) -> (r: String)
    ensures
        r@ == decimal(n as nat),
{
    n.to_string()
}

} // verus!
