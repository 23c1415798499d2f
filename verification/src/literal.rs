//! Integer literals as they are written in the generated declarations.

use vstd::prelude::*;

verus! {

/// The character of a decimal digit.
pub open spec fn digit(d: nat) -> char {
    if d == 0 {
        '0'
    } else if d == 1 {
        '1'
    } else if d == 2 {
        '2'
    } else if d == 3 {
        '3'
    } else if d == 4 {
        '4'
    } else if d == 5 {
        '5'
    } else if d == 6 {
        '6'
    } else if d == 7 {
        '7'
    } else if d == 8 {
        '8'
    } else {
        '9'
    }
}

/// The decimal digits of `n`, without sign, suffix or leading zeros.
pub open spec fn decimal(n: nat) -> Seq<char>
    decreases n,
{
    if n < 10 {
        seq![digit(n)]
    } else {
        decimal(n / 10).push(digit(n % 10))
    }
}

/// Calls `proc_macro2::Literal::usize_unsuffixed` and takes the text of the
/// token that it makes. The token is an integer literal without a suffix:
/// the decimal digits of `index`.
#[verifier::external_body]
pub(crate) fn index_literal(index: usize) -> (text: String)
    ensures
        text@ == decimal(index as nat),
{
    proc_macro2::Literal::usize_unsuffixed(index).to_string()
}

} // verus!
