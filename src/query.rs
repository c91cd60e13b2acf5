use vstd::prelude::*;
use crate::string_map::StringMap;

verus! {

/// The character of the decimal digit `d`.
pub open spec fn digit_char(d: nat) -> char {
    ((d + 48) as u32) as char
}

/// The decimal numeral of `n`: no sign and no leading zeros.
pub open spec fn decimal(n: nat) -> Seq<char>
    decreases n,
{
    if n < 10 {
        seq![digit_char(n)]
    } else {
        decimal(n / 10).push(digit_char(n % 10))
    }
}

/// The decimal numeral of `n`, with a minus sign when it is negative.
pub open spec fn signed_decimal(n: int) -> Seq<char> {
    if n < 0 {
        seq!['-'] + decimal((-n) as nat)
    } else {
        decimal(n as nat)
    }
}

/// Relies on u16's Display, through to_string: the decimal numeral.
#[verifier::external_body]
pub(crate) fn u16_to_decimal(n: u16) -> (r: String)
    ensures
        r@ == decimal(n as nat),
{
    n.to_string()
}

/// Relies on i32's Display, through to_string: the decimal numeral, with a
/// minus sign when negative.
#[verifier::external_body]
pub(crate) fn i32_to_decimal(n: i32) -> (r: String)
    ensures
        r@ == signed_decimal(n as int),
{
    n.to_string()
}

/// Values that a request carries as URL query parameters.
pub trait QueryItems {
    fn get_all_queries(&self) -> (r: StringMap)
        ensures
            r.wf(),
    ;
}

} // verus!
