//! Decimal rendering of identifiers and the string-building helpers used for
//! redemption codes and external references.

use vstd::prelude::*;
use vstd::string::StringExecFns;
use vstd::string::StrSliceExecFns;

verus! {

/// The character for one decimal digit (`d` is taken modulo 10).
pub open spec fn dec_digit_char(d: u128) -> char {
    (((d % 10) + 48) as u8) as char
}

/// The decimal digits of `n`, most significant first, as written by the
/// standard formatter for unsigned integers.
pub open spec fn dec_str(n: u128) -> Seq<char>
    decreases n,
{
    if n < 10 {
        seq![dec_digit_char(n)]
    } else {
        dec_str(n / 10).push(dec_digit_char(n))
    }
}

/// Relies on the standard `Display` formatting of `u128`: the plain decimal
/// digits of the value, most significant first, no sign and no separators.
#[verifier::external_body]
pub fn u128_to_string(n: u128) -> (r: String)
    ensures
        r@ == dec_str(n),
{
    format!("{}", n)
}

/// The redemption code written on a ticket: the event id and the ticket id,
/// each in decimal, joined under a fixed prefix.
pub open spec fn qr_code_chars(event_id: u128, ticket_id: u128) -> Seq<char> {
    "TICKET_"@ + dec_str(event_id) + "_"@ + dec_str(ticket_id)
}

/// Builds the redemption code for a ticket.
pub fn make_qr_code(event_id: u128, ticket_id: u128) -> (r: String)
    ensures
        r@ == qr_code_chars(event_id, ticket_id),
{
    let mut s = String::from_str("TICKET_");
    let e = u128_to_string(event_id);
    s.append(e.as_str());
    s.append("_");
    let t = u128_to_string(ticket_id);
    s.append(t.as_str());
    s
}

/// Concatenation of a fixed prefix and the decimal digits of an id.
pub open spec fn prefixed_id_chars(prefix: Seq<char>, id: u128) -> Seq<char> {
    prefix + dec_str(id)
}

/// Appends the decimal digits of `id` to `prefix`.
pub fn append_id(prefix: &str, id: u128) -> (r: String)
    ensures
        r@ == prefixed_id_chars(prefix@, id),
{
    let mut s = prefix.to_owned();
    let d = u128_to_string(id);
    s.append(d.as_str());
    s
}

} // verus!
