//! Post identifiers: 128-bit values, written on the wire as UUID text.

use vstd::prelude::*;

verus! {

/// What `uuid::Uuid::parse_str` reads from a text: the 128-bit value of the
/// identifier, or `None` where it reports an error.
pub uninterp spec fn uuid_parse(text: Seq<char>) -> Option<u128>;

/// The sixteen lower-case hexadecimal digits, by value.
pub open spec fn hex_digits() -> Seq<char> {
    seq!['0', '1', '2', '3', '4', '5', '6', '7', '8', '9', 'a', 'b', 'c', 'd', 'e', 'f']
}

/// Sixteen to the power `n`.
pub open spec fn sixteen_to(n: nat) -> int
    decreases n,
{
    if n == 0 {
        1
    } else {
        16 * sixteen_to((n - 1) as nat)
    }
}

/// The hexadecimal digit of `value` at place `k`, counted from the most
/// significant of its 32 digits.
pub open spec fn nibble(value: u128, k: int) -> int {
    (value as int / sixteen_to((31 - k) as nat)) % 16
}

/// Whether position `i` of the 36-character text holds a hyphen.
pub open spec fn is_hyphen_place(i: int) -> bool {
    i == 8 || i == 13 || i == 18 || i == 23
}

/// The place of the digit that stands at position `i` of the text.
pub open spec fn digit_place(i: int) -> int {
    if i < 8 {
        i
    } else if i < 13 {
        i - 1
    } else if i < 18 {
        i - 2
    } else if i < 23 {
        i - 3
    } else {
        i - 4
    }
}

/// The canonical text of an identifier: its 32 lower-case hexadecimal digits,
/// most significant first, in groups of 8, 4, 4, 4 and 12 divided by hyphens.
pub open spec fn hyphenated(value: u128) -> Seq<char> {
    Seq::new(
        36,
        |i: int|
            if is_hyphen_place(i) {
                '-'
            } else {
                hex_digits()[nibble(value, digit_place(i))]
            },
    )
}

/// Whether `value` carries the marks of a randomly generated identifier:
/// version digit 4 and the two variant bits `10`.
pub open spec fn is_random_form(value: u128) -> bool {
    nibble(value, 12) == 4 && 8 <= nibble(value, 16) < 12
}

/// Calls `uuid::Uuid::parse_str` and hands back the identifier as its 128-bit
/// value (`Uuid::as_u128`), or `None` where the text was refused. Trusted: the
/// answer is the one that [`uuid_parse`] names.
#[verifier::external_body]
pub(crate) fn parse_uuid(text: &str) -> (r: Option<u128>)
    ensures
        r == uuid_parse(text@),
{
    match uuid::Uuid::parse_str(text) {
        Ok(id) => Some(id.as_u128()),
        Err(_) => None,
    }
}

/// Calls `uuid::Uuid::from_u128` and the `to_string` of the result. Trusted:
/// the text is the hyphenated lower-case form, and `uuid::Uuid::parse_str`
/// reads the same value back from it.
#[verifier::external_body]
pub(crate) fn render_uuid(value: u128) -> (r: String)
    ensures
        r@ == hyphenated(value),
        uuid_parse(r@) == Some(value),
{
    uuid::Uuid::from_u128(value).to_string()
}

/// Calls `uuid::Uuid::new_v4` and hands back the 128-bit value. Trusted: the
/// value is random but for its version digit and variant bits. Where the
/// operating system gives no random bytes the call does not return, as where
/// memory runs out.
#[verifier::external_body]
pub(crate) fn random_uuid() -> (r: u128)
    ensures
        is_random_form(r),
{
    uuid::Uuid::new_v4().as_u128()
}

} // verus!
