use vstd::prelude::*;

verus! {

/// The lowercase hexadecimal digit for `n` (0 to 15).
pub open spec fn hex_digit(n: int) -> char {
    if n < 10 {
        (48 + n) as char
    } else {
        (87 + n) as char
    }
}

/// The `k`-th hexadecimal digit of `u`, counted from the most significant.
pub open spec fn nibble(u: u128, k: int) -> int {
    (u as int / vstd::arithmetic::power2::pow2((4 * (31 - k)) as nat) as int) % 16
}

/// Which hexadecimal digit stands at position `i` of the hyphenated form.
pub open spec fn digit_at(i: int) -> int {
    if i < 8 {
        i
    } else if i < 13 {
        i - 1
    } else if i < 18 {
        i - 2
    } else if i < 23 {
        i - 3
    } else {
        i - 4
    }
}

/// The hyphenated form of an identifier: its 32 lowercase hexadecimal digits,
/// most significant first, in groups of 8, 4, 4, 4 and 12 joined by `-`.
pub open spec fn hyphenated(u: u128) -> Seq<char> {
    Seq::new(
        36,
        |i: int|
            if i == 8 || i == 13 || i == 18 || i == 23 {
                '-'
            } else {
                hex_digit(nibble(u, digit_at(i)))
            },
    )
}

/// What `uuid::Uuid::parse_str` reads from a text: an identifier, or nothing.
pub uninterp spec fn uuid_parse(text: Seq<char>) -> Option<u128>;

/// Formats an identifier with `uuid::Uuid`'s `Display` (via `to_string`),
/// which writes the hyphenated lowercase form.
#[verifier::external_body]
pub(crate) fn uuid_to_text(id: u128) -> (r: String)
    ensures
        r@ == hyphenated(id),
{
    uuid::Uuid::from_u128(id).to_string()
}

/// Reads an identifier with `uuid::Uuid::parse_str`. The contract claims that
/// the result is a function of the text, and that the hyphenated form of an
/// identifier (as `uuid_to_text` writes it) reads back as that identifier;
/// the other accepted forms are left unsaid.
#[verifier::external_body]
pub(crate) fn parse_uuid(text: &str) -> (r: Option<u128>)
    ensures
        r == uuid_parse(text@),
        forall|u: u128| text@ == hyphenated(u) ==> r == Some(u),
{
    match uuid::Uuid::parse_str(text) {
        Ok(u) => Some(u.as_u128()),
        Err(_) => None,
    }
}

/// A fresh random identifier from `uuid::Uuid::new_v4`. The contract claims
/// only the fixed bits its code sets: version 4 and the RFC 4122 variant.
#[verifier::external_body]
pub(crate) fn random_uuid() -> (r: u128)
    ensures
        (r >> 76u128) & 0xfu128 == 4,
        (r >> 62u128) & 0x3u128 == 2,
{
    uuid::Uuid::new_v4().as_u128()
}

} // verus!
