//! Identifiers of log units and log messages.
//!
//! An identifier is a 128-bit UUID, held as the `u128` whose big-endian bytes
//! are the UUID's bytes.

use vstd::prelude::*;

verus! {

/// Declares the error of the UUID parser, which is only ever passed through.
#[verifier::external_type_specification]
#[verifier::external_body]
pub struct ExUuidError(uuid::Error);

/// Holds of the identifiers that carry the marks of a random (version 4)
/// UUID: the version digit is 4 and the two variant bits are `10`.
pub open spec fn is_random_id(id: u128) -> bool {
    id & 0x0000_0000_0000_f000_c000_0000_0000_0000 == 0x0000_0000_0000_4000_8000_0000_0000_0000
}

/// The lower-case hexadecimal digit for a value from 0 to 15.
pub open spec fn hex_digit(n: int) -> char {
    if n < 10 {
        ('0' as int + n) as char
    } else {
        ('a' as int + n - 10) as char
    }
}

/// The `k`-th of the 32 hexadecimal digits of `id`, the most significant
/// first.
pub open spec fn hex_nibble(id: u128, k: int) -> int {
    ((id as int) / vstd::arithmetic::power::pow(16, (31 - k) as nat)) % 16
}

/// The digit that stands at position `i` of the canonical text, given that
/// `i` is not the position of a hyphen.
pub open spec fn digit_index(i: int) -> int {
    if i < 8 {
        i
    } else if i < 13 {
        i - 1
    } else if i < 18 {
        i - 2
    } else if i < 23 {
        i - 3
    } else {
        i - 4
    }
}

/// The canonical text of an identifier: 32 lower-case hexadecimal digits in
/// groups of 8, 4, 4, 4 and 12, separated by hyphens.
pub open spec fn uuid_text(id: u128) -> Seq<char> {
    Seq::new(
        36,
        |i: int|
            if i == 8 || i == 13 || i == 18 || i == 23 {
                '-'
            } else {
                hex_digit(hex_nibble(id, digit_index(i)))
            },
    )
}

/// What the UUID parser makes of a text: the identifier it stands for, or
/// `None` where the text is not accepted.
pub uninterp spec fn uuid_parse(text: Seq<char>) -> Option<u128>;

/// Calls `uuid::Uuid::new_v4` and returns the new UUID as a `u128`
/// (`Uuid::as_u128`). The value is random; the contract states only the
/// version and variant bits that `new_v4` sets on every UUID it makes.
/// `new_v4` panics if the operating system cannot supply random bytes.
#[verifier::external_body]
fn random_uuid() -> (id: u128)
    ensures
        is_random_id(id),
{
    uuid::Uuid::new_v4().as_u128()
}

/// Formats the UUID with the given value (`Uuid::from_u128`) through its
/// `Display` impl, which writes the hyphenated lower-case form. The contract
/// states that form, and that `Uuid::parse_str` reads it back as the same
/// value.
#[verifier::external_body]
fn hyphenated(id: u128) -> (text: String)
    ensures
        text@ == uuid_text(id),
        uuid_parse(text@) == Some(id),
{
    uuid::Uuid::from_u128(id).to_string()
}

/// Calls `uuid::Uuid::parse_str` and returns the parsed UUID as a `u128`
/// (`Uuid::as_u128`), or the parser's error.
#[verifier::external_body]
fn parse_uuid(text: &str) -> (r: Result<u128, uuid::Error>)
    ensures
        r matches Ok(id) ==> uuid_parse(text@) == Some(id),
        r is Err ==> uuid_parse(text@) is None,
{
    match uuid::Uuid::parse_str(text) {
        Ok(uuid) => Ok(uuid.as_u128()),
        Err(error) => Err(error),
    }
}

/// A random identifier never is the nil identifier.
pub proof fn lemma_random_id_not_nil(id: u128)
    requires
        is_random_id(id),
    ensures
        id != 0,
{
    assert(id & 0x0000_0000_0000_f000_c000_0000_0000_0000
        == 0x0000_0000_0000_4000_8000_0000_0000_0000 ==> id != 0) by (bit_vector);
}

/// Generates a fresh random identifier.
pub fn new_id() -> (id: u128)
    ensures
        is_random_id(id),
        id != 0,
{
    let id: u128 = random_uuid();
    proof {
        lemma_random_id_not_nil(id);
    }
    id
}

/// The canonical text of an identifier, which `parse_id` reads back.
pub fn id_to_string(id: u128) -> (text: String)
    ensures
        text@ == uuid_text(id),
        text@.len() == 36,
        uuid_parse(text@) == Some(id),
{
    hyphenated(id)
}

/// Parses the text of an identifier. Returns `None` exactly where the text
/// is not accepted as a UUID.
pub fn parse_id(text: &str) -> (r: Option<u128>)
    ensures
        r == uuid_parse(text@),
{
    match parse_uuid(text) {
        Ok(id) => Some(id),
        Err(_) => None,
    }
}

} // verus!
