//! Identifiers: the text form of the UUIDs that name products and requests.

use vstd::prelude::*;

verus! {

/// Whether `c` is one of `0`..`9`, `a`..`f`.
pub open spec fn is_lower_hex_char(c: char) -> bool {
    let u = c as u32;
    ||| 48 <= u <= 57
    ||| 97 <= u <= 102
}

/// Whether position `i` of a hyphenated UUID holds a hyphen.
pub open spec fn is_uuid_hyphen_position(i: int) -> bool {
    i == 8 || i == 13 || i == 18 || i == 23
}

/// The lower-case hyphenated text of an RFC 9562 UUID of the given version:
/// 36 characters in groups of 8-4-4-4-12 hex digits, the version digit at
/// position 14 and one of `8`, `9`, `a`, `b` (the variant) at position 19.
pub open spec fn is_hyphenated_uuid(s: Seq<char>, version: char) -> bool {
    &&& s.len() == 36
    &&& forall|i: int|
        0 <= i < 36 ==> if is_uuid_hyphen_position(i) {
            #[trigger] s[i] == '-'
        } else {
            is_lower_hex_char(s[i])
        }
    &&& s[14] == version
    &&& (s[19] == '8' || s[19] == '9' || s[19] == 'a' || s[19] == 'b')
}

/// Calls `uuid::Uuid::new_v4` and formats the result with its `Display`
/// impl. `new_v4` sets the version nibble to 4 and the variant
/// bits to `10`, and `Display` writes the lower-case hyphenated form;
/// the other 122 bits are random, so nothing more is said of them. The call
/// panics only if the operating system cannot supply random bytes.
#[verifier::external_body]
pub(crate) fn new_random_uuid_text() -> (s: String)
    ensures
        is_hyphenated_uuid(s@, '4'),
{
    uuid::Uuid::new_v4().to_string()
}

/// Calls `uuid::Uuid::now_v7` and formats the result with its `Display`
/// impl. `now_v7` sets the version nibble to 7 and the variant bits to
/// `10`, and `Display` writes the lower-case hyphenated form; the rest comes
/// from the system clock and random bytes and is not stated. The call panics
/// only if the system clock reads earlier than the Unix epoch or the
/// operating system cannot supply random bytes.
#[verifier::external_body]
fn new_time_ordered_uuid_text() -> (s: String)
    ensures
        is_hyphenated_uuid(s@, '7'),
{
    uuid::Uuid::now_v7().to_string()
}

/// A fresh identifier for a product of the database catalog: a
/// time-ordered (version 7) UUID in its hyphenated text form.
pub fn new_product_id() -> (id: String)
    ensures
        is_hyphenated_uuid(id@, '7'),
{
    new_time_ordered_uuid_text()
}

/// The identifier of a request: the one the client sent in its
/// `x-request-id` header when there is one, else a fresh time-ordered
/// (version 7) UUID.
pub fn request_id_or_new(header_value: Option<String>) -> (id: String)
    ensures
        match header_value {
            Some(h) => id@ == h@,
            None => is_hyphenated_uuid(id@, '7'),
        },
{
    match header_value {
        Some(h) => h,
        None => new_time_ordered_uuid_text(),
    }
}

} // verus!
