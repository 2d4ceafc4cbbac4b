//! Identifiers of databases and generations: 128-bit numbers, drawn at
//! random and written as UUIDs.

use vstd::prelude::*;

verus! {

/// The sixteen hexadecimal digits, in lower case.
pub open spec fn hex_digits() -> Seq<char> {
    seq!['0', '1', '2', '3', '4', '5', '6', '7', '8', '9', 'a', 'b', 'c', 'd', 'e', 'f']
}

/// The hexadecimal digit of `id` at place `k`, counted from the most
/// significant of its 32 digits.
pub open spec fn id_digit(id: int, k: int) -> int
    decreases 31 - k,
{
    if k >= 31 {
        id % 16
    } else {
        id_digit(id / 16, k + 1)
    }
}

/// The text of an identifier: its 32 hexadecimal digits in lower case, most
/// significant first, in groups of 8, 4, 4, 4 and 12 with a hyphen between
/// two groups.
pub open spec fn id_text(id: u128) -> Seq<char> {
    Seq::new(
        36,
        |i: int|
            if i == 8 || i == 13 || i == 18 || i == 23 {
                '-'
            } else if i < 8 {
                hex_digits()[id_digit(id as int, i)]
            } else if i < 13 {
                hex_digits()[id_digit(id as int, i - 1)]
            } else if i < 18 {
                hex_digits()[id_digit(id as int, i - 2)]
            } else if i < 23 {
                hex_digits()[id_digit(id as int, i - 3)]
            } else {
                hex_digits()[id_digit(id as int, i - 4)]
            },
    )
}

/// What holds of every identifier drawn at random: it is a UUID of version
/// 4, with the digit 4 at the place of the version and the bits `10` at the
/// place of the variant. The other 122 bits are random.
pub open spec fn is_random_id(id: u128) -> bool {
    &&& (id / 0x1000_0000_0000_0000_0000) % 16 == 4
    &&& (id / 0x4000_0000_0000_0000) % 4 == 2
}

/// Calls `uuid::Uuid::new_v4()` and takes the result by `as_u128()`. The
/// identifier is random; of every outcome the crate fixes the version digit
/// to 4 and the two variant bits to `10`, and the contract says no more.
#[verifier::external_body]
pub(crate) fn random_id() -> (id: u128)
    ensures
        (id / 0x1000_0000_0000_0000_0000) % 16 == 4,
        (id / 0x4000_0000_0000_0000) % 4 == 2,
{
    uuid::Uuid::new_v4().as_u128()
}

/// Calls `uuid::Uuid::from_u128(id)` and `to_string()` on the result. The
/// crate writes a UUID in its hyphenated lower-case form, which is
/// [`id_text`].
#[verifier::external_body]
pub(crate) fn id_to_string(id: u128) -> (text: String)
    ensures
        text@ == id_text(id),
{
    uuid::Uuid::from_u128(id).to_string()
}

} // verus!
