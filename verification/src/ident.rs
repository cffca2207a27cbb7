use vstd::prelude::*;
use vstd::arithmetic::power::pow;

verus! {

/// Lower-case hexadecimal digit for a value in `0..16`.
pub open spec fn hex_digit(d: int) -> char {
    if d < 10 {
        (d + 48) as char
    } else {
        (d + 87) as char
    }
}

/// The `k`-th hexadecimal digit of `id`, counting from the most significant one (`0..32`).
pub open spec fn nibble(id: u128, k: int) -> int {
    ((id as int) / pow(16, (31 - k) as nat)) % 16
}

/// How many hyphens of the hyphenated form stand before position `i`.
pub open spec fn hyphens_before(i: int) -> int {
    if i < 9 {
        0
    } else if i < 14 {
        1
    } else if i < 19 {
        2
    } else if i < 24 {
        3
    } else {
        4
    }
}

/// The hyphenated text of the identifier `id`: its 32 lower-case hexadecimal digits,
/// most significant first, grouped 8-4-4-4-12 by hyphens.
pub open spec fn id_text(id: u128) -> Seq<char> {
    Seq::new(
        36,
        |i: int|
            if i == 8 || i == 13 || i == 18 || i == 23 {
                '-'
            } else {
                hex_digit(nibble(id, i - hyphens_before(i)))
            },
    )
}

/// Text of the task identifier `id`, as `uuid::Uuid::from_u128(id)` displays it.
///
/// Trusted: the `Display` of `uuid::Uuid` writes the hyphenated lower-case form of the
/// sixteen big-endian bytes that `from_u128` stores, which is what `id_text` states.
#[verifier::external_body]
pub(crate) fn id_string(id: u128) -> (text: String)
    ensures
        text@ == id_text(id),
{
    uuid::Uuid::from_u128(id).to_string()
}

} // verus!
