use vstd::prelude::*;
use vstd::arithmetic::power::pow;

verus! {

/// Identifier of a node, a frame or a session: the 128 bits of a UUID.
pub type NodeId = u128;

/// The character of a hexadecimal digit `n` (0 to 15), in lower case.
pub open spec fn hex_char(n: int) -> char {
    if n < 10 {
        ('0' as int + n) as char
    } else {
        ('a' as int + (n - 10)) as char
    }
}

/// The `k`-th hexadecimal digit of `v`, counted from the most significant of 32.
pub open spec fn uuid_nibble(v: u128, k: int) -> int {
    (v as int / pow(16, (31 - k) as nat)) % 16
}

/// How many hyphens of the 8-4-4-4-12 grouping stand before position `i`.
pub open spec fn hyphens_before(i: int) -> int {
    (if i > 8 { 1int } else { 0 }) + (if i > 13 { 1int } else { 0 }) + (if i > 18 { 1int } else {
        0
    }) + (if i > 23 { 1int } else { 0 })
}

/// The hyphenated lower-case text of a UUID: 32 hex digits, most significant first,
/// grouped 8-4-4-4-12.
pub open spec fn uuid_hyphenated(v: u128) -> Seq<char> {
    Seq::new(
        36,
        |i: int|
            if i == 8 || i == 13 || i == 18 || i == 23 {
                '-'
            } else {
                hex_char(uuid_nibble(v, i - hyphens_before(i)))
            },
    )
}

/// A fresh random version-4 UUID, from `uuid::Uuid::new_v4`.
/// The value is random; the uuid crate's source sets the version digit (the
/// thirteenth hex digit) to 4 and the two top bits of the seventeenth digit to
/// `10`, and that is all that is claimed here.
#[verifier::external_body]
pub(crate) fn new_uuid() -> (id: u128)
    ensures
        uuid_nibble(id, 12) == 4,
        8 <= uuid_nibble(id, 16) < 12,
{
    uuid::Uuid::new_v4().as_u128()
}

/// The text of a UUID, from `uuid::Uuid::from_u128(id).hyphenated().to_string()`.
/// The uuid crate documents this text as the lower-case hexadecimal digits of
/// the 128-bit value, most significant first, in groups of 8-4-4-4-12 joined by
/// hyphens; the contract states exactly that.
#[verifier::external_body]
pub(crate) fn uuid_text(id: u128) -> (s: String)
    ensures
        s@ == uuid_hyphenated(id),
{
    uuid::Uuid::from_u128(id).hyphenated().to_string()
}

} // verus!
