//! Identifiers of accounts, players, rooms and sessions: 128-bit UUID values.

use vstd::prelude::*;

verus! {

/// Version field of a UUID held as a big-endian 128-bit value (bits 76..80).
pub open spec fn uuid_version(v: u128) -> u128 {
    (v >> 76u128) & 0xfu128
}

/// Variant field of a UUID held as a big-endian 128-bit value (bits 62..64).
pub open spec fn uuid_variant(v: u128) -> u128 {
    (v >> 62u128) & 0x3u128
}

/// A fresh time-ordered UUID, as `uuid::Uuid::now_v7` makes it, taken as its big-endian
/// 128-bit value. The uuid source sets the version nibble to 7 and the variant bits to `10`;
/// the contract states those two fields and nothing else of the value, which depends on the
/// clock and on random bits. As in that crate, the call panics when the system clock reads
/// earlier than the Unix epoch or when the operating system's random source fails; neither
/// depends on anything a caller passes.
#[verifier::external_body]
pub(crate) fn new_v7_value() -> (v: u128)
    ensures
        uuid_version(v) == 7,
        uuid_variant(v) == 2,
{
    uuid::Uuid::now_v7().as_u128()
}

/// A fresh version-7 UUID value; never the nil UUID.
pub fn fresh_uuid() -> (v: u128)
    ensures
        uuid_version(v) == 7,
        uuid_variant(v) == 2,
        v != 0,
{
    let v = new_v7_value();
    assert(uuid_version(v) == 7 ==> v != 0) by (bit_vector);
    v
}

/// Account identifier.
#[derive(Debug, Clone, Copy, PartialEq, Eq, Hash, Structural)]
pub struct AccountId(pub u128);

/// Player identifier.
#[derive(Debug, Clone, Copy, PartialEq, Eq, Hash, Structural)]
pub struct PlayerId(pub u128);

/// Room identifier.
#[derive(Debug, Clone, Copy, PartialEq, Eq, Hash, Structural)]
pub struct RoomId(pub u128);

/// Session identifier (equal to the connection's identifier).
#[derive(Debug, Clone, Copy, PartialEq, Eq, Hash, Structural)]
pub struct SessionId(pub u128);

/// Lower-case hexadecimal digit of `n` (0..16).
pub open spec fn hex_digit(n: int) -> char {
    if n < 10 {
        (0x30 + n) as char
    } else {
        (0x61 + n - 10) as char
    }
}

/// The `k`-th hexadecimal digit of `v`, counted from the most significant (0..32).
pub open spec fn nibble(v: u128, k: int) -> int {
    (v as int / vstd::arithmetic::power2::pow2((4 * (31 - k)) as nat) as int) % 16
}

/// Number of hyphens that stand before position `i` of the hyphenated form.
pub open spec fn hyphens_before(i: int) -> int {
    (if i > 8 { 1int } else { 0int }) + (if i > 13 { 1int } else { 0int }) + (if i > 18 {
        1int
    } else {
        0int
    }) + (if i > 23 { 1int } else { 0int })
}

/// Hyphenated lower-case text of a UUID value: `xxxxxxxx-xxxx-xxxx-xxxx-xxxxxxxxxxxx`.
pub open spec fn uuid_hyphenated(v: u128) -> Seq<char> {
    Seq::new(
        36,
        |i: int|
            if i == 8 || i == 13 || i == 18 || i == 23 {
                '-'
            } else {
                hex_digit(nibble(v, i - hyphens_before(i)))
            },
    )
}

/// What `uuid::Uuid::parse_str` gives for a text, as a 128-bit value (`None` where it fails).
pub uninterp spec fn uuid_parse(text: Seq<char>) -> Option<u128>;

/// `uuid::Uuid::from_u128(v).to_string()`: uuid's `Display` writes the hyphenated lower-case
/// form (`fmt::LowerHex` of `as_hyphenated`), which the contract states digit by digit.
#[verifier::external_body]
pub(crate) fn uuid_text(v: u128) -> (s: String)
    ensures
        s@ == uuid_hyphenated(v),
{
    uuid::Uuid::from_u128(v).to_string()
}

/// `uuid::Uuid::parse_str`, the result taken as a 128-bit value. Its result is named
/// `uuid_parse`; beside that the contract states one fact that the crate documents: every
/// text it formats itself, such as the hyphenated form, parses back to its value.
#[verifier::external_body]
pub(crate) fn parse_uuid(text: &str) -> (r: Option<u128>)
    ensures
        r == uuid_parse(text@),
        forall|v: u128| text@ == uuid_hyphenated(v) ==> r == Some(v),
{
    match uuid::Uuid::parse_str(text) {
        Ok(u) => Some(u.as_u128()),
        Err(_) => None,
    }
}

} // verus!
