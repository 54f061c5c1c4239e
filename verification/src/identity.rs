//! Identifiers: 128-bit values drawn at random, and the text they are
//! written as.
//!
//! Drawing and writing are done by the `uuid` crate. An identifier is held
//! here as the `u128` that `Uuid::as_u128` gives, most significant byte
//! first.

use vstd::prelude::*;

verus! {

/// Whether a value has the layout of a randomly drawn identifier: the
/// version digit is 4 and the two variant bits are `10`.
pub open spec fn is_random(id: u128) -> bool {
    (id >> 76u128) & 0xfu128 == 4u128 && (id >> 62u128) & 0x3u128 == 2u128
}

/// Calls `Uuid::new_v4` and hands back its 128 bits.
///
/// Trusted: the result has the version digit 4 and the RFC variant bits,
/// which the outside function sets on whatever the random source gave.
/// Nothing is claimed of the other 122 bits. The outside function panics
/// if the operating system has no random bytes to give.
#[verifier::external_body]
pub(crate) fn random() -> (id: u128)
    ensures
        is_random(id),
{
    uuid::Uuid::new_v4().as_u128()
}

/// A randomly drawn identifier is never the nil identifier.
pub proof fn lemma_random_is_not_nil(id: u128)
    requires
        is_random(id),
    ensures
        id != 0u128,
{
    assert(id != 0u128) by (bit_vector)
        requires
            (id >> 76u128) & 0xfu128 == 4u128,
    ;
}

/// The lower-case hexadecimal digit for a value below 16.
pub open spec fn hex_digit(value: u128) -> char {
    if value < 10 {
        (value + 48) as u8 as char
    } else {
        (value + 87) as u8 as char
    }
}

/// The `k`-th hexadecimal digit of an identifier, counted from the most
/// significant one, for `k` from 0 to 31.
pub open spec fn nibble(id: u128, k: int) -> u128 {
    (id >> (((31 - k) * 4) as u128)) & 0xfu128
}

/// Whether a hyphen stands at a position of the written form.
pub open spec fn is_hyphen(position: int) -> bool {
    position == 8 || position == 13 || position == 18 || position == 23
}

/// Which digit stands at a position of the written form that holds none of
/// the four hyphens.
pub open spec fn digit_index(position: int) -> int {
    if position < 8 {
        position
    } else if position < 13 {
        position - 1
    } else if position < 18 {
        position - 2
    } else if position < 23 {
        position - 3
    } else {
        position - 4
    }
}

/// The written form of an identifier: its 32 hexadecimal digits in lower
/// case, in groups of 8, 4, 4, 4 and 12 with a hyphen between groups.
pub open spec fn hyphenated(id: u128) -> Seq<char> {
    Seq::new(
        36,
        |position: int|
            if is_hyphen(position) {
                '-'
            } else {
                hex_digit(nibble(id, digit_index(position)))
            },
    )
}

/// The position of the written form at which the `k`-th digit stands.
pub open spec fn position_of(k: int) -> int {
    if k < 8 {
        k
    } else if k < 12 {
        k + 1
    } else if k < 16 {
        k + 2
    } else if k < 20 {
        k + 3
    } else {
        k + 4
    }
}

/// Two values below 16 with the same digit are the same value.
proof fn lemma_hex_digit_is_injective(x: u128, y: u128)
    requires
        x < 16,
        y < 16,
        hex_digit(x) == hex_digit(y),
    ensures
        x == y,
{
    assert(hex_digit(x) as u32 == if x < 10 {
        x + 48
    } else {
        x + 87
    });
    assert(hex_digit(y) as u32 == if y < 10 {
        y + 48
    } else {
        y + 87
    });
}

/// Identifiers with the same written form have the same `k`-th digit.
proof fn lemma_same_digit(a: u128, b: u128, k: int)
    requires
        hyphenated(a) == hyphenated(b),
        0 <= k < 32,
    ensures
        nibble(a, k) == nibble(b, k),
{
    let position = position_of(k);
    assert(!is_hyphen(position) && digit_index(position) == k);
    assert(hyphenated(a)[position] == hex_digit(nibble(a, k)));
    assert(hyphenated(b)[position] == hex_digit(nibble(b, k)));
    let shift = ((31 - k) * 4) as u128;
    assert((a >> shift) & 0xfu128 < 16u128) by (bit_vector);
    assert((b >> shift) & 0xfu128 < 16u128) by (bit_vector);
    lemma_hex_digit_is_injective(nibble(a, k), nibble(b, k));
}

/// No two identifiers are written alike.
pub proof fn lemma_hyphenated_is_injective(a: u128, b: u128)
    requires
        hyphenated(a) == hyphenated(b),
    ensures
        a == b,
{
    lemma_same_digit(a, b, 0);
    lemma_same_digit(a, b, 1);
    lemma_same_digit(a, b, 2);
    lemma_same_digit(a, b, 3);
    lemma_same_digit(a, b, 4);
    lemma_same_digit(a, b, 5);
    lemma_same_digit(a, b, 6);
    lemma_same_digit(a, b, 7);
    lemma_same_digit(a, b, 8);
    lemma_same_digit(a, b, 9);
    lemma_same_digit(a, b, 10);
    lemma_same_digit(a, b, 11);
    lemma_same_digit(a, b, 12);
    lemma_same_digit(a, b, 13);
    lemma_same_digit(a, b, 14);
    lemma_same_digit(a, b, 15);
    lemma_same_digit(a, b, 16);
    lemma_same_digit(a, b, 17);
    lemma_same_digit(a, b, 18);
    lemma_same_digit(a, b, 19);
    lemma_same_digit(a, b, 20);
    lemma_same_digit(a, b, 21);
    lemma_same_digit(a, b, 22);
    lemma_same_digit(a, b, 23);
    lemma_same_digit(a, b, 24);
    lemma_same_digit(a, b, 25);
    lemma_same_digit(a, b, 26);
    lemma_same_digit(a, b, 27);
    lemma_same_digit(a, b, 28);
    lemma_same_digit(a, b, 29);
    lemma_same_digit(a, b, 30);
    lemma_same_digit(a, b, 31);
    assert(a == b) by (bit_vector)
        requires
            (a >> 124u128) & 0xfu128 == (b >> 124u128) & 0xfu128,
            (a >> 120u128) & 0xfu128 == (b >> 120u128) & 0xfu128,
            (a >> 116u128) & 0xfu128 == (b >> 116u128) & 0xfu128,
            (a >> 112u128) & 0xfu128 == (b >> 112u128) & 0xfu128,
            (a >> 108u128) & 0xfu128 == (b >> 108u128) & 0xfu128,
            (a >> 104u128) & 0xfu128 == (b >> 104u128) & 0xfu128,
            (a >> 100u128) & 0xfu128 == (b >> 100u128) & 0xfu128,
            (a >> 96u128) & 0xfu128 == (b >> 96u128) & 0xfu128,
            (a >> 92u128) & 0xfu128 == (b >> 92u128) & 0xfu128,
            (a >> 88u128) & 0xfu128 == (b >> 88u128) & 0xfu128,
            (a >> 84u128) & 0xfu128 == (b >> 84u128) & 0xfu128,
            (a >> 80u128) & 0xfu128 == (b >> 80u128) & 0xfu128,
            (a >> 76u128) & 0xfu128 == (b >> 76u128) & 0xfu128,
            (a >> 72u128) & 0xfu128 == (b >> 72u128) & 0xfu128,
            (a >> 68u128) & 0xfu128 == (b >> 68u128) & 0xfu128,
            (a >> 64u128) & 0xfu128 == (b >> 64u128) & 0xfu128,
            (a >> 60u128) & 0xfu128 == (b >> 60u128) & 0xfu128,
            (a >> 56u128) & 0xfu128 == (b >> 56u128) & 0xfu128,
            (a >> 52u128) & 0xfu128 == (b >> 52u128) & 0xfu128,
            (a >> 48u128) & 0xfu128 == (b >> 48u128) & 0xfu128,
            (a >> 44u128) & 0xfu128 == (b >> 44u128) & 0xfu128,
            (a >> 40u128) & 0xfu128 == (b >> 40u128) & 0xfu128,
            (a >> 36u128) & 0xfu128 == (b >> 36u128) & 0xfu128,
            (a >> 32u128) & 0xfu128 == (b >> 32u128) & 0xfu128,
            (a >> 28u128) & 0xfu128 == (b >> 28u128) & 0xfu128,
            (a >> 24u128) & 0xfu128 == (b >> 24u128) & 0xfu128,
            (a >> 20u128) & 0xfu128 == (b >> 20u128) & 0xfu128,
            (a >> 16u128) & 0xfu128 == (b >> 16u128) & 0xfu128,
            (a >> 12u128) & 0xfu128 == (b >> 12u128) & 0xfu128,
            (a >> 8u128) & 0xfu128 == (b >> 8u128) & 0xfu128,
            (a >> 4u128) & 0xfu128 == (b >> 4u128) & 0xfu128,
            (a >> 0u128) & 0xfu128 == (b >> 0u128) & 0xfu128,
    ;
}

/// The written form holds lower-case hexadecimal digits and hyphens only.
pub proof fn lemma_hyphenated_is_plain(id: u128, position: int)
    requires
        0 <= position < 36,
    ensures
        hyphenated(id)[position] == '-' || ('0' <= hyphenated(id)[position] <= '9') || ('a'
            <= hyphenated(id)[position] <= 'f'),
{
    if !is_hyphen(position) {
        let shift = ((31 - digit_index(position)) * 4) as u128;
        assert((id >> shift) & 0xfu128 < 16u128) by (bit_vector);
    }
}

/// Calls `Uuid::from_u128` and writes the identifier with `to_string`.
///
/// Trusted: the text is the hyphenated lower-case form, which is what the
/// outside crate's `Display` writes whatever the formatter's flags.
#[verifier::external_body]
pub(crate) fn written(id: u128) -> (text: String)
    ensures
        text@ == hyphenated(id),
{
    uuid::Uuid::from_u128(id).to_string()
}

} // verus!
