//! 128-bit integers and UUIDs as the engine holds them: a signed high half
//! and an unsigned low half of 64 bits each.

use vstd::prelude::*;

verus! {

/// The high half of a 128-bit integer in two's complement: the number
/// divided by 2^64, rounded down.
pub open spec fn int128_high(x: int) -> int {
    x / 0x1_0000_0000_0000_0000
}

/// The low half of a 128-bit integer in two's complement: what is left
/// of the number beside its high half.
pub open spec fn int128_low(x: int) -> int {
    x % 0x1_0000_0000_0000_0000
}

/// The number that two halves make.
pub open spec fn int128_join(high: int, low: int) -> int {
    low + high * 0x1_0000_0000_0000_0000
}

/// The signed number that stands for a UUID: the UUID's 128 bits with the
/// highest bit flipped, read in two's complement.  UUIDs are ordered as
/// their signed numbers are.
pub open spec fn uuid_to_signed(uuid: int) -> int {
    uuid - 0x8000_0000_0000_0000_0000_0000_0000_0000
}

/// The UUID that a signed number stands for.
pub open spec fn uuid_from_signed(x: int) -> int {
    x + 0x8000_0000_0000_0000_0000_0000_0000_0000
}

/// The character of a hexadecimal digit, in lower case.
pub open spec fn hex_char(d: int) -> char {
    if d == 0 {
        '0'
    } else if d == 1 {
        '1'
    } else if d == 2 {
        '2'
    } else if d == 3 {
        '3'
    } else if d == 4 {
        '4'
    } else if d == 5 {
        '5'
    } else if d == 6 {
        '6'
    } else if d == 7 {
        '7'
    } else if d == 8 {
        '8'
    } else if d == 9 {
        '9'
    } else if d == 10 {
        'a'
    } else if d == 11 {
        'b'
    } else if d == 12 {
        'c'
    } else if d == 13 {
        'd'
    } else if d == 14 {
        'e'
    } else {
        'f'
    }
}

/// 16 to the power `n`.
pub open spec fn pow16(n: nat) -> int
    decreases n,
{
    if n == 0 {
        1
    } else {
        16 * pow16((n - 1) as nat)
    }
}

/// The hexadecimal digit of a 128-bit number at position `k`, the highest
/// digit being at position 0 and the lowest at position 31.
pub open spec fn hex_digit(x: int, k: int) -> int
    recommends
        0 <= k < 32,
{
    (x / pow16((31 - k) as nat)) % 16
}

/// The text of a UUID: its 32 hexadecimal digits in lower case, highest
/// first, in groups of 8, 4, 4, 4 and 12 with a hyphen between groups.
pub open spec fn uuid_text(uuid: u128) -> Seq<char> {
    Seq::new(
        36,
        |i: int|
            if i == 8 || i == 13 || i == 18 || i == 23 {
                '-'
            } else if i < 8 {
                hex_char(hex_digit(uuid as int, i))
            } else if i < 13 {
                hex_char(hex_digit(uuid as int, i - 1))
            } else if i < 18 {
                hex_char(hex_digit(uuid as int, i - 2))
            } else if i < 23 {
                hex_char(hex_digit(uuid as int, i - 3))
            } else {
                hex_char(hex_digit(uuid as int, i - 4))
            },
    )
}

/// Formats a UUID with the `uuid` crate: `Uuid::from_u128`, which takes
/// the number's bytes highest first, and `Display` for `Uuid`, which
/// writes them hyphenated in lower case.
#[verifier::external_body]
pub(crate) fn uuid_to_string(uuid: u128) -> (s: String)
    ensures
        s@ == uuid_text(uuid),
{
    uuid::Uuid::from_u128(uuid).to_string()
}

/// Splits a 128-bit integer into its high and low halves.
pub fn split_int128(x: i128) -> (r: (i64, u64))
    ensures
        r.0 == int128_high(x as int),
        r.1 == int128_low(x as int),
{
    assert((x >> 64) == x / 0x1_0000_0000_0000_0000) by (bit_vector);
    assert((x as u64) == x % 0x1_0000_0000_0000_0000) by (bit_vector);
    assert(-0x8000_0000_0000_0000 <= (x >> 64) < 0x8000_0000_0000_0000) by (bit_vector);
    ((x >> 64) as i64, #[verifier::truncate] (x as u64))
}

/// Makes a 128-bit integer of its high and low halves: the low half plus
/// the high half shifted left by 64 bits.
pub fn join_int128(high: i64, low: u64) -> (r: i128)
    ensures
        r == int128_join(high as int, low as int),
{
    let h: i128 = high as i128;
    assert((h << 64) == h * 0x1_0000_0000_0000_0000) by (bit_vector)
        requires
            -0x8000_0000_0000_0000 <= h < 0x8000_0000_0000_0000,
    ;
    (low as i128) + (h << 64)
}

/// The signed number that stands for a UUID.
pub fn uuid_to_int128(uuid: u128) -> (r: i128)
    ensures
        r == uuid_to_signed(uuid as int),
{
    let s: i128 = #[verifier::truncate] (uuid as i128);
    assert((uuid as i128) ^ (1i128 << 127) == uuid - 0x8000_0000_0000_0000_0000_0000_0000_0000)
        by (bit_vector);
    s ^ (1i128 << 127)
}

/// The UUID that a signed number stands for.
pub fn uuid_from_int128(x: i128) -> (r: u128)
    ensures
        r == uuid_from_signed(x as int),
{
    let u: u128 = #[verifier::truncate] (x as u128);
    assert((x as u128) ^ (1u128 << 127) == x + 0x8000_0000_0000_0000_0000_0000_0000_0000)
        by (bit_vector);
    u ^ (1u128 << 127)
}

/// The halves of a 128-bit integer make the integer again, and lie in the
/// ranges of a signed and of an unsigned 64-bit number.
pub proof fn lemma_int128_round_trip(x: i128)
    ensures
        int128_join(int128_high(x as int), int128_low(x as int)) == x,
        -0x8000_0000_0000_0000 <= int128_high(x as int) < 0x8000_0000_0000_0000,
        0 <= int128_low(x as int) < 0x1_0000_0000_0000_0000,
{
}

/// The halves that are made of two 64-bit numbers are these numbers.
pub proof fn lemma_int128_halves(high: i64, low: u64)
    ensures
        int128_high(int128_join(high as int, low as int)) == high,
        int128_low(int128_join(high as int, low as int)) == low,
        -0x8000_0000_0000_0000_0000_0000_0000_0000 <= int128_join(high as int, low as int)
            < 0x8000_0000_0000_0000_0000_0000_0000_0000,
{
}

/// The signed number of a UUID stands for that UUID, and UUIDs are in the
/// order of their signed numbers.
pub proof fn lemma_uuid_round_trip(a: u128, b: u128)
    ensures
        uuid_from_signed(uuid_to_signed(a as int)) == a,
        a < b <==> uuid_to_signed(a as int) < uuid_to_signed(b as int),
{
}

} // verus!
