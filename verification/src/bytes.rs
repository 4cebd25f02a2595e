//! Fixed-width integers as bytes, in either byte order.

use vstd::prelude::*;

verus! {

/// The order in which the bytes of a number are laid out.
#[derive(Clone, Copy, Debug, PartialEq, Eq, Structural)]
pub enum ByteOrder {
    /// The lowest byte comes first.
    LittleEndian,
    /// The highest byte comes first.
    BigEndian,
}

/// Asks std's `u16::to_ne_bytes` for the first byte of the number 1 in
/// this machine's layout.  Nothing is claimed of it: the answer depends
/// on the machine.
#[verifier::external_body]
fn first_native_byte_of_one() -> (r: u8) {
    1u16.to_ne_bytes()[0]
}

impl ByteOrder {
    /// The byte order of the machine that runs the program.
    pub fn native() -> ByteOrder {
        let first: u8 = first_native_byte_of_one();
        ByteOrder::of_first_byte_of_one(first)
    }

    /// The byte order in which the number 1, laid out in two bytes, starts
    /// with the byte `first`: the lowest byte first if that byte is 1, the
    /// highest first otherwise.
    pub fn of_first_byte_of_one(first: u8) -> (r: ByteOrder)
        ensures
            r == (if first == 1 {
                ByteOrder::LittleEndian
            } else {
                ByteOrder::BigEndian
            }),
            first <= 1 ==> uint_bytes(1, 2, r)[0] == first,
    {
        proof {
            reveal_with_fuel(le_bytes, 3);
            assert(le_bytes(1, 2) =~= seq![1u8, 0u8]);
            assert(le_bytes(1, 2).reverse() =~= seq![0u8, 1u8]);
        }
        if first == 1 {
            ByteOrder::LittleEndian
        } else {
            ByteOrder::BigEndian
        }
    }
}

/// 256 to the power `n`.
pub open spec fn pow256(n: nat) -> int
    decreases n,
{
    if n == 0 {
        1
    } else {
        256 * pow256((n - 1) as nat)
    }
}

/// The `width` lowest bytes of a number, the lowest first.
pub open spec fn le_bytes(x: int, width: nat) -> Seq<u8>
    decreases width,
{
    if width == 0 {
        Seq::empty()
    } else {
        seq![(x % 256) as u8] + le_bytes(x / 256, (width - 1) as nat)
    }
}

/// The number whose bytes, the lowest first, are `bytes`.
pub open spec fn le_value(bytes: Seq<u8>) -> int
    decreases bytes.len(),
{
    if bytes.len() == 0 {
        0
    } else {
        bytes[0] + 256 * le_value(bytes.drop_first())
    }
}

/// The `width` lowest bytes of a number in a byte order.
pub open spec fn uint_bytes(x: int, width: nat, order: ByteOrder) -> Seq<u8> {
    match order {
        ByteOrder::LittleEndian => le_bytes(x, width),
        ByteOrder::BigEndian => le_bytes(x, width).reverse(),
    }
}

/// The number that bytes in a byte order stand for.
pub open spec fn uint_value(bytes: Seq<u8>, order: ByteOrder) -> int {
    match order {
        ByteOrder::LittleEndian => le_value(bytes),
        ByteOrder::BigEndian => le_value(bytes.reverse()),
    }
}

/// The unsigned number with the bits of a signed number of `width` bytes
/// in two's complement.
pub open spec fn to_unsigned(x: int, width: nat) -> int {
    if x < 0 {
        x + pow256(width)
    } else {
        x
    }
}

/// The signed number of `width` bytes whose bits in two's complement are
/// those of an unsigned number.
pub open spec fn to_signed(u: int, width: nat) -> int {
    if 2 * u >= pow256(width) {
        u - pow256(width)
    } else {
        u
    }
}

/// The powers of 256 that the widths of the integer types need.
pub proof fn lemma_pow256()
    ensures
        pow256(0) == 1,
        pow256(1) == 0x100,
        pow256(2) == 0x1_0000,
        pow256(3) == 0x100_0000,
        pow256(4) == 0x1_0000_0000,
        pow256(5) == 0x100_0000_0000,
        pow256(6) == 0x1_0000_0000_0000,
        pow256(7) == 0x100_0000_0000_0000,
        pow256(8) == 0x1_0000_0000_0000_0000,
{
    reveal_with_fuel(pow256, 9);
}

/// `width` bytes hold a number below 256 to the power `width`.
pub proof fn lemma_le_value_bound(bytes: Seq<u8>)
    ensures
        0 <= le_value(bytes) < pow256(bytes.len()),
    decreases bytes.len(),
{
    if bytes.len() > 0 {
        lemma_le_value_bound(bytes.drop_first());
    }
}

/// The bytes of a number have the width asked for, and stand for the
/// number if it fits the width.
pub proof fn lemma_le_round_trip(x: int, width: nat)
    ensures
        le_bytes(x, width).len() == width,
        0 <= x < pow256(width) ==> le_value(le_bytes(x, width)) == x,
    decreases width,
{
    if width > 0 {
        lemma_le_round_trip(x / 256, (width - 1) as nat);
        let b = le_bytes(x, width);
        assert(b.drop_first() =~= le_bytes(x / 256, (width - 1) as nat));
    }
}

/// The bytes that stand for a number are the bytes of that number.
pub proof fn lemma_le_bytes_of_value(bytes: Seq<u8>)
    ensures
        le_bytes(le_value(bytes), bytes.len()) == bytes,
    decreases bytes.len(),
{
    if bytes.len() > 0 {
        let rest = bytes.drop_first();
        lemma_le_bytes_of_value(rest);
        lemma_le_value_bound(rest);
        let x = le_value(bytes);
        assert(x % 256 == bytes[0] as int);
        assert(x / 256 == le_value(rest));
        assert(le_bytes(x, bytes.len()) =~= bytes);
    } else {
        assert(le_bytes(le_value(bytes), bytes.len()) =~= bytes);
    }
}

/// Reversing a sequence twice gives the sequence.
pub proof fn lemma_reverse_twice(bytes: Seq<u8>)
    ensures
        bytes.reverse().reverse() == bytes,
        bytes.reverse().len() == bytes.len(),
{
    assert(bytes.reverse().reverse() =~= bytes);
}

/// In either byte order, the bytes of a number that fits the width stand
/// for the number, and bytes are the bytes of the number they stand
/// for.
pub proof fn lemma_uint_round_trip(x: int, bytes: Seq<u8>, width: nat, order: ByteOrder)
    ensures
        uint_bytes(x, width, order).len() == width,
        0 <= x < pow256(width) ==> uint_value(uint_bytes(x, width, order), order) == x,
        0 <= uint_value(bytes, order) < pow256(bytes.len()),
        uint_bytes(uint_value(bytes, order), bytes.len(), order) == bytes,
{
    lemma_le_round_trip(x, width);
    lemma_reverse_twice(le_bytes(x, width));
    lemma_reverse_twice(bytes);
    lemma_le_value_bound(bytes);
    lemma_le_value_bound(bytes.reverse());
    lemma_le_bytes_of_value(bytes);
    lemma_le_bytes_of_value(bytes.reverse());
}

/// A signed number that fits the width is the signed number of its
/// unsigned form, and the other way round.
pub proof fn lemma_signed_round_trip(x: int, u: int, width: nat)
    requires
        width > 0,
    ensures
        -pow256(width) <= 2 * x < pow256(width) ==> 0 <= to_unsigned(x, width) < pow256(width)
            && to_signed(to_unsigned(x, width), width) == x,
        0 <= u < pow256(width) ==> -pow256(width) <= 2 * to_signed(u, width) < pow256(width)
            && to_unsigned(to_signed(u, width), width) == u,
{
    assert(pow256(width) == 256 * pow256((width - 1) as nat));
    lemma_pow256_positive((width - 1) as nat);
}

/// Every power of 256 is positive.
pub proof fn lemma_pow256_positive(n: nat)
    ensures
        pow256(n) > 0,
    decreases n,
{
    if n > 0 {
        lemma_pow256_positive((n - 1) as nat);
    }
}

/// Appends the `width` lowest bytes of a number to `out`, in a byte
/// order.
pub(crate) fn append_uint(out: &mut Vec<u8>, x: u64, width: usize, order: ByteOrder)
    requires
        width <= 8,
    ensures
        final(out)@ == old(out)@ + uint_bytes(x as int, width as nat, order),
{
    let mut low_first: Vec<u8> = Vec::new();
    let mut rest: u64 = x;
    let mut i: usize = 0;
    while i < width
        invariant
            i <= width <= 8,
            low_first.len() == i,
            le_bytes(x as int, width as nat) == low_first@ + le_bytes(
                rest as int,
                (width - i) as nat,
            ),
        decreases width - i,
    {
        let byte: u8 = (rest % 256) as u8;
        let ghost before = low_first@;
        low_first.push(byte);
        proof {
            assert(le_bytes(rest as int, (width - i) as nat) == seq![byte] + le_bytes(
                rest as int / 256,
                (width - i - 1) as nat,
            ));
            assert(low_first@ + le_bytes(rest as int / 256, (width - i - 1) as nat) =~= before + (
            seq![byte] + le_bytes(rest as int / 256, (width - i - 1) as nat)));
        }
        rest = rest / 256;
        i += 1;
    }
    assert(le_bytes(rest as int, 0) =~= Seq::empty());
    assert(low_first@ =~= le_bytes(x as int, width as nat));
    let ghost start = out@;
    match order {
        ByteOrder::LittleEndian => {
            let mut j: usize = 0;
            while j < width
                invariant
                    j <= width,
                    low_first.len() == width,
                    out@ == start + low_first@.take(j as int),
                decreases width - j,
            {
                out.push(low_first[j]);
                assert(low_first@.take(j as int + 1) =~= low_first@.take(j as int).push(
                    low_first@[j as int],
                ));
                assert(start + low_first@.take(j as int + 1) =~= (start + low_first@.take(
                    j as int,
                )).push(low_first@[j as int]));
                j += 1;
            }
            assert(low_first@.take(width as int) =~= low_first@);
        },
        ByteOrder::BigEndian => {
            let mut j: usize = 0;
            while j < width
                invariant
                    j <= width,
                    low_first.len() == width,
                    out@ == start + low_first@.reverse().take(j as int),
                decreases width - j,
            {
                out.push(low_first[width - 1 - j]);
                assert(low_first@.reverse().take(j as int + 1) =~= low_first@.reverse().take(
                    j as int,
                ).push(low_first@[width - 1 - j]));
                assert(start + low_first@.reverse().take(j as int + 1) =~= (start
                    + low_first@.reverse().take(j as int)).push(low_first@[width - 1 - j]));
                j += 1;
            }
            assert(low_first@.reverse().take(width as int) =~= low_first@.reverse());
        },
    }
}

/// Reads the number that the `width` bytes from `start` on stand for, in
/// a byte order.
pub(crate) fn read_uint(bytes: &Vec<u8>, start: usize, width: usize, order: ByteOrder) -> (r: u64)
    requires
        width <= 8,
        start + width <= bytes.len(),
    ensures
        r == uint_value(bytes@.subrange(start as int, start + width), order),
        r < pow256(width as nat),
{
    let ghost part = bytes@.subrange(start as int, start + width);
    let mut acc: u64 = 0;
    proof {
        lemma_pow256();
    }
    match order {
        ByteOrder::LittleEndian => {
            let mut i: usize = width;
            assert(part.skip(width as int) =~= Seq::empty());
            while i > 0
                invariant
                    i <= width <= 8,
                    start + width <= bytes.len(),
                    part == bytes@.subrange(start as int, start + width),
                    acc == le_value(part.skip(i as int)),
                    acc < pow256((width - i) as nat),
                decreases i,
            {
                proof {
                    lemma_pow256();
                    let s = part.skip(i as int - 1);
                    assert(s.drop_first() =~= part.skip(i as int));
                    assert(s[0] == bytes@[start + i - 1]);
                    assert(pow256((width - i + 1) as nat) == 256 * pow256((width - i) as nat));
                }
                acc = acc * 256 + (bytes[start + i - 1] as u64);
                i -= 1;
            }
            assert(part.skip(0) =~= part);
        },
        ByteOrder::BigEndian => {
            let mut i: usize = 0;
            assert(part.take(0).reverse() =~= Seq::empty());
            while i < width
                invariant
                    i <= width <= 8,
                    start + width <= bytes.len(),
                    part == bytes@.subrange(start as int, start + width),
                    acc == le_value(part.take(i as int).reverse()),
                    acc < pow256(i as nat),
                decreases width - i,
            {
                proof {
                    lemma_pow256();
                    let s = part.take(i as int + 1).reverse();
                    assert(s.drop_first() =~= part.take(i as int).reverse());
                    assert(s[0] == bytes@[start + i]);
                    assert(pow256((i + 1) as nat) == 256 * pow256(i as nat));
                }
                acc = acc * 256 + (bytes[start + i] as u64);
                i += 1;
            }
            assert(part.take(width as int) =~= part);
        },
    }
    acc
}

} // verus!
