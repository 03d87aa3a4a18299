//! Wire primitives: bit access, the two's-complement checksum and
//! little-endian integer encodings.

use vstd::prelude::*;

verus! {

/// Bit `index` of `value`, counted from the most significant bit.
pub open spec fn ms_bit(value: u8, index: u8) -> bool {
    (value >> ((7 - index) as u8)) & 1 == 1
}

/// Tests bit `index` of `value`, where index 0 is the most significant bit.
pub fn u8_ms_bit(value: u8, index: u8) -> (set: bool)
    requires
        index <= 7,
    ensures
        set == ms_bit(value, index),
{
    assert((value << index >> 7u8 != 0) == ((value >> ((7 - index) as u8)) & 1 == 1)) by (bit_vector)
        requires
            index <= 7,
    ;
    (value << index >> 7u8) != 0
}

/// Sum of the bytes of `s` as a mathematical integer.
pub open spec fn byte_sum(s: Seq<u8>) -> int
    decreases s.len(),
{
    if s.len() == 0 {
        0
    } else {
        byte_sum(s.drop_last()) + s.last() as int
    }
}

/// The two's-complement checksum: the byte that makes the sum of the covered
/// bytes and the checksum a multiple of 256.
pub open spec fn checksum_of(s: Seq<u8>) -> u8 {
    ((256 - byte_sum(s) % 256) % 256) as u8
}

/// Computes the two's-complement checksum of `input`.
pub fn checksum(input: &[u8]) -> (sum: u8)
    ensures
        sum == checksum_of(input@),
        (byte_sum(input@) + sum as int) % 256 == 0,
{
    let mut acc: u8 = 0;
    let mut i: usize = 0;
    while i < input.len()
        invariant
            i <= input.len(),
            acc as int == byte_sum(input@.subrange(0, i as int)) % 256,
        decreases input.len() - i,
    {
        proof {
            let next = input@.subrange(0, i + 1);
            assert(next.drop_last() =~= input@.subrange(0, i as int));
            assert(next.last() == input@[i as int]);
        }
        acc = acc.wrapping_add(input[i]);
        i += 1;
    }
    proof {
        assert(input@.subrange(0, i as int) =~= input@);
    }
    0u8.wrapping_sub(acc)
}

/// 256 to the power `n`.
pub open spec fn pow256(n: nat) -> nat
    decreases n,
{
    if n == 0 {
        1
    } else {
        256 * pow256((n - 1) as nat)
    }
}

/// The `n` low-order bytes of `x`, least significant first.
pub open spec fn le_bytes(x: nat, n: nat) -> Seq<u8>
    decreases n,
{
    if n == 0 {
        Seq::empty()
    } else {
        seq![(x % 256) as u8] + le_bytes(x / 256, (n - 1) as nat)
    }
}

/// The number whose little-endian encoding is `s`.
pub open spec fn le_value(s: Seq<u8>) -> nat
    decreases s.len(),
{
    if s.len() == 0 {
        0
    } else {
        s[0] as nat + 256 * le_value(s.drop_first())
    }
}

/// The `n` low-order bytes of `x`, most significant first.
pub open spec fn be_bytes(x: nat, n: nat) -> Seq<u8> {
    le_bytes(x, n).reverse()
}

/// The number whose big-endian encoding is `s`.
pub open spec fn be_value(s: Seq<u8>) -> nat {
    le_value(s.reverse())
}

pub open spec fn u16_le(x: u16) -> Seq<u8> {
    le_bytes(x as nat, 2)
}

pub open spec fn u32_le(x: u32) -> Seq<u8> {
    le_bytes(x as nat, 4)
}

pub open spec fn u128_le(x: u128) -> Seq<u8> {
    le_bytes(x as nat, 16)
}

pub proof fn lemma_pow256_values()
    ensures
        pow256(0) == 1,
        pow256(1) == 0x100,
        pow256(2) == 0x1_0000,
        pow256(3) == 0x100_0000,
        pow256(4) == 0x1_0000_0000,
        pow256(8) == 0x1_0000_0000_0000_0000,
        pow256(16) == 0x1_0000_0000_0000_0000_0000_0000_0000_0000,
{
    reveal_with_fuel(pow256, 5);
    assert(pow256(4) == 0x1_0000_0000);
    assert(pow256(8) == 0x1_0000_0000 * pow256(4));
    assert(pow256(12) == 0x1_0000_0000 * pow256(8));
    assert(pow256(16) == 0x1_0000_0000 * pow256(12));
}

pub proof fn lemma_pow256_monotonic(a: nat, b: nat)
    requires
        a <= b,
    ensures
        1 <= pow256(a) <= pow256(b),
    decreases b,
{
    if b == 0 {
    } else if a == b {
        lemma_pow256_monotonic((a - 1) as nat, (b - 1) as nat);
    } else {
        lemma_pow256_monotonic(a, (b - 1) as nat);
    }
}

pub proof fn lemma_le_bytes_len(x: nat, n: nat)
    ensures
        le_bytes(x, n).len() == n,
    decreases n,
{
    if n > 0 {
        lemma_le_bytes_len(x / 256, (n - 1) as nat);
    }
}

pub proof fn lemma_le_value_bound(s: Seq<u8>)
    ensures
        le_value(s) < pow256(s.len()),
    decreases s.len(),
{
    if s.len() > 0 {
        lemma_le_value_bound(s.drop_first());
    }
}

/// Decoding the `n`-byte encoding of a number below `256^n` gives it back.
pub proof fn lemma_le_value_of_bytes(x: nat, n: nat)
    requires
        x < pow256(n),
    ensures
        le_value(le_bytes(x, n)) == x,
    decreases n,
{
    if n > 0 {
        let rest = le_bytes(x / 256, (n - 1) as nat);
        let all = le_bytes(x, n);
        lemma_le_bytes_len(x / 256, (n - 1) as nat);
        assert(all.drop_first() =~= rest);
        lemma_le_value_of_bytes(x / 256, (n - 1) as nat);
    }
}

/// Encoding the value of a byte string on as many bytes gives it back.
pub proof fn lemma_le_bytes_of_value(s: Seq<u8>)
    ensures
        le_bytes(le_value(s), s.len()) == s,
    decreases s.len(),
{
    if s.len() > 0 {
        lemma_le_bytes_of_value(s.drop_first());
        let v = le_value(s);
        let r = le_value(s.drop_first());
        assert(v % 256 == s[0] as nat);
        assert(v / 256 == r);
        assert(le_bytes(v, s.len()) =~= s);
    } else {
        assert(le_bytes(le_value(s), s.len()) =~= s);
    }
}

/// Two numbers below `256^n` with the same `n`-byte encoding are equal.
pub proof fn lemma_le_bytes_injective(x: nat, y: nat, n: nat)
    requires
        x < pow256(n),
        y < pow256(n),
        le_bytes(x, n) == le_bytes(y, n),
    ensures
        x == y,
{
    lemma_le_value_of_bytes(x, n);
    lemma_le_value_of_bytes(y, n);
}

pub proof fn lemma_reverse_twice(s: Seq<u8>)
    ensures
        s.reverse().reverse() == s,
{
    assert(s.reverse().reverse() =~= s);
}

/// Appends the `width` low-order bytes of `value`, least significant first.
pub fn append_le(main_vec: &mut Vec<u8>, value: u128, width: usize)
    ensures
        final(main_vec)@ == old(main_vec)@ + le_bytes(value as nat, width as nat),
{
    let mut rest: u128 = value;
    let mut i: usize = 0;
    proof {
        assert(main_vec@ + le_bytes(value as nat, width as nat) =~= old(main_vec)@ + le_bytes(
            value as nat,
            width as nat,
        ));
    }
    while i < width
        invariant
            i <= width,
            main_vec@ + le_bytes(rest as nat, (width - i) as nat) == old(main_vec)@ + le_bytes(
                value as nat,
                width as nat,
            ),
        decreases width - i,
    {
        let ghost before = main_vec@;
        main_vec.push((rest % 256) as u8);
        proof {
            let tail = le_bytes((rest / 256) as nat, (width - i - 1) as nat);
            assert(le_bytes(rest as nat, (width - i) as nat) == seq![(rest % 256) as u8] + tail);
            assert(main_vec@ + tail =~= before + (seq![(rest % 256) as u8] + tail));
        }
        rest = rest / 256;
        i += 1;
    }
    proof {
        assert(le_bytes(rest as nat, 0) =~= Seq::<u8>::empty());
        assert(main_vec@ + Seq::<u8>::empty() =~= main_vec@);
    }
}

/// Appends the `width` low-order bytes of `value`, most significant first.
pub fn append_be(main_vec: &mut Vec<u8>, value: u128, width: usize)
    ensures
        final(main_vec)@ == old(main_vec)@ + be_bytes(value as nat, width as nat),
{
    let mut low_first: Vec<u8> = Vec::new();
    append_le(&mut low_first, value, width);
    proof {
        lemma_le_bytes_len(value as nat, width as nat);
        assert(low_first@ =~= le_bytes(value as nat, width as nat));
    }
    let mut i: usize = 0;
    while i < width
        invariant
            i <= width,
            low_first@ == le_bytes(value as nat, width as nat),
            low_first@.len() == width,
            main_vec@ == old(main_vec)@ + be_bytes(value as nat, width as nat).subrange(
                0,
                i as int,
            ),
        decreases width - i,
    {
        main_vec.push(low_first[width - 1 - i]);
        proof {
            let be = be_bytes(value as nat, width as nat);
            assert(be[i as int] == low_first@[width - 1 - i]);
            assert(main_vec@ =~= old(main_vec)@ + be.subrange(0, i + 1));
        }
        i += 1;
    }
    proof {
        let be = be_bytes(value as nat, width as nat);
        assert(be.subrange(0, width as int) =~= be);
    }
}

/// Reads `width` bytes of `bytes` from `start` as a little-endian number.
pub fn read_le(bytes: &[u8], start: usize, width: usize) -> (value: u128)
    requires
        width <= 16,
        start + width <= bytes.len(),
    ensures
        value == le_value(bytes@.subrange(start as int, start + width)),
        value < pow256(width as nat),
{
    let mut acc: u128 = 0;
    let mut i: usize = width;
    proof {
        assert(bytes@.subrange(start + width, start + width) =~= Seq::<u8>::empty());
        lemma_pow256_values();
    }
    while i > 0
        invariant
            i <= width <= 16,
            start + width <= bytes.len(),
            acc == le_value(bytes@.subrange(start + i, start + width)),
            acc < pow256((width - i) as nat),
        decreases i,
    {
        proof {
            let longer = bytes@.subrange(start + i - 1, start + width);
            assert(longer.drop_first() =~= bytes@.subrange(start + i, start + width));
            lemma_pow256_monotonic((width - i + 1) as nat, 16);
            lemma_pow256_values();
        }
        i -= 1;
        acc = acc * 256 + bytes[start + i] as u128;
    }
    acc
}

/// Reads `width` bytes of `bytes` from `start` as a big-endian number.
pub fn read_be(bytes: &[u8], start: usize, width: usize) -> (value: u128)
    requires
        width <= 16,
        start + width <= bytes.len(),
    ensures
        value == be_value(bytes@.subrange(start as int, start + width)),
        value < pow256(width as nat),
{
    let mut acc: u128 = 0;
    let mut i: usize = 0;
    proof {
        assert(bytes@.subrange(start as int, start as int).reverse() =~= Seq::<u8>::empty());
        lemma_pow256_values();
    }
    while i < width
        invariant
            i <= width <= 16,
            start + width <= bytes.len(),
            acc == be_value(bytes@.subrange(start as int, start + i)),
            acc < pow256(i as nat),
        decreases width - i,
    {
        proof {
            let longer = bytes@.subrange(start as int, start + i + 1).reverse();
            assert(longer.drop_first() =~= bytes@.subrange(start as int, start + i).reverse());
            assert(longer[0] == bytes@[start + i]);
            lemma_pow256_monotonic((i + 1) as nat, 16);
            lemma_pow256_values();
        }
        acc = acc * 256 + bytes[start + i] as u128;
        i += 1;
    }
    acc
}

/// Appends the little-endian encoding of a 32-bit integer.
pub fn append_u32_to_vec(main_vec: &mut Vec<u8>, append: u32)
    ensures
        final(main_vec)@ == old(main_vec)@ + u32_le(append),
{
    append_le(main_vec, append as u128, 4);
}

/// Appends the little-endian encoding of a 128-bit integer.
pub fn append_u128_to_vec(main_vec: &mut Vec<u8>, append: u128)
    ensures
        final(main_vec)@ == old(main_vec)@ + u128_le(append),
{
    append_le(main_vec, append, 16);
}

/// Appends the little-endian encoding of a 16-bit integer.
pub fn append_u16_to_vec(main_vec: &mut Vec<u8>, append: u16)
    ensures
        final(main_vec)@ == old(main_vec)@ + u16_le(append),
{
    append_le(main_vec, append as u128, 2);
}

/// Reads a little-endian 16-bit integer at `start`.
pub fn read_u16_le(bytes: &[u8], start: usize) -> (value: u16)
    requires
        start + 2 <= bytes.len(),
    ensures
        value == le_value(bytes@.subrange(start as int, start + 2)),
        u16_le(value) == bytes@.subrange(start as int, start + 2),
{
    let wide = read_le(bytes, start, 2);
    proof {
        lemma_pow256_values();
        lemma_le_bytes_of_value(bytes@.subrange(start as int, start + 2));
    }
    wide as u16
}

/// Reads a little-endian 32-bit integer at `start`.
pub fn read_u32_le(bytes: &[u8], start: usize) -> (value: u32)
    requires
        start + 4 <= bytes.len(),
    ensures
        value == le_value(bytes@.subrange(start as int, start + 4)),
        u32_le(value) == bytes@.subrange(start as int, start + 4),
{
    let wide = read_le(bytes, start, 4);
    proof {
        lemma_pow256_values();
        lemma_le_bytes_of_value(bytes@.subrange(start as int, start + 4));
    }
    wide as u32
}

/// Reads a little-endian 128-bit integer at `start`.
pub fn read_u128_le(bytes: &[u8], start: usize) -> (value: u128)
    requires
        start + 16 <= bytes.len(),
    ensures
        value == le_value(bytes@.subrange(start as int, start + 16)),
        u128_le(value) == bytes@.subrange(start as int, start + 16),
{
    let wide = read_le(bytes, start, 16);
    proof {
        lemma_le_bytes_of_value(bytes@.subrange(start as int, start + 16));
    }
    wide
}

/// Appends `other` to `main_vec`.
pub fn append_bytes(main_vec: &mut Vec<u8>, other: &[u8])
    ensures
        final(main_vec)@ == old(main_vec)@ + other@,
{
    let mut i: usize = 0;
    while i < other.len()
        invariant
            i <= other.len(),
            main_vec@ == old(main_vec)@ + other@.subrange(0, i as int),
        decreases other.len() - i,
    {
        main_vec.push(other[i]);
        proof {
            assert(main_vec@ =~= old(main_vec)@ + other@.subrange(0, i + 1));
        }
        i += 1;
    }
    proof {
        assert(other@.subrange(0, other.len() as int) =~= other@);
    }
}

/// Appends `count` copies of `byte` to `main_vec`.
pub fn append_repeated(main_vec: &mut Vec<u8>, byte: u8, count: usize)
    ensures
        final(main_vec)@ == old(main_vec)@ + Seq::new(count as nat, |i: int| byte),
{
    let mut i: usize = 0;
    while i < count
        invariant
            i <= count,
            main_vec@ == old(main_vec)@ + Seq::new(i as nat, |j: int| byte),
        decreases count - i,
    {
        main_vec.push(byte);
        proof {
            assert(main_vec@ =~= old(main_vec)@ + Seq::new((i + 1) as nat, |j: int| byte));
        }
        i += 1;
    }
}

/// Copies `bytes[start..end]` into a new vector.
pub fn copy_range(bytes: &[u8], start: usize, end: usize) -> (out: Vec<u8>)
    requires
        start <= end <= bytes.len(),
    ensures
        out@ == bytes@.subrange(start as int, end as int),
{
    let mut out: Vec<u8> = Vec::new();
    let mut i: usize = start;
    while i < end
        invariant
            start <= i <= end <= bytes.len(),
            out@ == bytes@.subrange(start as int, i as int),
        decreases end - i,
    {
        out.push(bytes[i]);
        proof {
            assert(out@ =~= bytes@.subrange(start as int, i + 1));
        }
        i += 1;
    }
    out
}

/// Whether two byte strings are equal.
pub fn bytes_eq(a: &[u8], b: &[u8]) -> (same: bool)
    ensures
        same == (a@ == b@),
{
    if a.len() != b.len() {
        return false;
    }
    let mut i: usize = 0;
    while i < a.len()
        invariant
            i <= a.len(),
            a.len() == b.len(),
            a@.subrange(0, i as int) == b@.subrange(0, i as int),
        decreases a.len() - i,
    {
        if a[i] != b[i] {
            return false;
        }
        proof {
            assert(a@.subrange(0, i + 1) =~= a@.subrange(0, i as int).push(a@[i as int]));
            assert(b@.subrange(0, i + 1) =~= b@.subrange(0, i as int).push(b@[i as int]));
        }
        i += 1;
    }
    proof {
        assert(a@.subrange(0, a.len() as int) =~= a@);
        assert(b@.subrange(0, b.len() as int) =~= b@);
    }
    true
}

} // verus!
