//! Access to bit ranges of a byte buffer, most significant bit first.
//!
//! Bit `i` of a buffer is bit `7 - i % 8` of byte `i / 8`: bit 0 is the most
//! significant bit of the first byte. A field of width `w` at offset `off`
//! holds the unsigned integer whose binary digits, most significant first, are
//! the bits `off .. off + w`.

use vstd::prelude::*;

verus! {

/// Bit `i` of `buf`, counted from the most significant bit of byte 0.
pub open spec fn bit_at(buf: Seq<u8>, i: int) -> u8 {
    (buf[i / 8] >> ((7 - i % 8) as u8)) & 1u8
}

/// The unsigned integer held by the `w` bits of `buf` that start at bit `off`.
pub open spec fn bits_of(buf: Seq<u8>, off: int, w: nat) -> int
    decreases w,
{
    if w == 0 {
        0
    } else {
        bits_of(buf, off, (w - 1) as nat) * 2 + bit_at(buf, off + w - 1) as int
    }
}

proof fn lemma_accumulate_bit(r: u64, j: u64, b: u8)
    by (bit_vector)
    requires
        j < 64,
        r >> j == 0,
        b <= 1,
    ensures
        r * 2 + b <= 0xffff_ffff_ffff_ffffu64,
        ((r * 2 + b) as u64) >> ((j + 1) as u64) == 0,
{
}

/// Reads the `w`-bit field at bit offset `off` of `buf`.
pub fn get_bits<const N: usize>(buf: &[u8; N], off: usize, w: usize) -> (r: u64)
    requires
        w <= 64,
        off + w <= 8 * N <= usize::MAX,
    ensures
        r as int == bits_of(buf@, off as int, w as nat),
        r >> w == 0,
{
    let mut r: u64 = 0;
    let mut j: usize = 0;
    assert(0u64 >> 0usize == 0) by (bit_vector);
    while j < w
        invariant
            j <= w <= 64,
            off + w <= 8 * N <= usize::MAX,
            r as int == bits_of(buf@, off as int, j as nat),
            r >> j == 0,
        decreases w - j,
    {
        let p: usize = off + j;
        let byte: u8 = buf[p / 8];
        let b: u8 = (byte >> ((7 - p % 8) as u8)) & 1;
        assert(b <= 1) by (bit_vector)
            requires
                b == (byte >> ((7 - p % 8) as u8)) & 1,
        ;
        proof {
            lemma_accumulate_bit(r, j as u64, b);
        }
        r = r * 2 + b as u64;
        j = j + 1;
    }
    r
}

/// The `w` least significant bits of `v` (all of `v` when `w` is 64 or more).
pub open spec fn low_bits(v: u64, w: u64) -> u64 {
    if w >= 64 {
        v
    } else {
        v & (((1u64 << w) - 1) as u64)
    }
}

/// `a` and `b` have the same bits everywhere but in the field of width `w`
/// at bit offset `off`.
pub open spec fn same_outside(a: Seq<u8>, b: Seq<u8>, off: int, w: int) -> bool {
    forall|i: int|
        0 <= i < 8 * a.len() && !(off <= i < off + w) ==> #[trigger] bit_at(a, i) == bit_at(b, i)
}

/// A value below `2^w` is its own `w` low bits.
pub proof fn lemma_low_bits_of_fitting(v: u64, w: u64)
    by (bit_vector)
    requires
        w <= 64,
        v >> w == 0,
    ensures
        low_bits(v, w) == v,
{
}

/// A byte is its own 8 low bits.
pub proof fn lemma_low_bits_u8(v: u8)
    ensures
        low_bits(v as u64, 8) == v,
{
    assert((v as u64) >> 8u64 == 0) by (bit_vector);
    lemma_low_bits_of_fitting(v as u64, 8);
}

/// A 32-bit value is its own 32 low bits.
pub proof fn lemma_low_bits_u32(v: u32)
    ensures
        low_bits(v as u64, 32) == v,
{
    assert((v as u64) >> 32u64 == 0) by (bit_vector);
    lemma_low_bits_of_fitting(v as u64, 32);
}

/// A value below `2^w` fits the integer types of `w` bits or more.
pub proof fn lemma_fits(r: u64, w: u64)
    by (bit_vector)
    requires
        w <= 64,
        r >> w == 0,
    ensures
        w <= 4 ==> r <= 0xf,
        w <= 8 ==> r <= 0xff,
        w <= 16 ==> r <= 0xffff,
        w <= 32 ==> r <= 0xffff_ffff,
{
}

/// Two buffers that agree on the bits of a field hold the same value there.
pub proof fn lemma_bits_of_frame(a: Seq<u8>, b: Seq<u8>, off: int, w: nat)
    requires
        forall|i: int| off <= i < off + w ==> bit_at(a, i) == bit_at(b, i),
    ensures
        bits_of(a, off, w) == bits_of(b, off, w),
    decreases w,
{
    if w > 0 {
        lemma_bits_of_frame(a, b, off, (w - 1) as nat);
    }
}

/// Every field of an all-zero buffer holds zero.
pub proof fn lemma_bits_of_zero(buf: Seq<u8>, off: int, w: nat)
    requires
        0 <= off,
        off + w <= 8 * buf.len(),
        forall|k: int| 0 <= k < buf.len() ==> buf[k] == 0,
    ensures
        bits_of(buf, off, w) == 0,
    decreases w,
{
    if w > 0 {
        lemma_bits_of_zero(buf, off, (w - 1) as nat);
        let i = off + w - 1;
        let byte = buf[i / 8];
        let k = (7 - i % 8) as u8;
        assert((byte >> k) & 1u8 == 0) by (bit_vector)
            requires
                byte == 0,
        ;
    }
}

proof fn lemma_low_bits_fit(v: u64, w: u64)
    by (bit_vector)
    requires
        w <= 64,
    ensures
        (if w >= 64 {
            v
        } else {
            v & (((1u64 << w) - 1) as u64)
        }) >> w == 0,
{
}

proof fn lemma_shift_step(v: u64, s: u64)
    by (bit_vector)
    requires
        1 <= s <= 64,
    ensures
        (v >> s) * 2 + ((v >> ((s - 1) as u64)) & 1) == v >> ((s - 1) as u64),
{
}

proof fn lemma_set_bit(byte: u8, nb: u8, k: u8, m: u8, b: u8)
    by (bit_vector)
    requires
        k < 8,
        m < 8,
        b <= 1,
        nb == (if b == 1 {
            byte | (1u8 << k)
        } else {
            byte & !(1u8 << k)
        }),
    ensures
        (nb >> k) & 1 == b,
        m != k ==> (nb >> m) & 1 == (byte >> m) & 1,
{
}

/// Writes the `w` least significant bits of `value` into the `w`-bit field at
/// bit offset `off` of `buf`, leaving every other bit as it was.
pub fn set_bits<const N: usize>(buf: &mut [u8; N], off: usize, w: usize, value: u64)
    requires
        w <= 64,
        off + w <= 8 * N <= usize::MAX,
    ensures
        bits_of(final(buf)@, off as int, w as nat) == low_bits(value, w as u64) as int,
        same_outside(final(buf)@, old(buf)@, off as int, w as int),
{
    let v: u64 = if w == 64 {
        value
    } else {
        assert(1u64 << w >= 1) by (bit_vector)
            requires
                w < 64,
        ;
        value & ((1u64 << w) - 1)
    };
    proof {
        lemma_low_bits_fit(value, w as u64);
    }
    let ghost start = buf@;
    let mut j: usize = 0;
    while j < w
        invariant
            j <= w <= 64,
            off + w <= 8 * N <= usize::MAX,
            v == low_bits(value, w as u64),
            v >> w == 0,
            bits_of(buf@, off as int, j as nat) == (v >> ((w - j) as u64)) as int,
            forall|i: int|
                0 <= i < 8 * N && !(off <= i < off + j) ==> #[trigger] bit_at(buf@, i)
                    == bit_at(start, i),
        decreases w - j,
    {
        let p: usize = off + j;
        let idx: usize = p / 8;
        let k: u8 = (7 - p % 8) as u8;
        let s: usize = w - j - 1;
        let bv: u64 = (v >> s) & 1;
        assert(bv <= 1) by (bit_vector)
            requires
                bv == (v >> s) & 1,
        ;
        let b: u8 = if bv == 1 {
            1
        } else {
            0
        };
        let byte: u8 = buf[idx];
        let nb: u8 = if b == 1 {
            byte | (1u8 << k)
        } else {
            byte & !(1u8 << k)
        };
        let ghost before = buf@;
        buf[idx] = nb;
        proof {
            assert forall|i: int| 0 <= i < 8 * N && i != p implies #[trigger] bit_at(buf@, i)
                == bit_at(before, i) by {
                if i / 8 == idx as int {
                    lemma_set_bit(byte, nb, k, (7 - i % 8) as u8, b);
                }
            }
            lemma_set_bit(byte, nb, k, k, b);
            assert(bit_at(buf@, p as int) == b);
            lemma_bits_of_frame(buf@, before, off as int, j as nat);
            lemma_shift_step(v, (w - j) as u64);
        }
        j = j + 1;
    }
    assert(v >> 0u64 == v) by (bit_vector);
}

/// A field never holds a negative value.
pub proof fn lemma_bits_of_nonneg(buf: Seq<u8>, off: int, w: nat)
    ensures
        bits_of(buf, off, w) >= 0,
    decreases w,
{
    if w > 0 {
        lemma_bits_of_nonneg(buf, off, (w - 1) as nat);
    }
}

/// A field that holds zero has every bit zero.
pub proof fn lemma_bits_of_zero_bits(buf: Seq<u8>, off: int, w: nat)
    requires
        bits_of(buf, off, w) == 0,
    ensures
        forall|i: int| off <= i < off + w ==> bit_at(buf, i) == 0,
    decreases w,
{
    if w > 0 {
        lemma_bits_of_nonneg(buf, off, (w - 1) as nat);
        lemma_bits_of_zero_bits(buf, off, (w - 1) as nat);
    }
}

/// A field whose bits are all zero holds zero.
pub proof fn lemma_bits_of_all_zero(buf: Seq<u8>, off: int, w: nat)
    requires
        forall|i: int| off <= i < off + w ==> bit_at(buf, i) == 0,
    ensures
        bits_of(buf, off, w) == 0,
    decreases w,
{
    if w > 0 {
        lemma_bits_of_all_zero(buf, off, (w - 1) as nat);
    }
}

/// The field of the eight bits of byte `k` holds that byte.
pub proof fn lemma_bits_of_byte(buf: Seq<u8>, k: int)
    requires
        0 <= k < buf.len(),
    ensures
        bits_of(buf, 8 * k, 8) == buf[k],
{
    reveal_with_fuel(bits_of, 9);
    let b = buf[k];
    assert forall|j: int| 0 <= j < 8 implies #[trigger] bit_at(buf, 8 * k + j) == (b >> ((7
        - j) as u8)) & 1u8 by {
        assert((8 * k + j) / 8 == k);
        assert((8 * k + j) % 8 == j);
    }
    assert(b == ((((((((b >> 7u8) & 1u8) as int * 2 + ((b >> 6u8) & 1u8) as int) * 2 + ((b
        >> 5u8) & 1u8) as int) * 2 + ((b >> 4u8) & 1u8) as int) * 2 + ((b >> 3u8) & 1u8) as int)
        * 2 + ((b >> 2u8) & 1u8) as int) * 2 + ((b >> 1u8) & 1u8) as int) * 2 + ((b >> 0u8)
        & 1u8) as int) by (bit_vector);
    assert(bit_at(buf, 8 * k + 0) == (b >> 7u8) & 1u8);
    assert(bit_at(buf, 8 * k + 1) == (b >> 6u8) & 1u8);
    assert(bit_at(buf, 8 * k + 2) == (b >> 5u8) & 1u8);
    assert(bit_at(buf, 8 * k + 3) == (b >> 4u8) & 1u8);
    assert(bit_at(buf, 8 * k + 4) == (b >> 3u8) & 1u8);
    assert(bit_at(buf, 8 * k + 5) == (b >> 2u8) & 1u8);
    assert(bit_at(buf, 8 * k + 6) == (b >> 1u8) & 1u8);
    assert(bit_at(buf, 8 * k + 7) == (b >> 0u8) & 1u8);
}

} // verus!
