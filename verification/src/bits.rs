//! Reading and writing N-bit unsigned fields at arbitrary bit offsets.
//!
//! Every packed structure in the protocol is described by bit offset and
//! width, with fields crossing byte boundaries at arbitrary positions. The
//! bit order is little-endian within each byte: bit 0 of a field is the
//! lowest-numbered bit of the lowest-addressed byte it touches.
//!
//! All codecs in this crate state their contracts over [`bits_value`], so a
//! field's offset and width appear exactly once, in the codec's spec.

use vstd::arithmetic::div_mod::lemma_fundamental_div_mod;
use vstd::prelude::*;

verus! {

/// Bit `k` (0 = least significant) of one byte.
pub open spec fn byte_bit(b: u8, k: int) -> bool {
    (b >> (k as u8)) & 1 == 1
}

/// Bit `i` of a byte sequence, little-endian within each byte.
pub open spec fn bit_of(bytes: Seq<u8>, i: int) -> bool {
    byte_bit(bytes[i / 8], i % 8)
}

/// Bit `k` (0 = least significant) of a 32-bit value.
pub open spec fn value_bit(v: u32, k: int) -> bool {
    (v >> (k as u32)) & 1 == 1
}

/// The unsigned value of the `width` bits starting `off` bits into `bytes`.
pub open spec fn bits_value(bytes: Seq<u8>, off: int, width: int) -> u32
    recommends
        width <= 32,
    decreases width,
{
    if width <= 0 {
        0
    } else {
        bits_value(bytes, off, width - 1) | (if bit_of(bytes, off + width - 1) {
            1u32 << ((width - 1) as u32)
        } else {
            0u32
        })
    }
}

/// The all-ones mask of a field `w` bits wide.
pub open spec fn mask32(w: int) -> u32
    recommends
        0 <= w <= 32,
{
    ((1u64 << (w as u64)) - 1) as u32
}

/// A field value is bounded by its width.
pub proof fn lemma_bits_value_bound(bytes: Seq<u8>, off: int, w: int)
    requires
        0 <= w < 32,
    ensures
        bits_value(bytes, off, w) < (1u32 << (w as u32)),
    decreases w,
{
    if w == 0 {
        assert(1u32 << 0u32 == 1) by (bit_vector);
    } else {
        lemma_bits_value_bound(bytes, off, w - 1);
        let r = bits_value(bytes, off, w - 1);
        let s = (w - 1) as u32;
        assert((w as u32) == (s + 1) as u32);
        assert(r | 0u32 == r) by (bit_vector);
        assert(s < 31 && r < (1u32 << s) ==> ((r | (1u32 << s)) < (1u32 << ((s + 1) as u32)) && r
            < (1u32 << ((s + 1) as u32)))) by (bit_vector);
    }
}

/// Two buffers that agree bit-for-bit on a region hold the same field value
/// there.
pub proof fn lemma_bits_value_congruence(a: Seq<u8>, b: Seq<u8>, off: int, w: int)
    requires
        forall|k: int| 0 <= k < w ==> #[trigger] bit_of(a, off + k) == bit_of(b, off + k),
    ensures
        bits_value(a, off, w) == bits_value(b, off, w),
    decreases w,
{
    if w > 0 {
        lemma_bits_value_congruence(a, b, off, w - 1);
    }
}

/// Extending a mask by one bit.
proof fn lemma_mask_step(v: u32, s: u32)
    by (bit_vector)
    requires
        s < 32,
    ensures
        (v >> s) & 1 == 1 ==> ((v & (((1u64 << (s as u64)) - 1) as u32)) | (1u32 << s)) == (v & (((
        1u64 << (((s + 1)) as u64)) - 1) as u32)),
        (v >> s) & 1 != 1 ==> (v & (((1u64 << (s as u64)) - 1) as u32)) == (v & (((1u64 << (((s
        + 1)) as u64)) - 1) as u32)),
{
}

/// Masking a value that already fits its field is the identity.
pub proof fn lemma_mask_noop(v: u32, s: u32)
    by (bit_vector)
    requires
        s <= 32,
        s < 32 ==> v < (1u32 << s),
    ensures
        v & (((1u64 << (s as u64)) - 1) as u32) == v,
{
}

/// A region whose bits spell out `v` holds the field value `v & mask32(w)`.
pub proof fn lemma_bits_value_of_value(bytes: Seq<u8>, off: int, w: int, v: u32)
    requires
        0 <= w <= 32,
        forall|k: int| 0 <= k < w ==> bit_of(bytes, off + k) == value_bit(v, k),
    ensures
        bits_value(bytes, off, w) == v & mask32(w),
    decreases w,
{
    if w == 0 {
        assert(v & (((1u64 << 0u64) - 1) as u32) == 0) by (bit_vector);
    } else {
        lemma_bits_value_of_value(bytes, off, w - 1, v);
        let r = bits_value(bytes, off, w - 1);
        assert(r | 0u32 == r) by (bit_vector);
        let s = (w - 1) as u32;
        assert((w as u64) == (s + 1) as u64);
        assert(((w - 1) as u64) == s as u64);
        lemma_mask_step(v, s);
        assert(bit_of(bytes, off + w - 1) == value_bit(v, w - 1));
    }
}

/// A 16-bit value assembled from two bytes, little-endian.
pub open spec fn le16(b0: u8, b1: u8) -> u16 {
    (b0 as u16) | ((b1 as u16) << 8)
}

/// A 32-bit value assembled from four bytes, little-endian.
pub open spec fn le32(b0: u8, b1: u8, b2: u8, b3: u8) -> u32 {
    (b0 as u32) | ((b1 as u32) << 8) | ((b2 as u32) << 16) | ((b3 as u32) << 24)
}

/// The powers of two this crate's field widths use, written as shifts.
pub proof fn lemma_shift_constants()
    by (bit_vector)
    ensures
        1u32 << 0u32 == 0x1,
        1u32 << 1u32 == 0x2,
        1u32 << 2u32 == 0x4,
        1u32 << 3u32 == 0x8,
        1u32 << 4u32 == 0x10,
        1u32 << 7u32 == 0x80,
        1u32 << 8u32 == 0x100,
        1u32 << 10u32 == 0x400,
        1u32 << 11u32 == 0x800,
        1u32 << 13u32 == 0x2000,
        1u32 << 16u32 == 0x10000,
        1u32 << 17u32 == 0x20000,
{
}

/// Masking the small wire constants with their own field masks leaves them
/// unchanged.
pub proof fn lemma_small_masks()
    by (bit_vector)
    ensures
        0u8 & 0x03 == 0 && 1u8 & 0x03 == 1 && 2u8 & 0x03 == 2 && 3u8 & 0x03 == 3,
        0u8 & 0x07 == 0 && 1u8 & 0x07 == 1 && 2u8 & 0x07 == 2 && 3u8 & 0x07 == 3,
        4u8 & 0x07 == 4 && 5u8 & 0x07 == 5 && 6u8 & 0x07 == 6 && 7u8 & 0x07 == 7,
{
}

/// Masking with `m` never exceeds `m`.
pub proof fn lemma_and_bound(x: u32, m: u32)
    by (bit_vector)
    ensures
        x & m <= m,
{
}

/// Masking with `m` never exceeds `m`, for bytes.
pub proof fn lemma_and_bound_u8(x: u8, m: u8)
    by (bit_vector)
    ensures
        x & m <= m,
{
}

/// A field whose bits spell out a value that fits the field holds exactly
/// that value.
pub proof fn lemma_field_holds_value(bytes: Seq<u8>, off: int, w: int, v: u32)
    requires
        0 <= w <= 32,
        w < 32 ==> v < (1u32 << (w as u32)),
        forall|k: int| 0 <= k < w ==> bit_of(bytes, off + k) == value_bit(v, k),
    ensures
        bits_value(bytes, off, w) == v,
{
    lemma_bits_value_of_value(bytes, off, w, v);
    assert((w as u64) == ((w as u32) as u64));
    lemma_mask_noop(v, w as u32);
}

/// Reading a field out of a byte-aligned window of a larger buffer gives the
/// same value as reading it from the buffer itself at the shifted offset.
pub proof fn lemma_bits_value_in_window(a: Seq<u8>, s: int, e: int, off: int, w: int)
    requires
        0 <= s <= e <= a.len(),
        0 <= off,
        off + w <= (e - s) * 8,
    ensures
        bits_value(a.subrange(s, e), off, w) == bits_value(a, 8 * s + off, w),
    decreases w,
{
    if w > 0 {
        lemma_bits_value_in_window(a, s, e, off, w - 1);
        let sub = a.subrange(s, e);
        let x = off + w - 1;
        lemma_fundamental_div_mod(x, 8);
        vstd::arithmetic::div_mod::lemma_fundamental_div_mod_converse(
            8 * s + x,
            8,
            s + x / 8,
            x % 8,
        );
        assert(sub[x / 8] == a[s + x / 8]);
        assert(bit_of(sub, x) == bit_of(a, 8 * s + x));
    }
}

/// How one bit set or cleared in a byte shows up when any bit of that byte
/// is read back.
proof fn lemma_byte_bit_update(b: u8, sh: u8, m: u8)
    by (bit_vector)
    requires
        sh < 8,
        m < 8,
    ensures
        m == sh ==> ((b | (1u8 << sh)) >> m) & 1 == 1,
        m == sh ==> ((b & !(1u8 << sh)) >> m) & 1 == 0,
        m != sh ==> ((b | (1u8 << sh)) >> m) & 1 == (b >> m) & 1,
        m != sh ==> ((b & !(1u8 << sh)) >> m) & 1 == (b >> m) & 1,
{
}

/// Read the `width`-bit unsigned field starting `bit_offset` bits into
/// `data`. Bits are taken least significant first.
pub fn read_bits(data: &[u8], bit_offset: usize, width: usize) -> (r: u32)
    requires
        width <= 32,
        data@.len() <= usize::MAX / 8,
        bit_offset + width <= data@.len() * 8,
    ensures
        r == bits_value(data@, bit_offset as int, width as int),
{
    let mut result: u32 = 0;
    let mut k: usize = 0;
    while k < width
        invariant
            k <= width,
            width <= 32,
            data@.len() <= usize::MAX / 8,
            bit_offset + width <= data@.len() * 8,
            result == bits_value(data@, bit_offset as int, k as int),
        decreases width - k,
    {
        let i = bit_offset + k;
        let byte = data[i / 8];
        let sh = (i % 8) as u8;
        let bit_set = (byte >> sh) & 1 == 1;
        proof {
            assert(i as int / 8 == (i / 8) as int && i as int % 8 == sh as int);
            assert(bit_set == bit_of(data@, i as int));
            let r = result;
            assert(r | 0u32 == r) by (bit_vector);
        }
        if bit_set {
            result = result | (1u32 << (k as u32));
        }
        k += 1;
    }
    result
}

/// Write `value`'s low `width` bits over the field starting `bit_offset`
/// bits into `data`. Every bit outside the field keeps its old value.
pub fn write_bits(data: &mut Vec<u8>, bit_offset: usize, width: usize, value: u32)
    requires
        width <= 32,
        old(data)@.len() <= usize::MAX / 8,
        bit_offset + width <= old(data)@.len() * 8,
    ensures
        final(data)@.len() == old(data)@.len(),
        forall|j: int|
            0 <= j < final(data)@.len() * 8 ==> #[trigger] bit_of(final(data)@, j) == (if bit_offset
                <= j < bit_offset + width {
                value_bit(value, j - bit_offset)
            } else {
                bit_of(old(data)@, j)
            }),
{
    let mut k: usize = 0;
    while k < width
        invariant
            k <= width,
            width <= 32,
            data@.len() == old(data)@.len(),
            old(data)@.len() <= usize::MAX / 8,
            bit_offset + width <= data@.len() * 8,
            forall|j: int|
                0 <= j < data@.len() * 8 ==> #[trigger] bit_of(data@, j) == (if bit_offset <= j
                    < bit_offset + k {
                    value_bit(value, j - bit_offset)
                } else {
                    bit_of(old(data)@, j)
                }),
        decreases width - k,
    {
        let i = bit_offset + k;
        let p = i / 8;
        let sh = (i % 8) as u8;
        let b = data[p];
        let set_bit = (value >> (k as u32)) & 1 == 1;
        let nb = if set_bit {
            b | (1u8 << sh)
        } else {
            b & !(1u8 << sh)
        };
        let ghost prev = data@;
        data[p] = nb;
        proof {
            assert(data@ =~= prev.update(p as int, nb));
            assert forall|j: int| 0 <= j < data@.len() * 8 implies #[trigger] bit_of(data@, j) == (
            if bit_offset <= j < bit_offset + (k + 1) {
                value_bit(value, j - bit_offset)
            } else {
                bit_of(prev, j)
            }) by {
                lemma_fundamental_div_mod(j, 8);
                lemma_fundamental_div_mod(i as int, 8);
                if bit_offset <= j < bit_offset + k {
                    assert(bit_of(prev, j) == value_bit(value, j - bit_offset));
                }
                if j / 8 == p as int {
                    lemma_byte_bit_update(b, sh, (j % 8) as u8);
                    assert(data@[j / 8] == nb);
                    assert(byte_bit(nb, j % 8) == ((nb >> ((j % 8) as u8)) & 1 == 1));
                    if j == i as int {
                        assert((j % 8) as u8 == sh);
                        assert(byte_bit(nb, j % 8) == value_bit(value, k as int));
                        assert(bit_of(data@, j) == value_bit(value, j - bit_offset));
                    } else {
                        assert(j % 8 != sh as int);
                        assert((j % 8) as u8 != sh);
                        assert(byte_bit(nb, j % 8) == byte_bit(b, j % 8));
                        assert(bit_of(data@, j) == bit_of(prev, j));
                    }
                } else {
                    assert(data@[j / 8] == prev[j / 8]);
                    assert(bit_of(data@, j) == bit_of(prev, j));
                }
            }
        }
        k += 1;
    }
}

/// Write a run of disjoint fields, given as `(bit_offset, width, value)`
/// triples in ascending order. Afterwards every listed field reads back as
/// exactly the value written.
pub fn write_fields(data: &mut Vec<u8>, fields: &Vec<(usize, usize, u32)>)
    requires
        old(data)@.len() <= usize::MAX / 8,
        forall|f: int|
            0 <= f < fields@.len() ==> {
                &&& (#[trigger] fields@[f]).1 <= 32
                &&& fields@[f].0 + fields@[f].1 <= old(data)@.len() * 8
                &&& (fields@[f].1 < 32 ==> fields@[f].2 < (1u32 << (fields@[f].1 as u32)))
            },
        forall|f: int, g: int|
            0 <= f < g < fields@.len() ==> (#[trigger] fields@[f]).0 + fields@[f].1 <= (
            #[trigger] fields@[g]).0,
    ensures
        final(data)@.len() == old(data)@.len(),
        forall|f: int|
            0 <= f < fields@.len() ==> bits_value(
                final(data)@,
                (#[trigger] fields@[f]).0 as int,
                fields@[f].1 as int,
            ) == fields@[f].2,
{
    let mut i: usize = 0;
    while i < fields.len()
        invariant
            i <= fields@.len(),
            data@.len() == old(data)@.len(),
            old(data)@.len() <= usize::MAX / 8,
            forall|f: int|
                0 <= f < fields@.len() ==> {
                    &&& (#[trigger] fields@[f]).1 <= 32
                    &&& fields@[f].0 + fields@[f].1 <= old(data)@.len() * 8
                    &&& (fields@[f].1 < 32 ==> fields@[f].2 < (1u32 << (fields@[f].1 as u32)))
                },
            forall|f: int, g: int|
                0 <= f < g < fields@.len() ==> (#[trigger] fields@[f]).0 + fields@[f].1 <= (
                #[trigger] fields@[g]).0,
            forall|f: int|
                0 <= f < i ==> bits_value(
                    data@,
                    (#[trigger] fields@[f]).0 as int,
                    fields@[f].1 as int,
                ) == fields@[f].2,
        decreases fields@.len() - i,
    {
        let (off, width, value) = fields[i];
        let ghost before = data@;
        write_bits(data, off, width, value);
        proof {
            assert forall|f: int| 0 <= f < i implies bits_value(
                data@,
                (#[trigger] fields@[f]).0 as int,
                fields@[f].1 as int,
            ) == fields@[f].2 by {
                lemma_bits_value_congruence(
                    data@,
                    before,
                    fields@[f].0 as int,
                    fields@[f].1 as int,
                );
            }
            assert forall|k: int| 0 <= k < width implies bit_of(data@, off + k) == value_bit(
                value,
                k,
            ) by {}
            lemma_field_holds_value(data@, off as int, width as int, value);
        }
        i += 1;
    }
}

} // verus!
