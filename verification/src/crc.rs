//! CRC-16/CCITT-FALSE over byte slices.
//!
//! The framed message protocol validates integrity with this CRC before
//! trusting any payload: initial register `0xFFFF`, polynomial `0x1021`,
//! MSB-first bit processing, no final XOR.

use vstd::prelude::*;

verus! {

/// CRC-16/CCITT-FALSE polynomial.
pub const CRC_POLYNOMIAL: u16 = 0x1021;

/// Initial CRC register value.
pub const CRC_INITIAL: u16 = 0xFFFF;

/// One MSB-first shift of the CRC register: shift left, folding the
/// polynomial in when the bit shifted out was set.
pub open spec fn crc_shift(c: u16) -> u16 {
    if c & 0x8000 != 0 {
        (c << 1) ^ CRC_POLYNOMIAL
    } else {
        c << 1
    }
}

/// `n` successive shifts of the CRC register.
pub open spec fn crc_shift_n(c: u16, n: int) -> u16
    decreases n,
{
    if n <= 0 {
        c
    } else {
        crc_shift(crc_shift_n(c, n - 1))
    }
}

/// Folding one input byte into the register: XOR it into the high byte,
/// then shift eight times.
pub open spec fn crc_step(c: u16, b: u8) -> u16 {
    crc_shift_n(c ^ ((b as u16) << 8), 8)
}

/// The CRC of a whole byte sequence, starting from `CRC_INITIAL`.
pub open spec fn crc16(data: Seq<u8>) -> u16
    decreases data.len(),
{
    if data.len() == 0 {
        CRC_INITIAL
    } else {
        crc_step(crc16(data.drop_last()), data.last())
    }
}

/// A 16-bit value read from two bytes, little-endian.
pub open spec fn crc_le(lo: u8, hi: u8) -> u16 {
    (lo as u16) | ((hi as u16) << 8)
}

/// The low byte of a CRC, as it is laid out on the wire.
pub open spec fn crc_lo(c: u16) -> u8 {
    (c & 0xFF) as u8
}

/// The high byte of a CRC, as it is laid out on the wire.
pub open spec fn crc_hi(c: u16) -> u8 {
    ((c >> 8) & 0xFF) as u8
}

/// A byte sequence with its own CRC appended, little-endian.
pub open spec fn with_crc(data: Seq<u8>) -> Seq<u8> {
    data + seq![crc_lo(crc16(data)), crc_hi(crc16(data))]
}

/// Whether a buffer ends in the little-endian CRC of everything before it.
/// Buffers too short to hold any data plus a CRC never qualify.
pub open spec fn crc_appended_ok(bytes: Seq<u8>) -> bool {
    &&& bytes.len() >= 3
    &&& crc_le(bytes[bytes.len() - 2], bytes[bytes.len() - 1]) == crc16(
        bytes.take(bytes.len() - 2),
    )
}

/// Splitting a 16-bit value into wire bytes and reading them back is the
/// identity.
pub proof fn lemma_crc_le_split(c: u16)
    ensures
        crc_le(crc_lo(c), crc_hi(c)) == c,
{
    assert((((c & 0xFF) as u8) as u16) | (((((c >> 8) & 0xFF) as u8) as u16) << 8) == c)
        by (bit_vector);
}

/// Appending a sequence's own CRC always yields a buffer that
/// `crc_appended_ok` accepts, for any non-empty input.
pub proof fn lemma_crc_round_trip(data: Seq<u8>)
    requires
        data.len() >= 1,
    ensures
        crc_appended_ok(with_crc(data)),
{
    let whole = with_crc(data);
    assert(whole.take(whole.len() - 2) =~= data);
    lemma_crc_le_split(crc16(data));
}

/// Calculate the CRC of the given bytes.
pub fn calculate_crc(data: &[u8]) -> (r: u16)
    ensures
        r == crc16(data@),
{
    let mut crc: u16 = CRC_INITIAL;
    let mut i: usize = 0;
    while i < data.len()
        invariant
            i <= data@.len(),
            crc == crc16(data@.take(i as int)),
        decreases data@.len() - i,
    {
        let byte = data[i];
        let mut c: u16 = crc ^ ((byte as u16) << 8);
        let ghost c0 = c;
        let mut j: usize = 0;
        while j < 8
            invariant
                j <= 8,
                c == crc_shift_n(c0, j as int),
            decreases 8 - j,
        {
            if c & 0x8000 != 0 {
                c = (c << 1) ^ CRC_POLYNOMIAL;
            } else {
                c = c << 1;
            }
            j += 1;
        }
        proof {
            assert(data@.take(i + 1).drop_last() =~= data@.take(i as int));
            assert(data@.take(i + 1).last() == data@[i as int]);
        }
        crc = c;
        i += 1;
    }
    proof {
        assert(data@.take(data@.len() as int) =~= data@);
    }
    crc
}

/// Whether the last two bytes of `data` hold the little-endian CRC of the
/// bytes before them. Never panics: inputs shorter than three bytes simply
/// fail the check.
pub fn verify_crc(data: &[u8]) -> (r: bool)
    ensures
        r == crc_appended_ok(data@),
{
    if data.len() < 3 {
        return false;
    }
    let n = data.len() - 2;
    let expected = calculate_crc(vstd::slice::slice_subrange(data, 0, n));
    let actual = (data[n] as u16) | ((data[n + 1] as u16) << 8);
    proof {
        assert(data@.subrange(0, n as int) =~= data@.take(data@.len() - 2));
    }
    expected == actual
}

/// Copy `data` and append its CRC as two little-endian bytes.
pub fn append_crc(data: &[u8]) -> (r: Vec<u8>)
    ensures
        r@ == with_crc(data@),
{
    let crc = calculate_crc(data);
    let mut result = vstd::slice::slice_to_vec(data);
    result.push((crc & 0xFF) as u8);
    result.push(((crc >> 8) & 0xFF) as u8);
    proof {
        assert(result@ =~= with_crc(data@));
    }
    result
}

} // verus!
