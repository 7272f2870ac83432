//! The CRC16/A checksum that guards select frames.

use vstd::prelude::*;

verus! {

/// The register's value before any input.
pub const CRC_PRESET: u16 = 0x6363;

/// The generator polynomial.
pub const CRC_POLYNOMIAL: u16 = 0x1021;

/// The register after one more input bit.
pub open spec fn crc_bit(reg: u16, bit: bool) -> u16 {
    let carry = reg & 0x8000 != 0;
    let shifted = reg << 1;
    if carry != bit {
        shifted ^ CRC_POLYNOMIAL
    } else {
        shifted
    }
}

/// Bit `8 - n` of `byte`: the `n`-th bit counted from the most significant.
pub open spec fn nth_bit(byte: u8, n: nat) -> bool {
    (byte >> ((8 - n) as u8)) & 1 == 1
}

/// The register after the `n` most significant bits of `byte`.
pub open spec fn crc_bits(reg: u16, byte: u8, n: nat) -> u16
    decreases n,
{
    if n == 0 {
        reg
    } else {
        crc_bit(crc_bits(reg, byte, (n - 1) as nat), nth_bit(byte, n))
    }
}

/// The register after a whole byte, most significant bit first.
pub open spec fn crc_byte(reg: u16, byte: u8) -> u16 {
    crc_bits(reg, byte, 8)
}

/// The register after all of `data`, starting from the preset.
pub open spec fn crc_register(data: Seq<u8>) -> u16
    decreases data.len(),
{
    if data.len() == 0 {
        CRC_PRESET
    } else {
        crc_byte(crc_register(data.drop_last()), data.last())
    }
}

/// The two checksum bytes of `data`, in the order in which a frame carries
/// them: the register's upper half, then its lower half.
pub open spec fn crc16a_of(data: Seq<u8>) -> (u8, u8) {
    let reg = crc_register(data);
    ((reg >> 8) as u8, (reg & 0xFF) as u8)
}

/// Feeds one byte to the checksum register.
pub fn crc_update(reg: u16, byte: u8) -> (next: u16)
    ensures
        next == crc_byte(reg, byte),
{
    let mut r: u16 = reg;
    let mut n: u8 = 0;
    while n < 8
        invariant
            n <= 8,
            r == crc_bits(reg, byte, n as nat),
        decreases 8 - n,
    {
        n = n + 1;
        let bit = (byte >> (8 - n)) & 1 == 1;
        let carry = r & 0x8000 != 0;
        r = r << 1;
        if carry != bit {
            r = r ^ CRC_POLYNOMIAL;
        }
    }
    r
}

/// Computes the CRC16/A checksum of `data`.
pub fn crc16a(data: &[u8]) -> (sum: (u8, u8))
    ensures
        sum == crc16a_of(data@),
{
    let mut reg: u16 = CRC_PRESET;
    let mut i: usize = 0;
    while i < data.len()
        invariant
            i <= data.len(),
            reg == crc_register(data@.take(i as int)),
        decreases data.len() - i,
    {
        proof {
            assert(data@.take(i + 1).drop_last() == data@.take(i as int));
        }
        reg = crc_update(reg, data[i]);
        i = i + 1;
    }
    proof {
        assert(data@.take(i as int) == data@);
    }
    ((reg >> 8) as u8, (reg & 0xFF) as u8)
}

/// The checksum of no data is the preset, byte by byte.
pub proof fn lemma_crc_of_nothing()
    ensures
        crc16a_of(Seq::<u8>::empty()) == (0x63u8, 0x63u8),
{
    assert(crc_register(Seq::<u8>::empty()) == 0x6363);
    assert((0x6363u16 >> 8) as u8 == 0x63 && (0x6363u16 & 0xFF) as u8 == 0x63) by (bit_vector);
}

/// The checksum of a single zero byte is 0x3F, 0xC5.
pub proof fn lemma_crc_of_zero_byte()
    ensures
        crc16a_of(seq![0u8]) == (0x3Fu8, 0xC5u8),
{
    let data = seq![0u8];
    assert(data.drop_last() =~= Seq::<u8>::empty());
    assert(crc_register(data.drop_last()) == 0x6363);
    assert(data.last() == 0);
    assert(crc_register(data) == crc_byte(0x6363, 0));
    assert(forall|shift: u8| shift < 8 ==> #[trigger] (0u8 >> shift) & 1 != 1) by (bit_vector);
    assert(!nth_bit(0, 1) && !nth_bit(0, 2) && !nth_bit(0, 3) && !nth_bit(0, 4));
    assert(!nth_bit(0, 5) && !nth_bit(0, 6) && !nth_bit(0, 7) && !nth_bit(0, 8));
    assert(crc_bit(0x6363, false) == 0xC6C6) by (bit_vector);
    assert(crc_bit(0xC6C6, false) == 0x9DAD) by (bit_vector);
    assert(crc_bit(0x9DAD, false) == 0x2B7B) by (bit_vector);
    assert(crc_bit(0x2B7B, false) == 0x56F6) by (bit_vector);
    assert(crc_bit(0x56F6, false) == 0xADEC) by (bit_vector);
    assert(crc_bit(0xADEC, false) == 0x4BF9) by (bit_vector);
    assert(crc_bit(0x4BF9, false) == 0x97F2) by (bit_vector);
    assert(crc_bit(0x97F2, false) == 0x3FC5) by (bit_vector);
    assert(crc_bits(0x6363, 0, 0) == 0x6363);
    assert(crc_bits(0x6363, 0, 1) == 0xC6C6);
    assert(crc_bits(0x6363, 0, 2) == 0x9DAD);
    assert(crc_bits(0x6363, 0, 3) == 0x2B7B);
    assert(crc_bits(0x6363, 0, 4) == 0x56F6);
    assert(crc_bits(0x6363, 0, 5) == 0xADEC);
    assert(crc_bits(0x6363, 0, 6) == 0x4BF9);
    assert(crc_bits(0x6363, 0, 7) == 0x97F2);
    assert(crc_bits(0x6363, 0, 8) == 0x3FC5);
    assert((0x3FC5u16 >> 8) as u8 == 0x3F && (0x3FC5u16 & 0xFF) as u8 == 0xC5) by (bit_vector);
}

/// The checksum goes over the data from the front: what follows a prefix
/// starts from the register that the prefix left.
pub proof fn lemma_crc_extends(data: Seq<u8>, byte: u8)
    ensures
        crc_register(data.push(byte)) == crc_byte(crc_register(data), byte),
{
    assert(data.push(byte).drop_last() =~= data);
}

} // verus!
