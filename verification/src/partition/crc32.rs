use vstd::prelude::*;

verus! {

/// The reflected IEEE CRC-32 polynomial.
pub const CRC32_POLYNOMIAL: u32 = 0xEDB8_8320;

/// One bit step of the reflected CRC-32 register.
pub open spec fn crc_bit(crc: u32) -> u32 {
    if crc & 1 == 1 {
        (crc >> 1u32) ^ CRC32_POLYNOMIAL
    } else {
        crc >> 1u32
    }
}

/// `n` bit steps of the register.
pub open spec fn crc_bits(crc: u32, n: nat) -> u32
    decreases n,
{
    if n == 0 {
        crc
    } else {
        crc_bits(crc_bit(crc), (n - 1) as nat)
    }
}

/// The register after absorbing one byte.
pub open spec fn crc_byte(crc: u32, byte: u8) -> u32 {
    crc_bits(crc ^ (byte as u32), 8)
}

/// The register after absorbing `data`, starting from all ones.
pub open spec fn crc_register(data: Seq<u8>) -> u32
    decreases data.len(),
{
    if data.len() == 0 {
        0xFFFF_FFFFu32
    } else {
        crc_byte(crc_register(data.drop_last()), data.last())
    }
}

/// The IEEE CRC-32 of `data`.
pub open spec fn crc32_ieee(data: Seq<u8>) -> u32 {
    !crc_register(data)
}

/// Computes the IEEE CRC-32 (as used by GPT) of `bytes`.
pub fn ieee(bytes: &[u8]) -> (c: u32)
    ensures
        c == crc32_ieee(bytes@),
{
    let mut crc: u32 = 0xFFFF_FFFF;
    let mut i: usize = 0;
    while i < bytes.len()
        invariant
            i <= bytes@.len(),
            crc == crc_register(bytes@.take(i as int)),
        decreases bytes@.len() - i,
    {
        let byte = bytes[i];
        let mut value = crc ^ (byte as u32);
        let mut bit: u32 = 0;
        while bit < 8
            invariant
                bit <= 8,
                crc_bits(value, (8 - bit) as nat) == crc_byte(crc, byte),
            decreases 8 - bit,
        {
            let next = if value & 1 == 1 {
                (value >> 1u32) ^ CRC32_POLYNOMIAL
            } else {
                value >> 1u32
            };
            assert(crc_bits(value, (8 - bit) as nat) == crc_bits(next, (8 - bit - 1) as nat));
            value = next;
            bit = bit + 1;
        }
        assert(bytes@.take(i + 1).drop_last() =~= bytes@.take(i as int));
        crc = value;
        i = i + 1;
    }
    assert(bytes@.take(bytes@.len() as int) =~= bytes@);
    !crc
}

} // verus!
