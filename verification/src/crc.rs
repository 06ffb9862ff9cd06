//! The sixteen-bit checksum that closes every frame.
//!
//! The register starts at `0xFFFF`, absorbs the bytes in order, and is
//! complemented at the end. Absorbing a byte means folding it into the low
//! half of the register and then shifting eight times by the reflected
//! polynomial `0x8408`.

use vstd::prelude::*;

verus! {

/// The reflected generator polynomial.
pub const CRC_POLYNOMIAL: u16 = 0x8408;

/// The register before any byte has been absorbed.
pub const CRC_INITIAL: u16 = 0xFFFF;

/// One shift of the register: the low bit leaves, and where it was set the
/// polynomial is folded in.
pub open spec fn crc_shift(reg: u16) -> u16 {
    if reg & 1 != 0 {
        (reg >> 1) ^ 0x8408
    } else {
        reg >> 1
    }
}

/// The register after `n` shifts.
pub open spec fn crc_shifts(reg: u16, n: nat) -> u16
    decreases n,
{
    if n == 0 {
        reg
    } else {
        crc_shift(crc_shifts(reg, (n - 1) as nat))
    }
}

/// The register after one more byte: the byte is folded into the low eight
/// bits, then the register is shifted eight times.
pub open spec fn crc_absorb(reg: u16, byte: u8) -> u16 {
    crc_shifts(reg ^ (byte as u16), 8)
}

/// The register after all of `data`, first byte first.
pub open spec fn crc_register(data: Seq<u8>) -> u16
    decreases data.len(),
{
    if data.len() == 0 {
        0xFFFF
    } else {
        crc_absorb(crc_register(data.drop_last()), data.last())
    }
}

/// The checksum of `data`: the complement of the final register.
pub open spec fn crc16(data: Seq<u8>) -> u16 {
    !crc_register(data)
}

/// The checksum of no bytes at all is zero: the complement of the untouched
/// register.
pub proof fn crc16_of_nothing()
    ensures
        crc16(Seq::<u8>::empty()) == 0,
{
    assert(!0xFFFFu16 == 0u16) by (bit_vector);
}

/// The checksum is a function of the bytes alone: two sequences of the same
/// length that agree byte for byte have the same checksum.
pub proof fn crc16_same_bytes(a: Seq<u8>, b: Seq<u8>)
    requires
        a.len() == b.len(),
        forall|i: int| 0 <= i < a.len() ==> a[i] == b[i],
    ensures
        crc16(a) == crc16(b),
{
    assert(a =~= b);
}

/// Appending one byte to the data absorbs that byte into the register.
pub proof fn crc_register_push(data: Seq<u8>, byte: u8)
    ensures
        crc_register(data.push(byte)) == crc_absorb(crc_register(data), byte),
{
    assert(data.push(byte).drop_last() =~= data);
}

/// Computes the checksum of `data`. Every input is accepted, the empty one
/// too.
pub fn calculate_crc(data: &[u8]) -> (crc: u16)
    ensures
        crc == crc16(data@),
{
    let mut reg: u16 = CRC_INITIAL;
    let mut i: usize = 0;
    while i < data.len()
        invariant
            i <= data.len(),
            reg == crc_register(data@.take(i as int)),
        decreases data.len() - i,
    {
        let byte: u8 = data[i];
        let ghost before: u16 = reg;
        reg = reg ^ (byte as u16);
        let mut bit: u8 = 0;
        while bit < 8
            invariant
                bit <= 8,
                reg == crc_shifts(before ^ (byte as u16), bit as nat),
            decreases 8 - bit,
        {
            if (reg & 0x0001) != 0 {
                reg = (reg >> 1) ^ CRC_POLYNOMIAL;
            } else {
                reg = reg >> 1;
            }
            bit = bit + 1;
        }
        proof {
            crc_register_push(data@.take(i as int), byte);
            assert(data@.take(i as int).push(byte) =~= data@.take(i as int + 1));
        }
        i = i + 1;
    }
    proof {
        assert(data@.take(data.len() as int) =~= data@);
    }
    !reg
}

} // verus!
