use vstd::prelude::*;

verus! {

/// The four raw fields a measurement register read yields, before CRC
/// verification: a 4-bit exponent, a 20-bit mantissa, a running 4-bit
/// measurement counter, and the 4-bit CRC field.
#[derive(Debug, Clone, Copy, PartialEq, Eq, Structural)]
pub struct MeasurementFields {
    pub exponent: u8,
    pub mantissa: u32,
    pub counter: u8,
    pub crc: u8,
}

impl MeasurementFields {
    /// Every field fits its allotted bit width; field extraction from a
    /// register establishes this.
    pub open spec fn wf(self) -> bool {
        &&& self.exponent < 16
        &&& self.mantissa < 0x100000
        &&& self.counter < 16
        &&& self.crc < 16
    }
}

/// The bit at position `i` of `v`.
pub open spec fn spec_bit(v: u32, i: u32) -> u32 {
    (v >> i) & 1
}

/// The 4-bit parity check value `x3 x2 x1 x0` of a measurement, over the
/// low 4 bits of the exponent `e` and counter `c` and the low 20 bits of
/// the mantissa `r`:
/// `x0` is the parity of every bit of `e`, `r` and `c` combined; `x1` XORs
/// bits 1 and 3 of `c` and of `e` with every odd-indexed bit of `r`; `x2`
/// XORs bit 3 of `c` and of `e` with bits 3, 7, 11, 15 and 19 of `r`; `x3`
/// XORs bits 3, 11 and 19 of `r`.
pub open spec fn spec_crc(exponent: u8, mantissa: u32, count: u8) -> u8 {
    let r = mantissa & 0xFFFFF;
    let e = (exponent & 0xF) as u32;
    let c = (count & 0xF) as u32;
    let v = r ^ e ^ c;
    let x0 = spec_bit(v, 0) ^ spec_bit(v, 1) ^ spec_bit(v, 2) ^ spec_bit(v, 3) ^ spec_bit(v, 4)
        ^ spec_bit(v, 5) ^ spec_bit(v, 6) ^ spec_bit(v, 7) ^ spec_bit(v, 8) ^ spec_bit(v, 9)
        ^ spec_bit(v, 10) ^ spec_bit(v, 11) ^ spec_bit(v, 12) ^ spec_bit(v, 13) ^ spec_bit(v, 14)
        ^ spec_bit(v, 15) ^ spec_bit(v, 16) ^ spec_bit(v, 17) ^ spec_bit(v, 18) ^ spec_bit(v, 19);
    let x1 = spec_bit(c, 1) ^ spec_bit(c, 3) ^ spec_bit(e, 1) ^ spec_bit(e, 3) ^ spec_bit(r, 1)
        ^ spec_bit(r, 3) ^ spec_bit(r, 5) ^ spec_bit(r, 7) ^ spec_bit(r, 9) ^ spec_bit(r, 11)
        ^ spec_bit(r, 13) ^ spec_bit(r, 15) ^ spec_bit(r, 17) ^ spec_bit(r, 19);
    let x2 = spec_bit(c, 3) ^ spec_bit(r, 3) ^ spec_bit(r, 7) ^ spec_bit(r, 11) ^ spec_bit(r, 15)
        ^ spec_bit(r, 19) ^ spec_bit(e, 3);
    let x3 = spec_bit(r, 3) ^ spec_bit(r, 11) ^ spec_bit(r, 19);
    ((x3 << 3) | (x2 << 2) | (x1 << 1) | x0) as u8
}

/// The bit at position `i` of `v`.
fn bit(v: u32, i: u32) -> (r: u32)
    requires
        i < 32,
    ensures
        r == spec_bit(v, i),
{
    (v >> i) & 1
}

/// Compute the 4-bit parity check value of a measurement. The result is a
/// function of the low 4 bits of the exponent and counter and the low 20
/// bits of the mantissa alone, and always lies in 0..=15.
pub fn calculate_crc(exponent: u8, mantissa: u32, count: u8) -> (r: u8)
    ensures
        r == spec_crc(exponent, mantissa, count),
        r < 16,
{
    let m = mantissa & 0xFFFFF;
    let e = (exponent & 0xF) as u32;
    let c = (count & 0xF) as u32;
    let v = m ^ e ^ c;
    let x0 = bit(v, 0) ^ bit(v, 1) ^ bit(v, 2) ^ bit(v, 3) ^ bit(v, 4) ^ bit(v, 5) ^ bit(v, 6)
        ^ bit(v, 7) ^ bit(v, 8) ^ bit(v, 9) ^ bit(v, 10) ^ bit(v, 11) ^ bit(v, 12) ^ bit(v, 13)
        ^ bit(v, 14) ^ bit(v, 15) ^ bit(v, 16) ^ bit(v, 17) ^ bit(v, 18) ^ bit(v, 19);
    let x1 = bit(c, 1) ^ bit(c, 3) ^ bit(e, 1) ^ bit(e, 3) ^ bit(m, 1) ^ bit(m, 3) ^ bit(m, 5)
        ^ bit(m, 7) ^ bit(m, 9) ^ bit(m, 11) ^ bit(m, 13) ^ bit(m, 15) ^ bit(m, 17) ^ bit(m, 19);
    let x2 = bit(c, 3) ^ bit(m, 3) ^ bit(m, 7) ^ bit(m, 11) ^ bit(m, 15) ^ bit(m, 19) ^ bit(e, 3);
    let x3 = bit(m, 3) ^ bit(m, 11) ^ bit(m, 19);
    proof {
        lemma_crc_in_range(exponent, mantissa, count);
    }
    ((x3 << 3) | (x2 << 2) | (x1 << 1) | x0) as u8
}

/// The assembled check value occupies 4 bits.
proof fn lemma_crc_in_range(exponent: u8, mantissa: u32, count: u8)
    by (bit_vector)
    ensures
        spec_crc(exponent, mantissa, count) < 16,
{
}

/// Field extraction from the fused 32-bit measurement register: exponent
/// bits 28..=31, mantissa bits 8..=27, counter bits 4..=7, CRC bits 0..=3.
pub open spec fn spec_fused_fields(raw: u32) -> MeasurementFields {
    MeasurementFields {
        exponent: ((raw >> 28) & 0xF) as u8,
        mantissa: (raw >> 8) & 0xFFFFF,
        counter: ((raw >> 4) & 0xF) as u8,
        crc: (raw & 0xF) as u8,
    }
}

/// Extract the measurement fields from the fused 32-bit register contents.
pub fn fused_fields(raw: u32) -> (r: MeasurementFields)
    ensures
        r == spec_fused_fields(raw),
        r.wf(),
{
    proof {
        assert(((raw >> 28) & 0xF) < 16 && ((raw >> 8) & 0xFFFFF) < 0x100000
            && ((raw >> 4) & 0xF) < 16 && (raw & 0xF) < 16) by (bit_vector);
    }
    MeasurementFields {
        exponent: ((raw >> 28) & 0xF) as u8,
        mantissa: (raw >> 8) & 0xFFFFF,
        counter: ((raw >> 4) & 0xF) as u8,
        crc: (raw & 0xF) as u8,
    }
}

/// Field extraction from the split pair of 16-bit measurement registers.
/// The high register holds the exponent (bits 12..=15) and the upper 12
/// mantissa bits (bits 0..=11); the low register holds the lower 8 mantissa
/// bits (bits 8..=15), the counter (bits 4..=7) and the CRC (bits 0..=3).
pub open spec fn spec_split_fields(hi: u16, lo: u16) -> MeasurementFields {
    MeasurementFields {
        exponent: ((hi >> 12) & 0xF) as u8,
        mantissa: (((hi & 0xFFF) as u32) << 8) | (((lo >> 8) & 0xFF) as u32),
        counter: ((lo >> 4) & 0xF) as u8,
        crc: (lo & 0xF) as u8,
    }
}

/// Extract the measurement fields from the split register contents,
/// reassembling the 20-bit mantissa from its two parts.
pub fn split_fields(hi: u16, lo: u16) -> (r: MeasurementFields)
    ensures
        r == spec_split_fields(hi, lo),
        r.wf(),
{
    proof {
        assert(((hi >> 12) & 0xF) < 16
            && ((((hi & 0xFFF) as u32) << 8) | (((lo >> 8) & 0xFF) as u32)) < 0x100000
            && ((lo >> 4) & 0xF) < 16 && (lo & 0xF) < 16) by (bit_vector);
    }
    MeasurementFields {
        exponent: ((hi >> 12) & 0xF) as u8,
        mantissa: (((hi & 0xFFF) as u32) << 8) | (((lo >> 8) & 0xFF) as u32),
        counter: ((lo >> 4) & 0xF) as u8,
        crc: (lo & 0xF) as u8,
    }
}

/// The verified reading drawn from a set of measurement fields: the physical
/// value (mantissa shifted left by the exponent) paired with the counter if
/// the CRC field matches the computed check value, nothing otherwise.
pub open spec fn spec_reading(f: MeasurementFields) -> Option<(u32, u8)> {
    if f.crc == spec_crc(f.exponent, f.mantissa, f.counter) {
        Some((f.mantissa << (f.exponent as u32), f.counter))
    } else {
        None
    }
}

/// Authenticate a set of measurement fields against its CRC field and, on a
/// match, return the physical value and the measurement counter. A mismatch
/// yields nothing: a corrupted reading is never surfaced as valid data.
pub fn decode_reading(f: MeasurementFields) -> (r: Option<(u32, u8)>)
    requires
        f.wf(),
    ensures
        r == spec_reading(f),
{
    let check = calculate_crc(f.exponent, f.mantissa, f.counter);
    if f.crc == check {
        Some((f.mantissa << (f.exponent as u32), f.counter))
    } else {
        None
    }
}

/// Law: the fused path and the split path decode identical raw register
/// content to identical fields, and so to the same verified reading. The
/// split pair aliasing the fused register holds its upper and lower 16 bits.
pub proof fn lemma_fused_split_agree(raw: u32)
    ensures
        spec_split_fields(((raw >> 16) & 0xFFFF) as u16, (raw & 0xFFFF) as u16)
            == spec_fused_fields(raw),
        spec_reading(spec_split_fields(((raw >> 16) & 0xFFFF) as u16, (raw & 0xFFFF) as u16))
            == spec_reading(spec_fused_fields(raw)),
{
    let hi = ((raw >> 16) & 0xFFFF) as u16;
    let lo = (raw & 0xFFFF) as u16;
    assert(((hi >> 12) & 0xF) as u8 == ((raw >> 28) & 0xF) as u8
        && ((((hi & 0xFFF) as u32) << 8) | (((lo >> 8) & 0xFF) as u32)) == ((raw >> 8) & 0xFFFFF)
        && ((lo >> 4) & 0xF) as u8 == ((raw >> 4) & 0xF) as u8
        && (lo & 0xF) as u8 == (raw & 0xF) as u8) by (bit_vector)
        requires
            hi == ((raw >> 16) & 0xFFFF) as u16,
            lo == (raw & 0xFFFF) as u16,
    ;
}

} // verus!
