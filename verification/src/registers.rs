use vstd::prelude::*;

use crate::common::{
    BurstRead, Channel, ConfigA, ConfigB, ConversionTime, FaultCount, IntDirection, IntPolarity,
    Latch, OperatingMode, QuickWake, Range, Status,
};
use crate::error::ConversionError;

verus! {

// Register map of the device. All registers are big-endian; the measurement
// registers are replicated once per channel at a 2-byte address stride, the
// 32-bit fused register overlapping the two 16-bit half registers.

/// Fused 32-bit measurement register (and its high 16-bit half) of channel 0.
pub const MEASUREMENT_ADDRESS: u8 = 0x00;

/// Low 16-bit measurement register of channel 0.
pub const MEASUREMENT_LOW_ADDRESS: u8 = 0x01;

/// First configuration register.
pub const CONFIG_A_ADDRESS: u8 = 0x0A;

/// Second configuration register.
pub const CONFIG_B_ADDRESS: u8 = 0x0B;

/// Status register.
pub const STATUS_ADDRESS: u8 = 0x0C;

/// Device identification register.
pub const DEVICE_ID_ADDRESS: u8 = 0x11;

/// Address distance between the registers of two neighbouring channels.
pub const CHANNEL_STRIDE: u8 = 2;

/// Bits of the second configuration register that belong to no field; they
/// are kept at their reset default when the register is written.
pub const CONFIG_B_FIXED_BITS: u16 = 0x8000;

/// Register address of the fused (or high) measurement register of a channel.
pub fn measurement_address(ch: Channel) -> (r: u8)
    ensures
        r == MEASUREMENT_ADDRESS + ch.spec_code() * CHANNEL_STRIDE,
{
    MEASUREMENT_ADDRESS + ch.code() * CHANNEL_STRIDE
}

/// Register address of the low measurement register of a channel.
pub fn measurement_low_address(ch: Channel) -> (r: u8)
    ensures
        r == MEASUREMENT_LOW_ADDRESS + ch.spec_code() * CHANNEL_STRIDE,
{
    MEASUREMENT_LOW_ADDRESS + ch.code() * CHANNEL_STRIDE
}

/// The raw contents of the first configuration register for a configuration:
/// each field code shifted to its bit position and OR-ed together.
/// Layout: qwake bit 15, range bits 10..=13, conversion time bits 6..=9,
/// operating mode bits 4..=5, latch bit 3, interrupt polarity bit 2,
/// fault count bits 0..=1.
pub open spec fn spec_encode_config_a(c: ConfigA) -> u16 {
    ((c.qwake.spec_code() as u16) << 15) | ((c.range.spec_code() as u16) << 10)
        | ((c.conv_time.spec_code() as u16) << 6) | ((c.operating_mode.spec_code() as u16) << 4)
        | ((c.latch.spec_code() as u16) << 3) | ((c.int_pol.spec_code() as u16) << 2)
        | (c.fault_count.spec_code() as u16)
}

/// Encode a configuration into the raw contents of the first configuration
/// register. Encoding a well-formed configuration never fails.
pub fn encode_config_a(cfg: ConfigA) -> (r: u16)
    requires
        cfg.wf(),
    ensures
        r == spec_encode_config_a(cfg),
{
    ((cfg.qwake.code() as u16) << 15) | ((cfg.range.code() as u16) << 10)
        | ((cfg.conv_time.code() as u16) << 6) | ((cfg.operating_mode.code() as u16) << 4)
        | ((cfg.latch.code() as u16) << 3) | ((cfg.int_pol.code() as u16) << 2)
        | (cfg.fault_count.code() as u16)
}

/// Decode of the first configuration register: each field is extracted by
/// shift and mask, then narrowed; the first field whose code is outside its
/// valid set aborts the decode with its conversion error, fields checked
/// from the most significant downward.
pub open spec fn spec_decode_config_a(raw: u16) -> Result<ConfigA, ConversionError> {
    match QuickWake::spec_from_code(((raw >> 15) & 0x1) as u8) {
        Err(e) => Err(e),
        Ok(qwake) => match Range::spec_from_code(((raw >> 10) & 0xF) as u8) {
            Err(e) => Err(e),
            Ok(range) => match ConversionTime::spec_from_code(((raw >> 6) & 0xF) as u8) {
                Err(e) => Err(e),
                Ok(conv_time) => match OperatingMode::spec_from_code(((raw >> 4) & 0x3) as u8) {
                    Err(e) => Err(e),
                    Ok(operating_mode) => match Latch::spec_from_code(((raw >> 3) & 0x1) as u8) {
                        Err(e) => Err(e),
                        Ok(latch) => match IntPolarity::spec_from_code(((raw >> 2) & 0x1) as u8) {
                            Err(e) => Err(e),
                            Ok(int_pol) => match FaultCount::spec_from_code((raw & 0x3) as u8) {
                                Err(e) => Err(e),
                                Ok(fault_count) => Ok(ConfigA {
                                    qwake,
                                    range,
                                    conv_time,
                                    operating_mode,
                                    latch,
                                    int_pol,
                                    fault_count,
                                }),
                            },
                        },
                    },
                },
            },
        },
    }
}

/// Decode the raw contents of the first configuration register.
pub fn decode_config_a(raw: u16) -> (r: Result<ConfigA, ConversionError>)
    ensures
        r == spec_decode_config_a(raw),
{
    let qwake = match QuickWake::from_code(((raw >> 15) & 0x1) as u8) {
        Ok(v) => v,
        Err(e) => return Err(e),
    };
    let range = match Range::from_code(((raw >> 10) & 0xF) as u8) {
        Ok(v) => v,
        Err(e) => return Err(e),
    };
    let conv_time = match ConversionTime::from_code(((raw >> 6) & 0xF) as u8) {
        Ok(v) => v,
        Err(e) => return Err(e),
    };
    let operating_mode = match OperatingMode::from_code(((raw >> 4) & 0x3) as u8) {
        Ok(v) => v,
        Err(e) => return Err(e),
    };
    let latch = match Latch::from_code(((raw >> 3) & 0x1) as u8) {
        Ok(v) => v,
        Err(e) => return Err(e),
    };
    let int_pol = match IntPolarity::from_code(((raw >> 2) & 0x1) as u8) {
        Ok(v) => v,
        Err(e) => return Err(e),
    };
    let fault_count = match FaultCount::from_code((raw & 0x3) as u8) {
        Ok(v) => v,
        Err(e) => return Err(e),
    };
    Ok(ConfigA { qwake, range, conv_time, operating_mode, latch, int_pol, fault_count })
}

/// The raw contents of the second configuration register for a configuration.
/// Layout: threshold channel bits 5..=6, interrupt direction bit 4,
/// interrupt mechanism bits 2..=3, burst read bit 0; the unrelated bits stay
/// at their reset default.
pub open spec fn spec_encode_config_b(c: ConfigB) -> u16 {
    CONFIG_B_FIXED_BITS | ((c.threshold_ch.spec_code() as u16) << 5)
        | ((c.int_dir.spec_code() as u16) << 4) | ((c.int_cfg as u16) << 2)
        | (c.burst_read.spec_code() as u16)
}

/// Encode a configuration into the raw contents of the second configuration
/// register. Encoding a well-formed configuration never fails.
pub fn encode_config_b(cfg: ConfigB) -> (r: u16)
    requires
        cfg.wf(),
    ensures
        r == spec_encode_config_b(cfg),
{
    CONFIG_B_FIXED_BITS | ((cfg.threshold_ch.code() as u16) << 5)
        | ((cfg.int_dir.code() as u16) << 4) | ((cfg.int_cfg as u16) << 2)
        | (cfg.burst_read.code() as u16)
}

/// Decode of the second configuration register. Every enumerated field of
/// this register fills its bit width completely, so the decode always
/// succeeds; the result stays fallible because the fields are narrowed
/// through the same checked conversions as every other register.
pub open spec fn spec_decode_config_b(raw: u16) -> Result<ConfigB, ConversionError> {
    match Channel::spec_from_code(((raw >> 5) & 0x3) as u8) {
        Err(e) => Err(e),
        Ok(threshold_ch) => match IntDirection::spec_from_code(((raw >> 4) & 0x1) as u8) {
            Err(e) => Err(e),
            Ok(int_dir) => match BurstRead::spec_from_code((raw & 0x1) as u8) {
                Err(e) => Err(e),
                Ok(burst_read) => Ok(ConfigB {
                    threshold_ch,
                    int_dir,
                    int_cfg: ((raw >> 2) & 0x3) as u8,
                    burst_read,
                }),
            },
        },
    }
}

/// Decode the raw contents of the second configuration register.
pub fn decode_config_b(raw: u16) -> (r: Result<ConfigB, ConversionError>)
    ensures
        r == spec_decode_config_b(raw),
{
    let threshold_ch = match Channel::from_code(((raw >> 5) & 0x3) as u8) {
        Ok(v) => v,
        Err(e) => return Err(e),
    };
    let int_dir = match IntDirection::from_code(((raw >> 4) & 0x1) as u8) {
        Ok(v) => v,
        Err(e) => return Err(e),
    };
    let burst_read = match BurstRead::from_code((raw & 0x1) as u8) {
        Ok(v) => v,
        Err(e) => return Err(e),
    };
    Ok(ConfigB { threshold_ch, int_dir, int_cfg: ((raw >> 2) & 0x3) as u8, burst_read })
}

/// Decode of the status register: four independent flag bits.
pub open spec fn spec_decode_status(raw: u16) -> Status {
    Status {
        overload: (raw >> 3) & 0x1 == 1,
        conv_ready: (raw >> 2) & 0x1 == 1,
        flag_h: (raw >> 1) & 0x1 == 1,
        flag_l: raw & 0x1 == 1,
    }
}

/// Decode the raw contents of the status register.
pub fn decode_status(raw: u16) -> (r: Status)
    ensures
        r == spec_decode_status(raw),
{
    Status {
        overload: (raw >> 3) & 0x1 == 1,
        conv_ready: (raw >> 2) & 0x1 == 1,
        flag_h: (raw >> 1) & 0x1 == 1,
        flag_l: raw & 0x1 == 1,
    }
}

/// Decode of the device identification register: the 2-bit low part (bits
/// 12..=13) and the 12-bit high part (bits 0..=11), in that order.
pub open spec fn spec_decode_device_id(raw: u16) -> (u8, u16) {
    (((raw >> 12) & 0x3) as u8, raw & 0xFFF)
}

/// Decode the raw contents of the device identification register.
pub fn decode_device_id(raw: u16) -> (r: (u8, u16))
    ensures
        r == spec_decode_device_id(raw),
        r.0 < 4,
        r.1 < 0x1000,
{
    proof {
        assert(((raw >> 12) & 0x3) < 4 && (raw & 0xFFF) < 0x1000) by (bit_vector);
    }
    (((raw >> 12) & 0x3) as u8, raw & 0xFFF)
}

/// Shifting each bounded field code to its position and OR-ing leaves every
/// field recoverable by its own shift and mask.
proof fn lemma_config_a_field_extraction(q: u16, rg: u16, ct: u16, md: u16, la: u16, ip: u16, fc: u16)
    by (bit_vector)
    requires
        q < 2,
        rg < 16,
        ct < 16,
        md < 4,
        la < 2,
        ip < 2,
        fc < 4,
    ensures
        (((q << 15) | (rg << 10) | (ct << 6) | (md << 4) | (la << 3) | (ip << 2) | fc) >> 15) & 0x1 == q,
        (((q << 15) | (rg << 10) | (ct << 6) | (md << 4) | (la << 3) | (ip << 2) | fc) >> 10) & 0xF == rg,
        (((q << 15) | (rg << 10) | (ct << 6) | (md << 4) | (la << 3) | (ip << 2) | fc) >> 6) & 0xF == ct,
        (((q << 15) | (rg << 10) | (ct << 6) | (md << 4) | (la << 3) | (ip << 2) | fc) >> 4) & 0x3 == md,
        (((q << 15) | (rg << 10) | (ct << 6) | (md << 4) | (la << 3) | (ip << 2) | fc) >> 3) & 0x1 == la,
        (((q << 15) | (rg << 10) | (ct << 6) | (md << 4) | (la << 3) | (ip << 2) | fc) >> 2) & 0x1 == ip,
        ((q << 15) | (rg << 10) | (ct << 6) | (md << 4) | (la << 3) | (ip << 2) | fc) & 0x3 == fc,
{
}

/// As for the first configuration register, with the fixed reset bits OR-ed
/// in; those bits lie outside every field mask.
proof fn lemma_config_b_field_extraction(th: u16, dr: u16, ic: u16, br: u16)
    by (bit_vector)
    requires
        th < 4,
        dr < 2,
        ic < 4,
        br < 2,
    ensures
        ((0x8000u16 | (th << 5) | (dr << 4) | (ic << 2) | br) >> 5) & 0x3 == th,
        ((0x8000u16 | (th << 5) | (dr << 4) | (ic << 2) | br) >> 4) & 0x1 == dr,
        ((0x8000u16 | (th << 5) | (dr << 4) | (ic << 2) | br) >> 2) & 0x3 == ic,
        (0x8000u16 | (th << 5) | (dr << 4) | (ic << 2) | br) & 0x1 == br,
{
}

/// Law: decoding an encoded first configuration gives the configuration
/// back, over the full field space of well-formed values.
pub proof fn lemma_config_a_round_trip(c: ConfigA)
    requires
        c.wf(),
    ensures
        spec_decode_config_a(spec_encode_config_a(c)) == Ok::<ConfigA, ConversionError>(c),
{
    let q = c.qwake.spec_code() as u16;
    let rg = c.range.spec_code() as u16;
    let ct = c.conv_time.spec_code() as u16;
    let md = c.operating_mode.spec_code() as u16;
    let la = c.latch.spec_code() as u16;
    let ip = c.int_pol.spec_code() as u16;
    let fc = c.fault_count.spec_code() as u16;
    lemma_config_a_field_extraction(q, rg, ct, md, la, ip, fc);
}

/// Law: decoding the second configuration register succeeds on every raw
/// value, since each enumerated field of that register fills its bit width.
pub proof fn lemma_config_b_decode_total(raw: u16)
    ensures
        spec_decode_config_b(raw) is Ok,
{
    assert(((raw >> 5) & 0x3) < 4 && ((raw >> 4) & 0x1) < 2 && (raw & 0x1) < 2) by (bit_vector);
}

/// Law: decoding an encoded second configuration gives the configuration
/// back, over the full field space of well-formed values.
pub proof fn lemma_config_b_round_trip(c: ConfigB)
    requires
        c.wf(),
    ensures
        spec_decode_config_b(spec_encode_config_b(c)) == Ok::<ConfigB, ConversionError>(c),
{
    let th = c.threshold_ch.spec_code() as u16;
    let dr = c.int_dir.spec_code() as u16;
    let ic = c.int_cfg as u16;
    let br = c.burst_read.spec_code() as u16;
    lemma_config_b_field_extraction(th, dr, ic, br);
}

} // verus!
