//! Register-level driver for a four-channel ambient-light-sensing IC on a
//! two-wire synchronous bus.
//!
//! The heart of the crate is the typed register codec: the bidirectional
//! mapping between semantic configuration and status values and their exact
//! bit positions inside the device's fixed-width registers, the two
//! measurement-read paths (one fused 32-bit register, or a split pair of
//! 16-bit registers), and the 4-bit parity CRC that authenticates a decoded
//! measurement. Each codec function carries a contract pinning the bit layout
//! down, and the round-trip and path-agreement laws are proved.

mod access;
mod bus;
mod codec;
mod common;
mod error;
mod measurement;
mod registers;
mod sensor;

pub use access::{
    Interface, MAX_WRITE_PAYLOAD, be_bytes_u16, be_u16, be_u32, build_write_frame, spec_be_u16,
    spec_be_u32,
};
pub use bus::Bus;
pub use codec::lemma_invalid_codes_carry_their_value;
pub use common::{
    Address, BurstRead, Channel, ConfigA, ConfigB, ConversionTime, FaultCount, IntDirection,
    IntPolarity, Latch, OperatingMode, QuickWake, Range, Status,
};
pub use error::{ConversionError, Error};
pub use measurement::{
    MeasurementFields, calculate_crc, decode_reading, fused_fields, lemma_fused_split_agree,
    spec_bit, spec_crc, spec_fused_fields, spec_reading, spec_split_fields, split_fields,
};
pub use registers::{
    CHANNEL_STRIDE, CONFIG_A_ADDRESS, CONFIG_B_ADDRESS, CONFIG_B_FIXED_BITS, DEVICE_ID_ADDRESS,
    MEASUREMENT_ADDRESS, MEASUREMENT_LOW_ADDRESS, STATUS_ADDRESS, decode_config_a, decode_config_b,
    decode_device_id, decode_status, encode_config_a, encode_config_b, lemma_config_a_round_trip,
    lemma_config_b_decode_total, lemma_config_b_round_trip, measurement_address,
    measurement_low_address, spec_decode_config_a,
    spec_decode_config_b, spec_decode_device_id, spec_decode_status, spec_encode_config_a,
    spec_encode_config_b,
};
pub use sensor::Sensor;
