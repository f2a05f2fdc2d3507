use vstd::prelude::*;

verus! {

/// Data conversion error: a raw field code read back from the device had no
/// valid typed mapping. The offending register-relative field is named and the
/// raw code is carried.
#[derive(Clone, Copy, Debug, PartialEq, Eq, Structural)]
pub enum ConversionError {
    ConversionTime(u8),
    OperatingMode(u8),
    Range(u8),
    FaultCount(u8),
    Latch(u8),
    IntPolarity(u8),
    IntDirection(u8),
    Channel(u8),
    BurstRead(u8),
    QuickWake(u8),
}

/// All possible driver errors.
#[derive(Clone, Copy, Debug, PartialEq, Eq)]
pub enum Error<E> {
    /// The bus transport failed; its error is passed through unchanged.
    I2c(E),
    /// A decoded field carried a code outside its valid set.
    Conversion(ConversionError),
    /// A write payload would exceed the fixed 5-byte transport buffer.
    BufferOverflow,
    /// The computed measurement check value did not match the CRC field.
    Crc,
}

} // verus!
