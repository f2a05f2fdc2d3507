use vstd::prelude::*;

verus! {

/// The two-wire bus transport capability the driver runs over: a write of a
/// byte sequence to a device address, and a combined write-then-read
/// transaction. Implementations are supplied by the user of the driver (a
/// HAL adapter, a test double); the driver relies on nothing beyond what is
/// stated here, and any transport failure is passed through unchanged.
pub trait Bus {
    /// Transport-defined error type.
    type BusError;

    /// Write the bytes to the device at the given 7-bit address.
    fn write(&mut self, dev_addr: u8, bytes: &[u8]) -> (r: Result<(), Self::BusError>);

    /// Write the bytes to the device at the given 7-bit address, then read
    /// exactly `n` bytes back within the same transaction.
    fn write_then_read(&mut self, dev_addr: u8, bytes: &[u8], n: usize) -> (r: Result<
        Vec<u8>,
        Self::BusError,
    >)
        ensures
            r matches Ok(data) ==> data@.len() == n,
    ;
}

} // verus!
