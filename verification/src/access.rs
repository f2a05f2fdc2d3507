use vstd::prelude::*;

use crate::bus::Bus;
use crate::error::Error;

verus! {

/// The transport buffer holds the register address byte plus at most this
/// many data bytes.
pub const MAX_WRITE_PAYLOAD: usize = 4;

/// The big-endian 16-bit value carried by two register bytes, most
/// significant byte first.
pub open spec fn spec_be_u16(b0: u8, b1: u8) -> u16 {
    ((b0 as u16) << 8) | (b1 as u16)
}

/// Assemble a 16-bit register value from its two big-endian bytes.
pub fn be_u16(b0: u8, b1: u8) -> (r: u16)
    ensures
        r == spec_be_u16(b0, b1),
{
    ((b0 as u16) << 8) | (b1 as u16)
}

/// The big-endian 32-bit value carried by four register bytes, most
/// significant byte first.
pub open spec fn spec_be_u32(b0: u8, b1: u8, b2: u8, b3: u8) -> u32 {
    ((b0 as u32) << 24) | ((b1 as u32) << 16) | ((b2 as u32) << 8) | (b3 as u32)
}

/// Assemble a 32-bit register value from its four big-endian bytes.
pub fn be_u32(b0: u8, b1: u8, b2: u8, b3: u8) -> (r: u32)
    ensures
        r == spec_be_u32(b0, b1, b2, b3),
{
    ((b0 as u32) << 24) | ((b1 as u32) << 16) | ((b2 as u32) << 8) | (b3 as u32)
}

/// Split a 16-bit register value into its big-endian byte sequence.
pub fn be_bytes_u16(v: u16) -> (r: Vec<u8>)
    ensures
        r@.len() == 2,
        r@[0] == (v >> 8) as u8,
        r@[1] == v as u8,
        spec_be_u16(r@[0], r@[1]) == v,
{
    proof {
        assert(spec_be_u16((v >> 8) as u8, v as u8) == v) by (bit_vector);
    }
    let mut r: Vec<u8> = Vec::new();
    r.push((v >> 8) as u8);
    r.push(v as u8);
    r
}

/// Build the wire frame of a register write: the register address byte
/// followed by the payload, or nothing if the payload would exceed the
/// fixed 5-byte transport buffer.
pub fn build_write_frame(reg_addr: u8, data: &[u8]) -> (r: Option<Vec<u8>>)
    ensures
        data@.len() <= MAX_WRITE_PAYLOAD ==> (r matches Some(f) && f@ == seq![reg_addr] + data@),
        data@.len() > MAX_WRITE_PAYLOAD ==> r is None,
{
    if data.len() > MAX_WRITE_PAYLOAD {
        return None;
    }
    let mut frame: Vec<u8> = Vec::new();
    frame.push(reg_addr);
    let mut i: usize = 0;
    while i < data.len()
        invariant
            i <= data@.len(),
            frame@ == seq![reg_addr] + data@.subrange(0, i as int),
        decreases data@.len() - i,
    {
        frame.push(data[i]);
        proof {
            assert(data@.subrange(0, i + 1 as int) == data@.subrange(0, i as int) + seq![data@[i as int]]);
        }
        i += 1;
    }
    proof {
        assert(data@.subrange(0, data@.len() as int) == data@);
    }
    Some(frame)
}

/// Register access layer: owns the bus handle and the device's 7-bit bus
/// address, and performs the one transaction a register read or write needs.
pub struct Interface<BUS: Bus> {
    bus: BUS,
    dev_addr: u8,
}

impl<BUS: Bus> Interface<BUS> {
    /// The 7-bit bus address every transaction of this handle is issued to.
    pub closed spec fn spec_device_address(&self) -> u8 {
        self.dev_addr
    }

    /// Take ownership of the bus handle for a device at the given address.
    /// No bus transaction is issued during construction.
    pub fn new(bus: BUS, dev_addr: u8) -> (r: Self)
        ensures
            r.spec_device_address() == dev_addr,
    {
        Interface { bus, dev_addr }
    }

    /// Write a register: one bus write of the register address byte followed
    /// by the big-endian payload. A payload that would exceed the fixed
    /// transport buffer is rejected before any bus call is issued; a
    /// transport failure is passed through unchanged.
    pub fn write_register(&mut self, reg_addr: u8, data: &[u8]) -> (r: Result<
        (),
        Error<BUS::BusError>,
    >)
        ensures
            data@.len() > MAX_WRITE_PAYLOAD ==> r == Err::<(), Error<BUS::BusError>>(
                Error::BufferOverflow,
            ),
            data@.len() <= MAX_WRITE_PAYLOAD ==> (r is Ok || (r matches Err(e) && e is I2c)),
            final(self).spec_device_address() == old(self).spec_device_address(),
    {
        let frame = match build_write_frame(reg_addr, data) {
            Some(f) => f,
            None => {
                return Err(Error::BufferOverflow);
            },
        };
        match self.bus.write(self.dev_addr, frame.as_slice()) {
            Ok(()) => Ok(()),
            Err(e) => Err(Error::I2c(e)),
        }
    }

    /// Read a 16-bit register: write the register address byte, read two
    /// bytes back, most significant byte first.
    pub fn read_register16(&mut self, reg_addr: u8) -> (r: Result<u16, Error<BUS::BusError>>)
        ensures
            r matches Err(e) ==> e is I2c,
            final(self).spec_device_address() == old(self).spec_device_address(),
    {
        let mut out: Vec<u8> = Vec::new();
        out.push(reg_addr);
        match self.bus.write_then_read(self.dev_addr, out.as_slice(), 2) {
            Ok(data) => Ok(be_u16(data[0], data[1])),
            Err(e) => Err(Error::I2c(e)),
        }
    }

    /// Read a 32-bit register: write the register address byte, read four
    /// bytes back, most significant byte first.
    pub fn read_register32(&mut self, reg_addr: u8) -> (r: Result<u32, Error<BUS::BusError>>)
        ensures
            r matches Err(e) ==> e is I2c,
            final(self).spec_device_address() == old(self).spec_device_address(),
    {
        let mut out: Vec<u8> = Vec::new();
        out.push(reg_addr);
        match self.bus.write_then_read(self.dev_addr, out.as_slice(), 4) {
            Ok(data) => Ok(be_u32(data[0], data[1], data[2], data[3])),
            Err(e) => Err(Error::I2c(e)),
        }
    }
}

} // verus!
