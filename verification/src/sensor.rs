use vstd::prelude::*;

use crate::access::{Interface, be_bytes_u16};
use crate::bus::Bus;
use crate::common::{Address, BurstRead, Channel, ConfigA, ConfigB, Status};
use crate::error::Error;
use crate::measurement::{
    MeasurementFields, decode_reading, fused_fields, spec_reading, split_fields,
};
use crate::registers::{
    CONFIG_A_ADDRESS, CONFIG_B_ADDRESS, DEVICE_ID_ADDRESS, STATUS_ADDRESS, decode_device_id,
    decode_status, encode_config_a, encode_config_b, measurement_address, measurement_low_address,
    spec_decode_device_id, spec_decode_status,
};

verus! {

/// Sensor driver: the typed front of the register codec, bound to one bus
/// handle and one device address for its lifetime.
pub struct Sensor<BUS: Bus> {
    interface: Interface<BUS>,
}

impl<BUS: Bus> Sensor<BUS> {
    /// The 7-bit bus address every transaction of this handle is issued to.
    pub closed spec fn spec_device_address(&self) -> u8 {
        self.interface.spec_device_address()
    }

    /// Take exclusive ownership of the bus handle for the device selected
    /// by the address pin wiring. No bus transaction is issued during
    /// construction.
    pub fn new(bus: BUS, addr: Address) -> (r: Self)
        ensures
            r.spec_device_address() == addr.spec_bus_address(),
    {
        Sensor { interface: Interface::new(bus, addr.bus_address()) }
    }

    /// Read one measurement of a channel and return its raw physical value
    /// (mantissa shifted left by the exponent) and the running measurement
    /// count, through whichever read path the caller's burst-read
    /// configuration selects: one fused 32-bit register read, or two 16-bit
    /// half register reads. Either way the decoded fields are authenticated
    /// against the CRC field before any value is surfaced; a mismatch fails
    /// with the CRC error.
    pub fn read_raw(&mut self, channel: Channel, burst: BurstRead) -> (r: Result<
        (u32, u8),
        Error<BUS::BusError>,
    >)
        ensures
            r matches Ok(v) ==> exists|f: MeasurementFields|
                f.wf() && #[trigger] spec_reading(f) == Some(v),
            r matches Err(e) ==> (e is I2c || e is Crc),
            final(self).spec_device_address() == old(self).spec_device_address(),
    {
        let fields = match burst {
            BurstRead::Enabled => {
                let raw = match self.interface.read_register32(measurement_address(channel)) {
                    Ok(v) => v,
                    Err(e) => {
                        return Err(e);
                    },
                };
                fused_fields(raw)
            },
            BurstRead::Disabled => {
                let hi = match self.interface.read_register16(measurement_address(channel)) {
                    Ok(v) => v,
                    Err(e) => {
                        return Err(e);
                    },
                };
                let lo = match self.interface.read_register16(measurement_low_address(channel)) {
                    Ok(v) => v,
                    Err(e) => {
                        return Err(e);
                    },
                };
                split_fields(hi, lo)
            },
        };
        match decode_reading(fields) {
            Some(v) => {
                Ok(v)
            },
            None => Err(Error::Crc),
        }
    }

    /// Encode the first configuration record and write it to its register
    /// at address 0x0A.
    pub fn set_config_a(&mut self, cfg: ConfigA) -> (r: Result<(), Error<BUS::BusError>>)
        requires
            cfg.wf(),
        ensures
            r matches Err(e) ==> e is I2c,
            final(self).spec_device_address() == old(self).spec_device_address(),
    {
        let raw = encode_config_a(cfg);
        let bytes = be_bytes_u16(raw);
        self.interface.write_register(CONFIG_A_ADDRESS, bytes.as_slice())
    }

    /// Encode the second configuration record and write it to its register
    /// at address 0x0B.
    pub fn set_config_b(&mut self, cfg: ConfigB) -> (r: Result<(), Error<BUS::BusError>>)
        requires
            cfg.wf(),
        ensures
            r matches Err(e) ==> e is I2c,
            final(self).spec_device_address() == old(self).spec_device_address(),
    {
        let raw = encode_config_b(cfg);
        let bytes = be_bytes_u16(raw);
        self.interface.write_register(CONFIG_B_ADDRESS, bytes.as_slice())
    }

    /// Read the status register and return its four flags, reconstructed
    /// fresh from the register contents.
    pub fn read_status(&mut self) -> (r: Result<Status, Error<BUS::BusError>>)
        ensures
            r matches Ok(s) ==> exists|raw: u16| s == #[trigger] spec_decode_status(raw),
            r matches Err(e) ==> e is I2c,
            final(self).spec_device_address() == old(self).spec_device_address(),
    {
        let raw = match self.interface.read_register16(STATUS_ADDRESS) {
            Ok(v) => v,
            Err(e) => {
                return Err(e);
            },
        };
        let s = decode_status(raw);
        Ok(s)
    }

    /// Read the device identification register and return its low and high
    /// parts, in that order.
    pub fn read_device_id(&mut self) -> (r: Result<(u8, u16), Error<BUS::BusError>>)
        ensures
            r matches Ok(id) ==> (id.0 < 4 && id.1 < 0x1000 && exists|raw: u16|
                id == #[trigger] spec_decode_device_id(raw)),
            r matches Err(e) ==> e is I2c,
            final(self).spec_device_address() == old(self).spec_device_address(),
    {
        let raw = match self.interface.read_register16(DEVICE_ID_ADDRESS) {
            Ok(v) => v,
            Err(e) => {
                return Err(e);
            },
        };
        let id = decode_device_id(raw);
        Ok(id)
    }
}

} // verus!
