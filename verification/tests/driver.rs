use opt4048::{
    Address, BurstRead, Bus, Channel, ConfigA, ConfigB, ConversionError, ConversionTime, Error,
    FaultCount, IntDirection, IntPolarity, Interface, Latch, OperatingMode, QuickWake, Range,
    Sensor, Status, build_write_frame, be_bytes_u16, be_u16, be_u32, calculate_crc,
    decode_config_a, decode_config_b, decode_device_id, decode_status, encode_config_a,
    encode_config_b, fused_fields, measurement_address, measurement_low_address, split_fields,
};

const DEFAULT_DEV_ADDR: u8 = 0x44;

/// Test double for the bus transport: records every transaction and answers
/// reads from a queue of prepared byte responses.
struct MockBus {
    writes: Vec<(u8, Vec<u8>)>,
    reads: Vec<(u8, Vec<u8>, usize)>,
    responses: Vec<Vec<u8>>,
}

impl MockBus {
    fn new(responses: Vec<Vec<u8>>) -> Self {
        MockBus { writes: Vec::new(), reads: Vec::new(), responses }
    }
}

impl<'a> Bus for &'a mut MockBus {
    type BusError = u8;

    fn write(&mut self, dev_addr: u8, bytes: &[u8]) -> Result<(), u8> {
        self.writes.push((dev_addr, bytes.to_vec()));
        Ok(())
    }

    fn write_then_read(&mut self, dev_addr: u8, bytes: &[u8], n: usize) -> Result<Vec<u8>, u8> {
        self.reads.push((dev_addr, bytes.to_vec(), n));
        let data = self.responses.remove(0);
        assert_eq!(data.len(), n);
        Ok(data)
    }
}

/// A transport that fails every transaction with a fixed error code.
struct FailBus;

impl Bus for FailBus {
    type BusError = u8;

    fn write(&mut self, _dev_addr: u8, _bytes: &[u8]) -> Result<(), u8> {
        Err(7)
    }

    fn write_then_read(&mut self, _dev_addr: u8, _bytes: &[u8], _n: usize) -> Result<Vec<u8>, u8> {
        Err(7)
    }
}

#[test]
fn set_config_a() {
    let mut bus = MockBus::new(vec![]);
    {
        let mut sensor = Sensor::new(&mut bus, Address::default());
        sensor
            .set_config_a(ConfigA {
                operating_mode: OperatingMode::Continuous,
                conv_time: ConversionTime::Ms25,
                ..Default::default()
            })
            .unwrap();
    }
    assert_eq!(bus.writes, vec![(DEFAULT_DEV_ADDR, vec![0x0A, 0x31, 0xB8])]);
}

#[test]
fn set_config_b_default_is_reset_value() {
    let mut bus = MockBus::new(vec![]);
    {
        let mut sensor = Sensor::new(&mut bus, Address::default());
        sensor.set_config_b(ConfigB::default()).unwrap();
    }
    assert_eq!(bus.writes, vec![(DEFAULT_DEV_ADDR, vec![0x0B, 0x80, 0x11])]);
}

#[test]
fn config_a_round_trips() {
    let low = ConfigA {
        qwake: QuickWake::Disabled,
        range: Range::Manual(0),
        conv_time: ConversionTime::Us600,
        operating_mode: OperatingMode::PowerDown,
        latch: Latch::TransparentHysteresis,
        int_pol: IntPolarity::Low,
        fault_count: FaultCount::One,
    };
    let high = ConfigA {
        qwake: QuickWake::Enabled,
        range: Range::Auto,
        conv_time: ConversionTime::Ms800,
        operating_mode: OperatingMode::Continuous,
        latch: Latch::LatchedWindow,
        int_pol: IntPolarity::High,
        fault_count: FaultCount::Eight,
    };
    let manual_max = ConfigA { range: Range::Manual(11), ..Default::default() };
    for cfg in [low, high, manual_max, ConfigA::default()] {
        assert_eq!(decode_config_a(encode_config_a(cfg)), Ok(cfg));
    }
}

#[test]
fn default_configs_encode_to_the_reset_values() {
    assert_eq!(encode_config_a(ConfigA::default()), 0x3208);
    assert_eq!(encode_config_b(ConfigB::default()), 0x8011);
}

#[test]
fn config_b_round_trips() {
    let low = ConfigB {
        threshold_ch: Channel::Ch0,
        int_dir: IntDirection::Input,
        int_cfg: 0,
        burst_read: BurstRead::Disabled,
    };
    let high = ConfigB {
        threshold_ch: Channel::Ch3,
        int_dir: IntDirection::Output,
        int_cfg: 3,
        burst_read: BurstRead::Enabled,
    };
    for cfg in [low, high, ConfigB::default()] {
        assert_eq!(decode_config_b(encode_config_b(cfg)), Ok(cfg));
    }
}

#[test]
fn range_codes_round_trip_and_reject() {
    assert_eq!(Range::Manual(11).code(), 11);
    assert_eq!(Range::from_code(11), Ok(Range::Manual(11)));
    assert_eq!(Range::from_code(12), Ok(Range::Auto));
    assert_eq!(Range::from_code(13), Err(ConversionError::Range(13)));
}

#[test]
fn invalid_codes_carry_the_offending_value() {
    assert_eq!(QuickWake::from_code(2), Err(ConversionError::QuickWake(2)));
    assert_eq!(ConversionTime::from_code(12), Err(ConversionError::ConversionTime(12)));
    assert_eq!(OperatingMode::from_code(4), Err(ConversionError::OperatingMode(4)));
    assert_eq!(Latch::from_code(2), Err(ConversionError::Latch(2)));
    assert_eq!(IntPolarity::from_code(2), Err(ConversionError::IntPolarity(2)));
    assert_eq!(IntDirection::from_code(2), Err(ConversionError::IntDirection(2)));
    assert_eq!(BurstRead::from_code(2), Err(ConversionError::BurstRead(2)));
    assert_eq!(FaultCount::from_code(4), Err(ConversionError::FaultCount(4)));
    assert_eq!(Channel::from_code(4), Err(ConversionError::Channel(4)));
}

#[test]
fn decode_config_a_rejects_range_code_13() {
    // Range field sits at bits 10..=13; every other field reads as zero.
    let raw = 13u16 << 10;
    assert_eq!(decode_config_a(raw), Err(ConversionError::Range(13)));
}

#[test]
fn decode_config_a_rejects_conversion_time_code_12() {
    // A valid range code (0) with conversion-time field code 12.
    let raw = 12u16 << 6;
    assert_eq!(decode_config_a(raw), Err(ConversionError::ConversionTime(12)));
}

#[test]
fn crc_is_deterministic_and_four_bits() {
    let samples = [
        (0u8, 0u32, 0u8),
        (3, 5, 2),
        (0xF, 0xFFFFF, 0xF),
        (7, 0xABCDE, 9),
    ];
    for (e, m, c) in samples {
        let first = calculate_crc(e, m, c);
        let second = calculate_crc(e, m, c);
        assert_eq!(first, second);
        assert!(first < 16);
    }
}

#[test]
fn crc_exact_values() {
    // e = 0b0011, r = 0b101, c = 0b0010: only the parity bit x0 is set.
    assert_eq!(calculate_crc(0b0011, 0b101, 0b0010), 0b0001);
    assert_eq!(calculate_crc(0, 0, 0), 0);
    // Inputs are masked to their field widths before the parity formulas.
    assert_eq!(calculate_crc(0x13, 0x100005, 0x12), calculate_crc(0x3, 0x5, 0x2));
}

#[test]
fn read_raw_fused_path() {
    // exponent 0b0011, mantissa 5, counter 2, and the matching CRC 1.
    let mut bus = MockBus::new(vec![vec![0x30, 0x00, 0x05, 0x21]]);
    let result = {
        let mut sensor = Sensor::new(&mut bus, Address::default());
        sensor.read_raw(Channel::Ch0, BurstRead::Enabled)
    };
    assert_eq!(result, Ok((5 << 3, 2)));
    assert_eq!(bus.reads, vec![(DEFAULT_DEV_ADDR, vec![0x00], 4)]);
}

#[test]
fn read_raw_split_path_matches_fused() {
    // The same register content as the fused read, split into its halves.
    let mut bus = MockBus::new(vec![vec![0x30, 0x00], vec![0x05, 0x21]]);
    let result = {
        let mut sensor = Sensor::new(&mut bus, Address::default());
        sensor.read_raw(Channel::Ch0, BurstRead::Disabled)
    };
    assert_eq!(result, Ok((5 << 3, 2)));
    assert_eq!(
        bus.reads,
        vec![(DEFAULT_DEV_ADDR, vec![0x00], 2), (DEFAULT_DEV_ADDR, vec![0x01], 2)]
    );
}

#[test]
fn read_raw_rejects_bad_crc() {
    // Same fields as the fused-path test, but the CRC field reads 0, not 1.
    let mut bus = MockBus::new(vec![vec![0x30, 0x00, 0x05, 0x20]]);
    let result = {
        let mut sensor = Sensor::new(&mut bus, Address::default());
        sensor.read_raw(Channel::Ch0, BurstRead::Enabled)
    };
    assert_eq!(result, Err(Error::Crc));
}

#[test]
fn read_raw_uses_channel_stride() {
    let mut bus = MockBus::new(vec![vec![0x30, 0x00, 0x05, 0x21]]);
    {
        let mut sensor = Sensor::new(&mut bus, Address::default());
        sensor.read_raw(Channel::Ch2, BurstRead::Enabled).unwrap();
    }
    assert_eq!(bus.reads, vec![(DEFAULT_DEV_ADDR, vec![0x04], 4)]);
}

#[test]
fn measurement_addresses_follow_stride() {
    assert_eq!(measurement_address(Channel::Ch0), 0);
    assert_eq!(measurement_address(Channel::Ch2), 4);
    assert_eq!(measurement_low_address(Channel::Ch0), 1);
    assert_eq!(measurement_low_address(Channel::Ch3), 7);
}

#[test]
fn field_extraction_fused_and_split() {
    let fused = fused_fields(0x30000521);
    assert_eq!(fused.exponent, 3);
    assert_eq!(fused.mantissa, 5);
    assert_eq!(fused.counter, 2);
    assert_eq!(fused.crc, 1);
    let split = split_fields(0x3000, 0x0521);
    assert_eq!(split, fused);
}

#[test]
fn read_status_decodes_flags() {
    let mut bus = MockBus::new(vec![vec![0x00, 0x0A]]);
    let status = {
        let mut sensor = Sensor::new(&mut bus, Address::default());
        sensor.read_status().unwrap()
    };
    assert_eq!(
        status,
        Status { overload: true, conv_ready: false, flag_h: true, flag_l: false }
    );
    assert_eq!(bus.reads, vec![(DEFAULT_DEV_ADDR, vec![0x0C], 2)]);
}

#[test]
fn read_device_id_decodes_parts() {
    // didl = 0x1 (bits 12..=13), didh = 0x0AB (bits 0..=11).
    let mut bus = MockBus::new(vec![vec![0x10, 0xAB]]);
    let id = {
        let mut sensor = Sensor::new(&mut bus, Address::default());
        sensor.read_device_id().unwrap()
    };
    assert_eq!(id, (1, 0x0AB));
    assert_eq!(decode_device_id(0x10AB), (1, 0x0AB));
}

#[test]
fn write_register_rejects_oversized_payload() {
    let mut iface = Interface::new(FailBus, DEFAULT_DEV_ADDR);
    let result = iface.write_register(0x0A, &[1, 2, 3, 4, 5]);
    assert_eq!(result, Err(Error::BufferOverflow));
}

#[test]
fn build_write_frame_prefixes_the_register_address() {
    assert_eq!(build_write_frame(0x0A, &[0x31, 0xB8]), Some(vec![0x0A, 0x31, 0xB8]));
    assert_eq!(build_write_frame(0x00, &[1, 2, 3, 4]), Some(vec![0x00, 1, 2, 3, 4]));
    assert_eq!(build_write_frame(0x00, &[1, 2, 3, 4, 5]), None);
}

#[test]
fn transport_errors_pass_through() {
    let mut sensor = Sensor::new(FailBus, Address::default());
    assert_eq!(sensor.set_config_a(ConfigA::default()), Err(Error::I2c(7)));
    assert_eq!(sensor.read_status(), Err(Error::I2c(7)));
    assert_eq!(sensor.read_raw(Channel::Ch0, BurstRead::Enabled), Err(Error::I2c(7)));
}

#[test]
fn bus_addresses() {
    assert_eq!(Address::Gnd.bus_address(), 0b1000100);
    assert_eq!(Address::Vdd.bus_address(), 0b1000101);
    assert_eq!(Address::Sda.bus_address(), 0b1000110);
    assert_eq!(Address::Scl.bus_address(), 0b1000111);
    assert_eq!(Address::PicoStar.bus_address(), 0b1000101);
}

#[test]
fn big_endian_helpers() {
    assert_eq!(be_u16(0x12, 0x34), 0x1234);
    assert_eq!(be_u32(0x12, 0x34, 0x56, 0x78), 0x12345678);
    assert_eq!(be_bytes_u16(0x31B8), vec![0x31, 0xB8]);
}

#[test]
fn conversion_error_can_be_wrapped() {
    let e = decode_config_a(13u16 << 10).unwrap_err();
    let wrapped: Error<u8> = Error::Conversion(e);
    assert_eq!(wrapped, Error::Conversion(ConversionError::Range(13)));
}
