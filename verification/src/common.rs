use vstd::prelude::*;

verus! {

/// Quick Wake: whether the device keeps its oscillator running between
/// one-shot conversions.
#[derive(Debug, Clone, Copy, PartialEq, Eq, Structural)]
pub enum QuickWake {
    Disabled,
    Enabled,
}

impl Default for QuickWake {
    fn default() -> (r: Self)
        ensures
            r == QuickWake::Disabled,
    {
        QuickWake::Disabled
    }
}

/// Light measurement range.
#[derive(Debug, Clone, Copy, PartialEq, Eq, Structural)]
pub enum Range {
    /// Manual range selection; valid codes are 0 through 11.
    Manual(u8),
    /// Automatic range selection.
    Auto,
}

impl Range {
    /// A manual payload must fit the device's 0..=11 code space; the code 12
    /// is reserved for automatic ranging.
    pub open spec fn wf(self) -> bool {
        match self {
            Range::Manual(v) => v < 12,
            Range::Auto => true,
        }
    }
}

impl Default for Range {
    fn default() -> (r: Self)
        ensures
            r == Range::Auto,
    {
        Range::Auto
    }
}

/// Conversion time: duration of one light measurement.
#[derive(Debug, Clone, Copy, PartialEq, Eq, Structural)]
pub enum ConversionTime {
    /// 600 microseconds
    Us600,
    /// 1 ms
    Ms1,
    /// 1.8 ms
    Ms1_8,
    /// 3.4 ms
    Ms3_4,
    /// 6.5 ms
    Ms6_5,
    /// 12.7 ms
    Ms12_7,
    /// 25 ms
    Ms25,
    /// 50 ms
    Ms50,
    /// 100 ms (device default)
    Ms100,
    /// 200 ms
    Ms200,
    /// 400 ms
    Ms400,
    /// 800 ms
    Ms800,
}

impl Default for ConversionTime {
    fn default() -> (r: Self)
        ensures
            r == ConversionTime::Ms100,
    {
        ConversionTime::Ms100
    }
}

/// Operating mode.
#[derive(Debug, Clone, Copy, PartialEq, Eq, Structural)]
pub enum OperatingMode {
    /// Powered down (device default).
    PowerDown,
    ForcedOneShot,
    RegularOneShot,
    Continuous,
}

impl Default for OperatingMode {
    fn default() -> (r: Self)
        ensures
            r == OperatingMode::PowerDown,
    {
        OperatingMode::PowerDown
    }
}

/// Interrupt reporting mode.
#[derive(Debug, Clone, Copy, PartialEq, Eq, Structural)]
pub enum Latch {
    /// Transparent hysteresis mode.
    TransparentHysteresis,
    /// Latched window mode (device default).
    LatchedWindow,
}

impl Default for Latch {
    fn default() -> (r: Self)
        ensures
            r == Latch::LatchedWindow,
    {
        Latch::LatchedWindow
    }
}

/// Interrupt pin polarity.
#[derive(Debug, Clone, Copy, PartialEq, Eq, Structural)]
pub enum IntPolarity {
    /// Active low (device default).
    Low,
    /// Active high.
    High,
}

impl Default for IntPolarity {
    fn default() -> (r: Self)
        ensures
            r == IntPolarity::Low,
    {
        IntPolarity::Low
    }
}

/// Interrupt pin direction.
#[derive(Debug, Clone, Copy, PartialEq, Eq, Structural)]
pub enum IntDirection {
    Input,
    /// (device default)
    Output,
}

impl Default for IntDirection {
    fn default() -> (r: Self)
        ensures
            r == IntDirection::Output,
    {
        IntDirection::Output
    }
}

/// Burst read mode: whether a measurement is read as one fused 32-bit
/// register or as two separate 16-bit registers.
#[derive(Debug, Clone, Copy, PartialEq, Eq, Structural)]
pub enum BurstRead {
    Disabled,
    /// (device default)
    Enabled,
}

impl Default for BurstRead {
    fn default() -> (r: Self)
        ensures
            r == BurstRead::Enabled,
    {
        BurstRead::Enabled
    }
}

/// Fault count: number of consecutive fault events required to trigger the
/// threshold mechanism.
#[derive(Debug, Clone, Copy, PartialEq, Eq, Structural)]
pub enum FaultCount {
    /// One (device default)
    One,
    /// Two
    Two,
    /// Four
    Four,
    /// Eight
    Eight,
}

impl Default for FaultCount {
    fn default() -> (r: Self)
        ensures
            r == FaultCount::One,
    {
        FaultCount::One
    }
}

/// Measurement channel of the device; four channels exist.
#[derive(Debug, Clone, Copy, PartialEq, Eq, Structural)]
pub enum Channel {
    /// (device default)
    Ch0,
    Ch1,
    Ch2,
    Ch3,
}

impl Default for Channel {
    fn default() -> (r: Self)
        ensures
            r == Channel::Ch0,
    {
        Channel::Ch0
    }
}

/// Possible device bus addresses, selected by the address pin wiring.
#[derive(Debug, Clone, Copy)]
pub enum Address {
    /// Address pin tied to ground (device default).
    Gnd,
    /// Address pin tied to the supply rail.
    Vdd,
    /// Address pin tied to the data line.
    Sda,
    /// Address pin tied to the clock line.
    Scl,
    /// Board-specific wiring that shares the supply-rail address.
    PicoStar,
}

impl Default for Address {
    fn default() -> (r: Self)
        ensures
            r == Address::Gnd,
    {
        Address::Gnd
    }
}

impl Address {
    /// The 7-bit bus address this wiring selects.
    pub open spec fn spec_bus_address(self) -> u8 {
        match self {
            Address::Gnd => 0b1000100,
            Address::Vdd => 0b1000101,
            Address::Sda => 0b1000110,
            Address::Scl => 0b1000111,
            Address::PicoStar => 0b1000101,
        }
    }

    /// The 7-bit bus address this wiring selects.
    pub fn bus_address(self) -> (r: u8)
        ensures
            r == self.spec_bus_address(),
    {
        match self {
            Address::Gnd => 0b1000100,
            Address::Vdd => 0b1000101,
            Address::Sda => 0b1000110,
            Address::Scl => 0b1000111,
            Address::PicoStar => 0b1000101,
        }
    }
}

/// Configuration settings for the first configuration register.
///
/// Contains the main configuration options, including measurement range,
/// conversion time, and interrupt behavior.
#[derive(Debug, Clone, Copy, PartialEq, Eq, Structural)]
pub struct ConfigA {
    pub qwake: QuickWake,
    /// Measurement range setting for light detection.
    pub range: Range,
    pub conv_time: ConversionTime,
    pub operating_mode: OperatingMode,
    pub latch: Latch,
    pub int_pol: IntPolarity,
    pub fault_count: FaultCount,
}

impl ConfigA {
    /// Every field fits its allotted bit width. Only the manual range payload
    /// is caller-supplied; all other fields are valid by construction.
    pub open spec fn wf(self) -> bool {
        self.range.wf()
    }
}

impl Default for ConfigA {
    fn default() -> (r: Self)
        ensures
            r == (ConfigA {
                qwake: QuickWake::Disabled,
                range: Range::Auto,
                conv_time: ConversionTime::Ms100,
                operating_mode: OperatingMode::PowerDown,
                latch: Latch::LatchedWindow,
                int_pol: IntPolarity::Low,
                fault_count: FaultCount::One,
            }),
    {
        ConfigA {
            qwake: QuickWake::Disabled,
            range: Range::Auto,
            conv_time: ConversionTime::Ms100,
            operating_mode: OperatingMode::PowerDown,
            latch: Latch::LatchedWindow,
            int_pol: IntPolarity::Low,
            fault_count: FaultCount::One,
        }
    }
}

/// Configuration settings for the second configuration register.
///
/// Contains secondary configuration options, including threshold management,
/// interrupt configuration, and burst read mode.
#[derive(Debug, Clone, Copy, PartialEq, Eq, Structural)]
pub struct ConfigB {
    /// Channel to be used with threshold detection.
    pub threshold_ch: Channel,
    /// Interrupt pin direction.
    pub int_dir: IntDirection,
    /// Interrupt mechanism: a raw device-specific 2-bit code, not further
    /// interpreted by the driver.
    pub int_cfg: u8,
    /// Burst read mode.
    pub burst_read: BurstRead,
}

impl ConfigB {
    /// The raw interrupt-mechanism code must fit its 2-bit field.
    pub open spec fn wf(self) -> bool {
        self.int_cfg < 4
    }
}

impl Default for ConfigB {
    fn default() -> (r: Self)
        ensures
            r == (ConfigB {
                threshold_ch: Channel::Ch0,
                int_dir: IntDirection::Output,
                int_cfg: 0,
                burst_read: BurstRead::Enabled,
            }),
    {
        ConfigB {
            threshold_ch: Channel::Ch0,
            int_dir: IntDirection::Output,
            int_cfg: 0,
            burst_read: BurstRead::Enabled,
        }
    }
}

/// Device status flags, reconstructed fresh on every read.
#[derive(Debug, Clone, Copy, PartialEq, Eq, Structural)]
pub struct Status {
    pub overload: bool,
    pub conv_ready: bool,
    pub flag_h: bool,
    pub flag_l: bool,
}

impl Default for Status {
    fn default() -> (r: Self)
        ensures
            r == (Status { overload: false, conv_ready: false, flag_h: false, flag_l: false }),
    {
        Status { overload: false, conv_ready: false, flag_h: false, flag_l: false }
    }
}

} // verus!
