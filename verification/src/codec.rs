use vstd::prelude::*;

use crate::common::{
    BurstRead, Channel, ConversionTime, FaultCount, IntDirection, IntPolarity, Latch,
    OperatingMode, QuickWake, Range,
};
use crate::error::ConversionError;

verus! {

/// Law: a raw field code outside an enumeration's valid set decodes to that
/// enumeration's conversion error carrying the exact offending code, never
/// to a value. The valid sets are 0..=12 for the range, 0..=11 for the
/// conversion time, 0..=3 for the operating mode, the fault count and the
/// channel, and 0..=1 for each single-bit field.
pub proof fn lemma_invalid_codes_carry_their_value(v: u8)
    ensures
        v > 12 ==> Range::spec_from_code(v) == Err::<Range, ConversionError>(
            ConversionError::Range(v),
        ),
        v >= 12 ==> ConversionTime::spec_from_code(v) == Err::<ConversionTime, ConversionError>(
            ConversionError::ConversionTime(v),
        ),
        v >= 4 ==> OperatingMode::spec_from_code(v) == Err::<OperatingMode, ConversionError>(
            ConversionError::OperatingMode(v),
        ),
        v >= 4 ==> FaultCount::spec_from_code(v) == Err::<FaultCount, ConversionError>(
            ConversionError::FaultCount(v),
        ),
        v >= 4 ==> Channel::spec_from_code(v) == Err::<Channel, ConversionError>(
            ConversionError::Channel(v),
        ),
        v >= 2 ==> Latch::spec_from_code(v) == Err::<Latch, ConversionError>(
            ConversionError::Latch(v),
        ),
        v >= 2 ==> IntPolarity::spec_from_code(v) == Err::<IntPolarity, ConversionError>(
            ConversionError::IntPolarity(v),
        ),
        v >= 2 ==> IntDirection::spec_from_code(v) == Err::<IntDirection, ConversionError>(
            ConversionError::IntDirection(v),
        ),
        v >= 2 ==> BurstRead::spec_from_code(v) == Err::<BurstRead, ConversionError>(
            ConversionError::BurstRead(v),
        ),
        v >= 2 ==> QuickWake::spec_from_code(v) == Err::<QuickWake, ConversionError>(
            ConversionError::QuickWake(v),
        ),
{
}

// Every enumerated field has an explicit code table: `spec_code` gives the
// raw field code of a typed value, `spec_from_code` the fallible narrowing
// back. A code outside the valid set yields the field-specific conversion
// error carrying that exact code.

impl QuickWake {
    pub open spec fn spec_code(self) -> u8 {
        match self {
            QuickWake::Disabled => 0,
            QuickWake::Enabled => 1,
        }
    }

    pub open spec fn spec_from_code(v: u8) -> Result<QuickWake, ConversionError> {
        if v == 0 {
            Ok(QuickWake::Disabled)
        } else if v == 1 {
            Ok(QuickWake::Enabled)
        } else {
            Err(ConversionError::QuickWake(v))
        }
    }

    /// The raw field code of this value.
    pub fn code(self) -> (r: u8)
        ensures
            r == self.spec_code(),
    {
        match self {
            QuickWake::Disabled => 0,
            QuickWake::Enabled => 1,
        }
    }

    /// Narrow a raw field code; exactly the codes 0 and 1 are valid.
    pub fn from_code(v: u8) -> (r: Result<QuickWake, ConversionError>)
        ensures
            r == Self::spec_from_code(v),
    {
        match v {
            0 => Ok(QuickWake::Disabled),
            1 => Ok(QuickWake::Enabled),
            _ => Err(ConversionError::QuickWake(v)),
        }
    }
}

impl Range {
    /// The raw field code: the manual payload itself, or 12 for automatic.
    pub open spec fn spec_code(self) -> u8 {
        match self {
            Range::Manual(v) => v,
            Range::Auto => 12,
        }
    }

    pub open spec fn spec_from_code(v: u8) -> Result<Range, ConversionError> {
        if v < 12 {
            Ok(Range::Manual(v))
        } else if v == 12 {
            Ok(Range::Auto)
        } else {
            Err(ConversionError::Range(v))
        }
    }

    /// The raw field code of this value.
    pub fn code(self) -> (r: u8)
        ensures
            r == self.spec_code(),
    {
        match self {
            Range::Manual(v) => v,
            Range::Auto => 12,
        }
    }

    /// Narrow a raw field code; 0..=11 select a manual range, 12 selects
    /// automatic ranging, anything above is invalid.
    pub fn from_code(v: u8) -> (r: Result<Range, ConversionError>)
        ensures
            r == Self::spec_from_code(v),
    {
        if v < 12 {
            Ok(Range::Manual(v))
        } else if v == 12 {
            Ok(Range::Auto)
        } else {
            Err(ConversionError::Range(v))
        }
    }
}

impl ConversionTime {
    pub open spec fn spec_code(self) -> u8 {
        match self {
            ConversionTime::Us600 => 0,
            ConversionTime::Ms1 => 1,
            ConversionTime::Ms1_8 => 2,
            ConversionTime::Ms3_4 => 3,
            ConversionTime::Ms6_5 => 4,
            ConversionTime::Ms12_7 => 5,
            ConversionTime::Ms25 => 6,
            ConversionTime::Ms50 => 7,
            ConversionTime::Ms100 => 8,
            ConversionTime::Ms200 => 9,
            ConversionTime::Ms400 => 10,
            ConversionTime::Ms800 => 11,
        }
    }

    pub open spec fn spec_from_code(v: u8) -> Result<ConversionTime, ConversionError> {
        if v == 0 {
            Ok(ConversionTime::Us600)
        } else if v == 1 {
            Ok(ConversionTime::Ms1)
        } else if v == 2 {
            Ok(ConversionTime::Ms1_8)
        } else if v == 3 {
            Ok(ConversionTime::Ms3_4)
        } else if v == 4 {
            Ok(ConversionTime::Ms6_5)
        } else if v == 5 {
            Ok(ConversionTime::Ms12_7)
        } else if v == 6 {
            Ok(ConversionTime::Ms25)
        } else if v == 7 {
            Ok(ConversionTime::Ms50)
        } else if v == 8 {
            Ok(ConversionTime::Ms100)
        } else if v == 9 {
            Ok(ConversionTime::Ms200)
        } else if v == 10 {
            Ok(ConversionTime::Ms400)
        } else if v == 11 {
            Ok(ConversionTime::Ms800)
        } else {
            Err(ConversionError::ConversionTime(v))
        }
    }

    /// The raw field code of this value.
    pub fn code(self) -> (r: u8)
        ensures
            r == self.spec_code(),
    {
        match self {
            ConversionTime::Us600 => 0,
            ConversionTime::Ms1 => 1,
            ConversionTime::Ms1_8 => 2,
            ConversionTime::Ms3_4 => 3,
            ConversionTime::Ms6_5 => 4,
            ConversionTime::Ms12_7 => 5,
            ConversionTime::Ms25 => 6,
            ConversionTime::Ms50 => 7,
            ConversionTime::Ms100 => 8,
            ConversionTime::Ms200 => 9,
            ConversionTime::Ms400 => 10,
            ConversionTime::Ms800 => 11,
        }
    }

    /// Narrow a raw field code; exactly the codes 0..=11 are valid.
    pub fn from_code(v: u8) -> (r: Result<ConversionTime, ConversionError>)
        ensures
            r == Self::spec_from_code(v),
    {
        match v {
            0 => Ok(ConversionTime::Us600),
            1 => Ok(ConversionTime::Ms1),
            2 => Ok(ConversionTime::Ms1_8),
            3 => Ok(ConversionTime::Ms3_4),
            4 => Ok(ConversionTime::Ms6_5),
            5 => Ok(ConversionTime::Ms12_7),
            6 => Ok(ConversionTime::Ms25),
            7 => Ok(ConversionTime::Ms50),
            8 => Ok(ConversionTime::Ms100),
            9 => Ok(ConversionTime::Ms200),
            10 => Ok(ConversionTime::Ms400),
            11 => Ok(ConversionTime::Ms800),
            _ => Err(ConversionError::ConversionTime(v)),
        }
    }
}

impl OperatingMode {
    pub open spec fn spec_code(self) -> u8 {
        match self {
            OperatingMode::PowerDown => 0,
            OperatingMode::ForcedOneShot => 1,
            OperatingMode::RegularOneShot => 2,
            OperatingMode::Continuous => 3,
        }
    }

    pub open spec fn spec_from_code(v: u8) -> Result<OperatingMode, ConversionError> {
        if v == 0 {
            Ok(OperatingMode::PowerDown)
        } else if v == 1 {
            Ok(OperatingMode::ForcedOneShot)
        } else if v == 2 {
            Ok(OperatingMode::RegularOneShot)
        } else if v == 3 {
            Ok(OperatingMode::Continuous)
        } else {
            Err(ConversionError::OperatingMode(v))
        }
    }

    /// The raw field code of this value.
    pub fn code(self) -> (r: u8)
        ensures
            r == self.spec_code(),
    {
        match self {
            OperatingMode::PowerDown => 0,
            OperatingMode::ForcedOneShot => 1,
            OperatingMode::RegularOneShot => 2,
            OperatingMode::Continuous => 3,
        }
    }

    /// Narrow a raw field code; exactly the codes 0..=3 are valid.
    pub fn from_code(v: u8) -> (r: Result<OperatingMode, ConversionError>)
        ensures
            r == Self::spec_from_code(v),
    {
        match v {
            0 => Ok(OperatingMode::PowerDown),
            1 => Ok(OperatingMode::ForcedOneShot),
            2 => Ok(OperatingMode::RegularOneShot),
            3 => Ok(OperatingMode::Continuous),
            _ => Err(ConversionError::OperatingMode(v)),
        }
    }
}

impl Latch {
    pub open spec fn spec_code(self) -> u8 {
        match self {
            Latch::TransparentHysteresis => 0,
            Latch::LatchedWindow => 1,
        }
    }

    pub open spec fn spec_from_code(v: u8) -> Result<Latch, ConversionError> {
        if v == 0 {
            Ok(Latch::TransparentHysteresis)
        } else if v == 1 {
            Ok(Latch::LatchedWindow)
        } else {
            Err(ConversionError::Latch(v))
        }
    }

    /// The raw field code of this value.
    pub fn code(self) -> (r: u8)
        ensures
            r == self.spec_code(),
    {
        match self {
            Latch::TransparentHysteresis => 0,
            Latch::LatchedWindow => 1,
        }
    }

    /// Narrow a raw field code; exactly the codes 0 and 1 are valid.
    pub fn from_code(v: u8) -> (r: Result<Latch, ConversionError>)
        ensures
            r == Self::spec_from_code(v),
    {
        match v {
            0 => Ok(Latch::TransparentHysteresis),
            1 => Ok(Latch::LatchedWindow),
            _ => Err(ConversionError::Latch(v)),
        }
    }
}

impl IntPolarity {
    pub open spec fn spec_code(self) -> u8 {
        match self {
            IntPolarity::Low => 0,
            IntPolarity::High => 1,
        }
    }

    pub open spec fn spec_from_code(v: u8) -> Result<IntPolarity, ConversionError> {
        if v == 0 {
            Ok(IntPolarity::Low)
        } else if v == 1 {
            Ok(IntPolarity::High)
        } else {
            Err(ConversionError::IntPolarity(v))
        }
    }

    /// The raw field code of this value.
    pub fn code(self) -> (r: u8)
        ensures
            r == self.spec_code(),
    {
        match self {
            IntPolarity::Low => 0,
            IntPolarity::High => 1,
        }
    }

    /// Narrow a raw field code; exactly the codes 0 and 1 are valid.
    pub fn from_code(v: u8) -> (r: Result<IntPolarity, ConversionError>)
        ensures
            r == Self::spec_from_code(v),
    {
        match v {
            0 => Ok(IntPolarity::Low),
            1 => Ok(IntPolarity::High),
            _ => Err(ConversionError::IntPolarity(v)),
        }
    }
}

impl IntDirection {
    pub open spec fn spec_code(self) -> u8 {
        match self {
            IntDirection::Input => 0,
            IntDirection::Output => 1,
        }
    }

    pub open spec fn spec_from_code(v: u8) -> Result<IntDirection, ConversionError> {
        if v == 0 {
            Ok(IntDirection::Input)
        } else if v == 1 {
            Ok(IntDirection::Output)
        } else {
            Err(ConversionError::IntDirection(v))
        }
    }

    /// The raw field code of this value.
    pub fn code(self) -> (r: u8)
        ensures
            r == self.spec_code(),
    {
        match self {
            IntDirection::Input => 0,
            IntDirection::Output => 1,
        }
    }

    /// Narrow a raw field code; exactly the codes 0 and 1 are valid.
    pub fn from_code(v: u8) -> (r: Result<IntDirection, ConversionError>)
        ensures
            r == Self::spec_from_code(v),
    {
        match v {
            0 => Ok(IntDirection::Input),
            1 => Ok(IntDirection::Output),
            _ => Err(ConversionError::IntDirection(v)),
        }
    }
}

impl BurstRead {
    pub open spec fn spec_code(self) -> u8 {
        match self {
            BurstRead::Disabled => 0,
            BurstRead::Enabled => 1,
        }
    }

    pub open spec fn spec_from_code(v: u8) -> Result<BurstRead, ConversionError> {
        if v == 0 {
            Ok(BurstRead::Disabled)
        } else if v == 1 {
            Ok(BurstRead::Enabled)
        } else {
            Err(ConversionError::BurstRead(v))
        }
    }

    /// The raw field code of this value.
    pub fn code(self) -> (r: u8)
        ensures
            r == self.spec_code(),
    {
        match self {
            BurstRead::Disabled => 0,
            BurstRead::Enabled => 1,
        }
    }

    /// Narrow a raw field code; exactly the codes 0 and 1 are valid.
    pub fn from_code(v: u8) -> (r: Result<BurstRead, ConversionError>)
        ensures
            r == Self::spec_from_code(v),
    {
        match v {
            0 => Ok(BurstRead::Disabled),
            1 => Ok(BurstRead::Enabled),
            _ => Err(ConversionError::BurstRead(v)),
        }
    }
}

impl FaultCount {
    pub open spec fn spec_code(self) -> u8 {
        match self {
            FaultCount::One => 0,
            FaultCount::Two => 1,
            FaultCount::Four => 2,
            FaultCount::Eight => 3,
        }
    }

    pub open spec fn spec_from_code(v: u8) -> Result<FaultCount, ConversionError> {
        if v == 0 {
            Ok(FaultCount::One)
        } else if v == 1 {
            Ok(FaultCount::Two)
        } else if v == 2 {
            Ok(FaultCount::Four)
        } else if v == 3 {
            Ok(FaultCount::Eight)
        } else {
            Err(ConversionError::FaultCount(v))
        }
    }

    /// The raw field code of this value.
    pub fn code(self) -> (r: u8)
        ensures
            r == self.spec_code(),
    {
        match self {
            FaultCount::One => 0,
            FaultCount::Two => 1,
            FaultCount::Four => 2,
            FaultCount::Eight => 3,
        }
    }

    /// Narrow a raw field code; exactly the codes 0..=3 are valid.
    pub fn from_code(v: u8) -> (r: Result<FaultCount, ConversionError>)
        ensures
            r == Self::spec_from_code(v),
    {
        match v {
            0 => Ok(FaultCount::One),
            1 => Ok(FaultCount::Two),
            2 => Ok(FaultCount::Four),
            3 => Ok(FaultCount::Eight),
            _ => Err(ConversionError::FaultCount(v)),
        }
    }
}

impl Channel {
    pub open spec fn spec_code(self) -> u8 {
        match self {
            Channel::Ch0 => 0,
            Channel::Ch1 => 1,
            Channel::Ch2 => 2,
            Channel::Ch3 => 3,
        }
    }

    pub open spec fn spec_from_code(v: u8) -> Result<Channel, ConversionError> {
        if v == 0 {
            Ok(Channel::Ch0)
        } else if v == 1 {
            Ok(Channel::Ch1)
        } else if v == 2 {
            Ok(Channel::Ch2)
        } else if v == 3 {
            Ok(Channel::Ch3)
        } else {
            Err(ConversionError::Channel(v))
        }
    }

    /// The raw field code of this value, also its channel index.
    pub fn code(self) -> (r: u8)
        ensures
            r == self.spec_code(),
    {
        match self {
            Channel::Ch0 => 0,
            Channel::Ch1 => 1,
            Channel::Ch2 => 2,
            Channel::Ch3 => 3,
        }
    }

    /// Narrow a raw field code; exactly the codes 0..=3 are valid.
    pub fn from_code(v: u8) -> (r: Result<Channel, ConversionError>)
        ensures
            r == Self::spec_from_code(v),
    {
        match v {
            0 => Ok(Channel::Ch0),
            1 => Ok(Channel::Ch1),
            2 => Ok(Channel::Ch2),
            3 => Ok(Channel::Ch3),
            _ => Err(ConversionError::Channel(v)),
        }
    }
}

} // verus!
