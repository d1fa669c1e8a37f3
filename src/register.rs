//! Bit fields of the control byte and of the status byte.
//!
//! Layout (bit 7 first): not-ready / start flag, channel (6-5), mode (4),
//! resolution (3-2), gain (1-0).
use vstd::prelude::*;

verus! {

/// Conversion mode: one conversion per request, or free running.
#[derive(Debug, Clone, Copy, PartialEq, Eq, Structural)]
pub enum Mode {
    OneShot,
    Continuous,
}

impl Mode {
    pub open spec fn spec_bits(&self) -> u8 {
        match self {
            Mode::OneShot => 0x00,
            Mode::Continuous => 0x10,
        }
    }

    /// Return the bitmask for this mode.
    #[verifier::when_used_as_spec(spec_bits)]
    pub fn bits(&self) -> (r: u8)
        ensures
            r == self.spec_bits(),
    {
        match self {
            Mode::OneShot => 0x00,
            Mode::Continuous => 0x10,
        }
    }
}

/// Conversion bit resolution and sample rate.
///
/// * 15 SPS -> 16 bits
/// * 60 SPS -> 14 bits
/// * 240 SPS -> 12 bits
///
/// Defaults to 12 bits / 240 SPS, the power-on setting of the device.
#[derive(Debug, Clone, Copy, PartialEq, Eq, Structural)]
pub enum Resolution {
    /// 16 bits / 15 SPS: steps of 62.5 uV.
    Bits16Sps15,
    /// 14 bits / 60 SPS: steps of 250 uV.
    Bits14Sps60,
    /// 12 bits / 240 SPS: steps of 1 mV.
    Bits12Sps240,
}

impl Resolution {
    pub open spec fn spec_bits(&self) -> u8 {
        match self {
            Resolution::Bits16Sps15 => 0x08,
            Resolution::Bits14Sps60 => 0x04,
            Resolution::Bits12Sps240 => 0x00,
        }
    }

    pub open spec fn spec_res_bits(&self) -> u8 {
        match self {
            Resolution::Bits16Sps15 => 16,
            Resolution::Bits14Sps60 => 14,
            Resolution::Bits12Sps240 => 12,
        }
    }

    /// Samples per second of this setting.
    pub open spec fn samples_per_second(&self) -> nat {
        match self {
            Resolution::Bits16Sps15 => 15,
            Resolution::Bits14Sps60 => 60,
            Resolution::Bits12Sps240 => 240,
        }
    }

    /// Largest code of a `spec_res_bits()`-bit two's-complement sample.
    pub open spec fn spec_max(&self) -> i16 {
        match self {
            Resolution::Bits16Sps15 => 32767,
            Resolution::Bits14Sps60 => 8191,
            Resolution::Bits12Sps240 => 2047,
        }
    }

    /// Smallest code of a `spec_res_bits()`-bit two's-complement sample.
    pub open spec fn spec_min(&self) -> i16 {
        match self {
            Resolution::Bits16Sps15 => -32768i16,
            Resolution::Bits14Sps60 => -8192i16,
            Resolution::Bits12Sps240 => -2048i16,
        }
    }

    /// Return the bitmask for this sample rate.
    #[verifier::when_used_as_spec(spec_bits)]
    pub fn bits(&self) -> (r: u8)
        ensures
            r == self.spec_bits(),
    {
        match self {
            Resolution::Bits16Sps15 => 0x08,
            Resolution::Bits14Sps60 => 0x04,
            Resolution::Bits12Sps240 => 0x00,
        }
    }

    /// Return the number of bits of accuracy this sample rate gives.
    #[verifier::when_used_as_spec(spec_res_bits)]
    pub fn res_bits(&self) -> (r: u8)
        ensures
            r == self.spec_res_bits(),
    {
        match self {
            Resolution::Bits16Sps15 => 16,
            Resolution::Bits14Sps60 => 14,
            Resolution::Bits12Sps240 => 12,
        }
    }

    /// Return the maximum output code.
    #[verifier::when_used_as_spec(spec_max)]
    pub fn max(&self) -> (r: i16)
        ensures
            r == self.spec_max(),
    {
        match self {
            Resolution::Bits16Sps15 => 32767,
            Resolution::Bits14Sps60 => 8191,
            Resolution::Bits12Sps240 => 2047,
        }
    }

    /// Return the minimum output code.
    #[verifier::when_used_as_spec(spec_min)]
    pub fn min(&self) -> (r: i16)
        ensures
            r == self.spec_min(),
    {
        match self {
            Resolution::Bits16Sps15 => -32768i16,
            Resolution::Bits14Sps60 => -8192i16,
            Resolution::Bits12Sps240 => -2048i16,
        }
    }
}

impl Default for Resolution {
    /// The power-on setting of the device.
    fn default() -> (r: Self)
        ensures
            r == Resolution::Bits12Sps240,
    {
        Resolution::Bits12Sps240
    }
}

/// Programmable gain amplifier. Defaults to no amplification.
#[derive(Debug, Clone, Copy, PartialEq, Eq, Structural)]
pub enum Gain {
    /// Amplification factor 1.
    Gain1,
    /// Amplification factor 2.
    Gain2,
    /// Amplification factor 4.
    Gain4,
    /// Amplification factor 8.
    Gain8,
}

impl Gain {
    pub open spec fn spec_bits(&self) -> u8 {
        match self {
            Gain::Gain1 => 0x00,
            Gain::Gain2 => 0x01,
            Gain::Gain4 => 0x02,
            Gain::Gain8 => 0x03,
        }
    }

    /// Return the bitmask for this gain configuration.
    #[verifier::when_used_as_spec(spec_bits)]
    pub fn bits(&self) -> (r: u8)
        ensures
            r == self.spec_bits(),
    {
        match self {
            Gain::Gain1 => 0x00,
            Gain::Gain2 => 0x01,
            Gain::Gain4 => 0x02,
            Gain::Gain8 => 0x03,
        }
    }
}

impl Default for Gain {
    /// The power-on setting of the device.
    fn default() -> (r: Self)
        ensures
            r == Gain::Gain1,
    {
        Gain::Gain1
    }
}

/// Selected input channel. Defaults to channel 1.
///
/// Channels 2 to 4 exist only on the devices of the family that have them.
#[derive(Debug, Clone, Copy, PartialEq, Eq, Structural)]
pub enum Channel {
    Channel1,
    Channel2,
    Channel3,
    Channel4,
}

impl Channel {
    pub open spec fn spec_bits(&self) -> u8 {
        match self {
            Channel::Channel1 => 0x00,
            Channel::Channel2 => 0x20,
            Channel::Channel3 => 0x40,
            Channel::Channel4 => 0x60,
        }
    }

    /// Return the bitmask for this channel configuration.
    #[verifier::when_used_as_spec(spec_bits)]
    pub fn bits(&self) -> (r: u8)
        ensures
            r == self.spec_bits(),
    {
        match self {
            Channel::Channel1 => 0x00,
            Channel::Channel2 => 0x20,
            Channel::Channel3 => 0x40,
            Channel::Channel4 => 0x60,
        }
    }
}

impl Default for Channel {
    fn default() -> (r: Self)
        ensures
            r == Channel::Channel1,
    {
        Channel::Channel1
    }
}

/// The mode field of a register byte.
pub open spec fn mode_of(byte: u8) -> Mode {
    if byte & 0x10 == 0 {
        Mode::OneShot
    } else {
        Mode::Continuous
    }
}

/// The resolution field of a register byte; the pattern `11` names none.
pub open spec fn resolution_of(byte: u8) -> Option<Resolution> {
    let f = byte & 0x0c;
    if f == 0x00 {
        Some(Resolution::Bits12Sps240)
    } else if f == 0x04 {
        Some(Resolution::Bits14Sps60)
    } else if f == 0x08 {
        Some(Resolution::Bits16Sps15)
    } else {
        None
    }
}

/// The gain field of a register byte.
pub open spec fn gain_of(byte: u8) -> Gain {
    let f = byte & 0x03;
    if f == 0 {
        Gain::Gain1
    } else if f == 1 {
        Gain::Gain2
    } else if f == 2 {
        Gain::Gain4
    } else {
        Gain::Gain8
    }
}

/// The channel field of a register byte.
pub open spec fn channel_of(byte: u8) -> Channel {
    let f = byte & 0x60;
    if f == 0x00 {
        Channel::Channel1
    } else if f == 0x20 {
        Channel::Channel2
    } else if f == 0x40 {
        Channel::Channel3
    } else {
        Channel::Channel4
    }
}

/// The status byte that the device sends after every sample.
///
/// Bit 7 is set while a conversion is in progress (the result is stale);
/// the other bits echo the configuration the device runs with.
pub struct ConfigRegister {
    pub value: u8,
}

impl ConfigRegister {
    /// Not-ready flag of the status byte; start flag of the control byte.
    pub const NOT_READY: u8 = 0x80;

    /// Mode bit.
    pub const MODE: u8 = 0x10;

    /// High bit of the sample-rate field.
    pub const SAMPLE_RATE_H: u8 = 0x08;

    /// Low bit of the sample-rate field.
    pub const SAMPLE_RATE_L: u8 = 0x04;

    /// High bit of the gain field.
    pub const GAIN_H: u8 = 0x02;

    /// Low bit of the gain field.
    pub const GAIN_L: u8 = 0x01;

    /// The flag, mode, sample-rate and gain bits together.
    pub const ALL: u8 = 0x9f;

    pub fn new(value: u8) -> (r: Self)
        ensures
            r.value == value,
    {
        ConfigRegister { value }
    }

    pub open spec fn spec_is_ready(&self) -> bool {
        self.value & Self::NOT_READY != Self::NOT_READY
    }

    /// Whether the not-ready flag is clear.
    #[verifier::when_used_as_spec(spec_is_ready)]
    pub fn is_ready(&self) -> (r: bool)
        ensures
            r == self.spec_is_ready(),
            r == (self.value < 128),
    {
        let v = self.value;
        assert(v & 0x80 != 0x80 <==> v < 128) by (bit_vector);
        (self.value & Self::NOT_READY) != Self::NOT_READY
    }

    /// The mode the device reports.
    pub fn mode(&self) -> (r: Mode)
        ensures
            r == mode_of(self.value),
    {
        if self.value & Self::MODE == 0 {
            Mode::OneShot
        } else {
            Mode::Continuous
        }
    }

    /// The resolution the device reports; `None` for the unused pattern `11`.
    pub fn resolution(&self) -> (r: Option<Resolution>)
        ensures
            r == resolution_of(self.value),
    {
        let f = self.value & 0x0c;
        if f == 0x00 {
            Some(Resolution::Bits12Sps240)
        } else if f == Self::SAMPLE_RATE_L {
            Some(Resolution::Bits14Sps60)
        } else if f == Self::SAMPLE_RATE_H {
            Some(Resolution::Bits16Sps15)
        } else {
            None
        }
    }

    /// The gain the device reports.
    pub fn gain(&self) -> (r: Gain)
        ensures
            r == gain_of(self.value),
    {
        let f = self.value & 0x03;
        if f == 0 {
            Gain::Gain1
        } else if f == 1 {
            Gain::Gain2
        } else if f == 2 {
            Gain::Gain4
        } else {
            Gain::Gain8
        }
    }

    /// The channel field of the byte.
    pub fn channel(&self) -> (r: Channel)
        ensures
            r == channel_of(self.value),
    {
        let f = self.value & 0x60;
        if f == 0x00 {
            Channel::Channel1
        } else if f == 0x20 {
            Channel::Channel2
        } else if f == 0x40 {
            Channel::Channel3
        } else {
            Channel::Channel4
        }
    }
}

/// A status byte reports "not ready" exactly when its top bit is set.
pub proof fn lemma_ready_iff_top_bit_clear(value: u8)
    ensures
        (ConfigRegister { value }).spec_is_ready() <==> (value >> 7u8) == 0,
{
    assert(value & 0x80 != 0x80 <==> (value >> 7u8) == 0) by (bit_vector);
}

} // verus!
