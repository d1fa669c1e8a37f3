//! Device configuration, control byte, settle timing and voltage decoding.
use vstd::prelude::*;
use vstd::arithmetic::power2::{pow2, lemma2_to64};
use crate::register::{
    Mode, Resolution, Gain, Channel, ConfigRegister, mode_of, resolution_of, gain_of, channel_of,
};

verus! {

/// ADC reference voltage: +-2048 mV.
pub const REF_MILLIVOLTS: i16 = 2048;

/// Slack added to the settle delay before the first read of a one-shot
/// conversion, in milliseconds.
pub const SETTLE_GUARD_MS: u64 = 2;

/// Wait between two reads that found the device not ready, in milliseconds.
pub const POLL_INTERVAL_MS: u64 = 1;

/// All errors of the driver.
#[derive(Debug, Clone, Copy, PartialEq, Eq, Structural)]
pub enum Error {
    /// Bus error.
    I2c,
    /// Voltage is too high to be measured.
    VoltageTooHigh,
    /// Voltage is too low to be measured.
    VoltageTooLow,
    /// A measurement in continuous mode was started without first writing
    /// the configuration to the device.
    NotInitialized,
    /// A measurement returned a stale result.
    NotReady,
}

/// Time in milliseconds that one conversion takes at the given resolution.
pub open spec fn settle_ms(res: Resolution) -> u64 {
    match res {
        Resolution::Bits12Sps240 => 4,
        Resolution::Bits14Sps60 => 15,
        Resolution::Bits16Sps15 => 57,
    }
}

/// `a / d` rounded toward zero, as integer division does in Rust.
pub open spec fn div_toward_zero(a: int, d: int) -> int {
    if a >= 0 {
        a / d
    } else {
        -((-a) / d)
    }
}

/// The millivolts that a raw code stands for at the given resolution:
/// `raw * 2 * 2048 / 2^bits`, rounded toward zero.
pub open spec fn millivolts_of(res: Resolution, raw: i16) -> int {
    div_toward_zero(raw * (2 * REF_MILLIVOLTS), pow2(res.spec_res_bits() as nat) as int)
}

/// Result of decoding a raw code: saturation at either extreme code is an
/// error, every other code is a voltage.
pub open spec fn voltage_of(res: Resolution, raw: i16) -> Result<i32, Error> {
    if raw == res.spec_max() {
        Err(Error::VoltageTooHigh)
    } else if raw == res.spec_min() {
        Err(Error::VoltageTooLow)
    } else {
        Ok(millivolts_of(res, raw) as i32)
    }
}

/// Configuration of one device on the bus.
#[derive(Debug, Clone, Copy, PartialEq, Eq, Structural)]
pub struct ThermostatConfig {
    /// Bus address of the device (7 bits, not checked here).
    pub address: u8,
    pub mode: Mode,
    pub resolution: Resolution,
    pub gain: Gain,
    pub channel: Channel,
}

impl ThermostatConfig {
    /// Channel, resolution and gain fields of the control byte.
    pub open spec fn spec_config_flag(&self) -> u8 {
        self.channel.spec_bits() | self.resolution.spec_bits() | self.gain.spec_bits()
    }

    /// The control byte: the configuration fields and the mode, plus the
    /// start flag in one-shot mode.
    pub open spec fn spec_control_byte(&self) -> u8 {
        match self.mode {
            Mode::OneShot => ConfigRegister::NOT_READY | self.mode.spec_bits() | self.spec_config_flag(),
            Mode::Continuous => self.mode.spec_bits() | self.spec_config_flag(),
        }
    }

    pub open spec fn spec_settle_delay(&self) -> u64 {
        settle_ms(self.resolution)
    }

    pub open spec fn spec_calculate_voltage(&self, measurement: i16) -> Result<i32, Error> {
        voltage_of(self.resolution, measurement)
    }

    /// A configuration with the power-on resolution, gain and channel.
    pub fn new(address: u8, mode: Mode) -> (r: Self)
        ensures
            r.address == address,
            r.mode == mode,
            r.resolution == Resolution::Bits12Sps240,
            r.gain == Gain::Gain1,
            r.channel == Channel::Channel1,
    {
        ThermostatConfig {
            address,
            mode,
            resolution: Resolution::default(),
            gain: Gain::default(),
            channel: Channel::default(),
        }
    }

    pub fn with_resolution(self, resolution: Resolution) -> (r: Self)
        ensures
            r == (ThermostatConfig { resolution, ..self }),
    {
        let mut c = self;
        c.resolution = resolution;
        c
    }

    pub fn with_gain(self, gain: Gain) -> (r: Self)
        ensures
            r == (ThermostatConfig { gain, ..self }),
    {
        let mut c = self;
        c.gain = gain;
        c
    }

    pub fn with_channel(self, channel: Channel) -> (r: Self)
        ensures
            r == (ThermostatConfig { channel, ..self }),
    {
        let mut c = self;
        c.channel = channel;
        c
    }

    pub fn set_channel(&mut self, channel: Channel)
        ensures
            *final(self) == (ThermostatConfig { channel, ..*old(self) }),
    {
        self.channel = channel;
    }

    pub fn set_mode(&mut self, mode: Mode)
        ensures
            *final(self) == (ThermostatConfig { mode, ..*old(self) }),
    {
        self.mode = mode;
    }

    /// Time in milliseconds that one conversion takes at the active
    /// resolution.
    #[verifier::when_used_as_spec(spec_settle_delay)]
    pub fn settle_delay(&self) -> (r: u64)
        ensures
            r == self.spec_settle_delay(),
    {
        match self.resolution {
            Resolution::Bits12Sps240 => 4,
            Resolution::Bits14Sps60 => 15,
            Resolution::Bits16Sps15 => 57,
        }
    }

    fn config_flag(&self) -> (r: u8)
        ensures
            r == self.spec_config_flag(),
    {
        self.channel.bits() | self.resolution.bits() | self.gain.bits()
    }

    /// The byte written to the device to configure it (and, in one-shot
    /// mode, to start a conversion).
    #[verifier::when_used_as_spec(spec_control_byte)]
    pub fn control_byte(&self) -> (r: u8)
        ensures
            r == self.spec_control_byte(),
    {
        match self.mode {
            Mode::OneShot => ConfigRegister::NOT_READY | self.mode.bits() | self.config_flag(),
            Mode::Continuous => self.mode.bits() | self.config_flag(),
        }
    }

    /// Calculate the voltage in mV for a raw code at the active resolution.
    ///
    /// A saturation code is an error.
    #[verifier::when_used_as_spec(spec_calculate_voltage)]
    pub fn calculate_voltage(&self, measurement: i16) -> (r: Result<i32, Error>)
        ensures
            r == self.spec_calculate_voltage(measurement),
    {
        if measurement == self.resolution.max() {
            return Err(Error::VoltageTooHigh);
        } else if measurement == self.resolution.min() {
            return Err(Error::VoltageTooLow);
        }
        let scale: i32 = (REF_MILLIVOLTS * 2) as i32;
        let product: i32 = measurement as i32 * scale;
        let bits: u8 = self.resolution.res_bits();
        let divisor: i32 = 1i32 << bits;
        proof {
            lemma2_to64();
            assert(bits == 12 || bits == 14 || bits == 16);
            assert(1i32 << 12u8 == 4096i32) by (bit_vector);
            assert(1i32 << 14u8 == 16384i32) by (bit_vector);
            assert(1i32 << 16u8 == 65536i32) by (bit_vector);
        }
        Ok(product / divisor)
    }
}

/// Each resolution's field, bit count and extreme codes agree: the field
/// (bits 3-2 of the control byte) counts the steps of two bits above 12, and
/// the codes are those of a two's-complement number of that many bits.
pub proof fn lemma_resolution_table(cfg: ThermostatConfig)
    ensures
        ((cfg.spec_control_byte() >> 2u8) & 3u8) as int
            == (cfg.resolution.spec_res_bits() - 12) / 2,
        cfg.resolution.spec_max() == pow2((cfg.resolution.spec_res_bits() - 1) as nat) - 1,
        cfg.resolution.spec_min() == -pow2((cfg.resolution.spec_res_bits() - 1) as nat),
{
    lemma2_to64();
    lemma_control_byte_fields(cfg);
    let b = cfg.spec_control_byte();
    assert(b & 0x0c == 0x00 ==> (b >> 2u8) & 3u8 == 0) by (bit_vector);
    assert(b & 0x0c == 0x04 ==> (b >> 2u8) & 3u8 == 1) by (bit_vector);
    assert(b & 0x0c == 0x08 ==> (b >> 2u8) & 3u8 == 2) by (bit_vector);
}

/// Decoding the control byte gives back the mode, resolution, gain and
/// channel it was built from; the start flag is set exactly in one-shot mode.
pub proof fn lemma_control_byte_fields(cfg: ThermostatConfig)
    ensures
        mode_of(cfg.spec_control_byte()) == cfg.mode,
        resolution_of(cfg.spec_control_byte()) == Some(cfg.resolution),
        gain_of(cfg.spec_control_byte()) == cfg.gain,
        channel_of(cfg.spec_control_byte()) == cfg.channel,
        (cfg.spec_control_byte() & ConfigRegister::NOT_READY == ConfigRegister::NOT_READY)
            <==> cfg.mode == Mode::OneShot,
        cfg.spec_control_byte() & 0x0c == cfg.resolution.spec_bits(),
{
    let s: u8 = if cfg.mode == Mode::OneShot { ConfigRegister::NOT_READY } else { 0 };
    let c = cfg.channel.spec_bits();
    let m = cfg.mode.spec_bits();
    let r = cfg.resolution.spec_bits();
    let g = cfg.gain.spec_bits();
    lemma_disjoint_fields(s, c, m, r, g);
    assert(0u8 | m == m) by (bit_vector);
    assert(cfg.spec_control_byte() == s | m | (c | r | g));
}

proof fn lemma_disjoint_fields(s: u8, c: u8, m: u8, r: u8, g: u8)
    by (bit_vector)
    requires
        s == 0 || s == 0x80,
        c == 0 || c == 0x20 || c == 0x40 || c == 0x60,
        m == 0 || m == 0x10,
        r == 0 || r == 0x04 || r == 0x08,
        g == 0 || g == 1 || g == 2 || g == 3,
    ensures
        (s | m | (c | r | g)) & 0x80 == s,
        (s | m | (c | r | g)) & 0x60 == c,
        (s | m | (c | r | g)) & 0x10 == m,
        (s | m | (c | r | g)) & 0x0c == r,
        (s | m | (c | r | g)) & 0x03 == g,
{
}

/// Away from the saturation codes, decoding is odd: the code `-raw` gives
/// the negated voltage of `raw`.
pub proof fn lemma_voltage_odd(res: Resolution, raw: i16)
    requires
        raw != res.spec_max(),
        raw != res.spec_min(),
        -raw != res.spec_max(),
        -raw != res.spec_min(),
        raw > i16::MIN,
    ensures
        voltage_of(res, raw) is Ok,
        voltage_of(res, (-raw) as i16) is Ok,
        voltage_of(res, (-raw) as i16)->Ok_0 == -voltage_of(res, raw)->Ok_0,
{
    lemma_millivolts_range(res, raw);
    lemma_millivolts_range(res, (-raw) as i16);
}

proof fn lemma_millivolts_range(res: Resolution, raw: i16)
    ensures
        -32768 <= millivolts_of(res, raw) <= 32768,
        millivolts_of(res, (-raw) as i16) == -millivolts_of(res, raw) || raw == i16::MIN,
{
    lemma2_to64();
    let d = pow2(res.spec_res_bits() as nat) as int;
    let a = raw * 4096;
    assert(d == 4096 || d == 16384 || d == 65536);
    assert(0 <= (a as int) / d <= 32768 || a < 0) by (nonlinear_arith)
        requires
            d >= 4096,
            -32768 * 4096 <= a <= 32767 * 4096,
    ;
    assert(a < 0 ==> 0 <= (-a) / d <= 32768) by (nonlinear_arith)
        requires
            d >= 4096,
            -32768 * 4096 <= a <= 32767 * 4096,
    ;
}

/// At 12 bits a step is one millivolt: every code but the two saturation
/// codes decodes to itself.
pub proof fn lemma_twelve_bits_one_millivolt(raw: i16)
    requires
        raw != Resolution::Bits12Sps240.spec_max(),
        raw != Resolution::Bits12Sps240.spec_min(),
    ensures
        voltage_of(Resolution::Bits12Sps240, raw) == Ok::<i32, Error>(raw as i32),
{
    lemma2_to64();
    let a = raw * 4096;
    assert(a >= 0 ==> a / 4096 == raw as int);
    assert(a < 0 ==> (-a) / 4096 == -raw);
}

/// Decoding fails exactly on the two saturation codes, and the error tells
/// which of them was read.
pub proof fn lemma_saturation_exact(res: Resolution, raw: i16)
    ensures
        voltage_of(res, raw) is Err <==> (raw == res.spec_max() || raw == res.spec_min()),
        voltage_of(res, raw) == Err::<i32, Error>(Error::VoltageTooHigh) <==> raw == res.spec_max(),
        voltage_of(res, raw) == Err::<i32, Error>(Error::VoltageTooLow) <==> raw == res.spec_min(),
{
}

/// A lower sample rate never waits less: the settle delay falls strictly as
/// the sample rate rises.
pub proof fn lemma_settle_delay_monotonic(a: ThermostatConfig, b: ThermostatConfig)
    requires
        a.resolution.samples_per_second() > b.resolution.samples_per_second(),
    ensures
        a.spec_settle_delay() < b.spec_settle_delay(),
{
}

} // verus!
