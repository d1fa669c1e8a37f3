//! The conversion protocol as a state machine.
//!
//! The driver never touches the bus or the clock itself. Each state of an
//! [`Acquisition`] names one pending [`Action`] (write the control byte,
//! sleep, read three bytes, or finish with an outcome); the caller performs
//! it and feeds back the [`Event`] it produced. One-shot conversion runs
//! `Requested -> Settling -> Reading (-> Polling -> Reading)* -> Done`.
use vstd::prelude::*;
use crate::register::{ConfigRegister, Mode};
use crate::config::{ThermostatConfig, Error, SETTLE_GUARD_MS, POLL_INTERVAL_MS, voltage_of};

verus! {

/// Which sequence an acquisition runs.
#[derive(Debug, Clone, Copy, PartialEq, Eq, Structural)]
pub enum Operation {
    /// Start a conversion, wait for it, then read the voltage.
    OneShot,
    /// Write the configuration, then poll until the device reports ready.
    WriteConfig,
    /// Poll until ready, then read the voltage.
    Measurement,
}

/// How a finished acquisition ended.
#[derive(Debug, Clone, Copy, PartialEq, Eq, Structural)]
pub enum Outcome {
    /// The configuration was written and the device is ready.
    Configured,
    /// A voltage in millivolts.
    Voltage { millivolts: i32 },
    /// A bus error or a saturated reading.
    Failed { error: Error },
}

/// Where an acquisition stands.
#[derive(Debug, Clone, Copy, PartialEq, Eq, Structural)]
pub enum Phase {
    /// The control byte is being written.
    Requested,
    /// Waiting for the conversion to complete.
    Settling,
    /// Three bytes are being read.
    Reading,
    /// The last read was not ready; waiting before the next one.
    Polling,
    /// Finished.
    Done { outcome: Outcome },
}

/// What the caller must do next.
#[derive(Debug, Clone, Copy, PartialEq, Eq, Structural)]
pub enum Action {
    /// Write the single byte `byte` to the device at `address`.
    Write { address: u8, byte: u8 },
    /// Suspend for `ms` milliseconds.
    Sleep { ms: u64 },
    /// Read three bytes (sample high, sample low, status) from `address`.
    Read { address: u8 },
    /// Nothing is left to do.
    Finish { outcome: Outcome },
}

/// What the caller reports after performing an action.
#[derive(Debug, Clone, Copy, PartialEq, Eq, Structural)]
pub enum Event {
    /// The write was acknowledged.
    WriteOk,
    /// The write failed on the bus.
    WriteFailed,
    /// The sleep is over.
    SleepOver,
    /// The read returned these three bytes.
    ReadOk { high: u8, low: u8, status: u8 },
    /// The read failed on the bus.
    ReadFailed,
}

/// One run of a sequence, with the configuration captured at its start.
#[derive(Debug, Clone, Copy, PartialEq, Eq, Structural)]
pub struct Acquisition {
    pub config: ThermostatConfig,
    pub operation: Operation,
    pub phase: Phase,
}

/// The signed 16-bit sample whose big-endian bytes are `high`, `low`.
pub open spec fn sample_of(high: u8, low: u8) -> int {
    if high < 128 {
        high * 256 + low
    } else {
        high * 256 + low - 65536
    }
}

/// Whether a status byte reports ready.
pub open spec fn status_ready(status: u8) -> bool {
    (ConfigRegister { value: status }).spec_is_ready()
}

/// The outcome of a conversion result.
pub open spec fn outcome_of(r: Result<i32, Error>) -> Outcome {
    match r {
        Ok(mv) => Outcome::Voltage { millivolts: mv },
        Err(e) => Outcome::Failed { error: e },
    }
}

/// Turn the three bytes of a read into the raw sample and the status
/// register, which keeps the whole status byte.
pub fn decode_reading(high: u8, low: u8, status: u8) -> (r: (i16, ConfigRegister))
    ensures
        r.0 as int == sample_of(high, low),
        r.1.value == status,
{
    let sample: i16 = if high < 128 {
        high as i16 * 256 + low as i16
    } else {
        (high as i16 - 256) * 256 + low as i16
    };
    (sample, ConfigRegister::new(status))
}

/// Executable form of [`outcome_of`].
fn outcome_from(r: Result<i32, Error>) -> (o: Outcome)
    ensures
        o == outcome_of(r),
{
    match r {
        Ok(mv) => Outcome::Voltage { millivolts: mv },
        Err(e) => Outcome::Failed { error: e },
    }
}

impl Acquisition {
    /// Milliseconds to wait after the control byte was written.
    pub open spec fn spec_settle_ms(&self) -> u64 {
        match self.operation {
            Operation::OneShot => (self.config.spec_settle_delay() + SETTLE_GUARD_MS) as u64,
            _ => self.config.spec_settle_delay(),
        }
    }

    /// The action that the current phase waits on.
    pub open spec fn spec_action(&self) -> Action {
        match self.phase {
            Phase::Requested => Action::Write {
                address: self.config.address,
                byte: self.config.spec_control_byte(),
            },
            Phase::Settling => Action::Sleep { ms: self.spec_settle_ms() },
            Phase::Reading => Action::Read { address: self.config.address },
            Phase::Polling => Action::Sleep { ms: POLL_INTERVAL_MS },
            Phase::Done { outcome } => Action::Finish { outcome },
        }
    }

    /// The phase after a read returned `high`, `low`, `status`.
    pub open spec fn spec_after_read(&self, high: u8, low: u8, status: u8) -> Phase {
        if !status_ready(status) {
            Phase::Polling
        } else if self.operation == Operation::WriteConfig {
            Phase::Done { outcome: Outcome::Configured }
        } else {
            Phase::Done {
                outcome: outcome_of(voltage_of(self.config.resolution, sample_of(high, low) as i16)),
            }
        }
    }

    /// The phase after `event`. An event that does not answer the pending
    /// action changes nothing, so the action stays pending.
    pub open spec fn spec_next_phase(&self, event: Event) -> Phase {
        match (self.phase, event) {
            (Phase::Requested, Event::WriteOk) => Phase::Settling,
            (Phase::Requested, Event::WriteFailed) => Phase::Done {
                outcome: Outcome::Failed { error: Error::I2c },
            },
            (Phase::Settling, Event::SleepOver) => Phase::Reading,
            (Phase::Polling, Event::SleepOver) => Phase::Reading,
            (Phase::Reading, Event::ReadFailed) => Phase::Done {
                outcome: Outcome::Failed { error: Error::I2c },
            },
            (Phase::Reading, Event::ReadOk { high, low, status }) => self.spec_after_read(
                high,
                low,
                status,
            ),
            _ => self.phase,
        }
    }

    pub open spec fn spec_advance(self, event: Event) -> Acquisition {
        Acquisition { phase: self.spec_next_phase(event), ..self }
    }

    pub open spec fn is_done(&self) -> bool {
        self.phase is Done
    }

    /// The action the caller must perform next.
    #[verifier::when_used_as_spec(spec_action)]
    pub fn action(&self) -> (r: Action)
        ensures
            r == self.spec_action(),
    {
        match self.phase {
            Phase::Requested => Action::Write {
                address: self.config.address,
                byte: self.config.control_byte(),
            },
            Phase::Settling => {
                let settle = self.config.settle_delay();
                let ms = match self.operation {
                    Operation::OneShot => settle + SETTLE_GUARD_MS,
                    _ => settle,
                };
                Action::Sleep { ms }
            },
            Phase::Reading => Action::Read { address: self.config.address },
            Phase::Polling => Action::Sleep { ms: POLL_INTERVAL_MS },
            Phase::Done { outcome } => Action::Finish { outcome },
        }
    }

    /// Take the caller's report on the pending action and move on.
    #[verifier::when_used_as_spec(spec_advance)]
    pub fn advance(self, event: Event) -> (r: Acquisition)
        ensures
            r == self.spec_advance(event),
    {
        let phase = match (self.phase, event) {
            (Phase::Requested, Event::WriteOk) => Phase::Settling,
            (Phase::Requested, Event::WriteFailed) => Phase::Done {
                outcome: Outcome::Failed { error: Error::I2c },
            },
            (Phase::Settling, Event::SleepOver) => Phase::Reading,
            (Phase::Polling, Event::SleepOver) => Phase::Reading,
            (Phase::Reading, Event::ReadFailed) => Phase::Done {
                outcome: Outcome::Failed { error: Error::I2c },
            },
            (Phase::Reading, Event::ReadOk { high, low, status }) => {
                let (measurement, config_reg) = decode_reading(high, low, status);
                if !config_reg.is_ready() {
                    Phase::Polling
                } else {
                    match self.operation {
                        Operation::WriteConfig => Phase::Done { outcome: Outcome::Configured },
                        _ => Phase::Done {
                            outcome: outcome_from(self.config.calculate_voltage(measurement)),
                        },
                    }
                }
            },
            _ => self.phase,
        };
        Acquisition { phase, ..self }
    }
}

impl ThermostatConfig {
    pub open spec fn spec_start(self, operation: Operation) -> Acquisition {
        Acquisition {
            config: self,
            operation,
            phase: if operation == Operation::Measurement {
                Phase::Reading
            } else {
                Phase::Requested
            },
        }
    }

    /// Start a one-shot conversion: write the control byte, wait the settle
    /// delay plus a guard, then poll until ready and decode the voltage.
    pub fn one_shot_measurement(&self) -> (r: Acquisition)
        ensures
            r == self.spec_start(Operation::OneShot),
    {
        Acquisition { config: *self, operation: Operation::OneShot, phase: Phase::Requested }
    }

    /// Start writing the configuration: write the control byte, wait the
    /// settle delay, then poll until the device reports ready.
    pub fn write_config(&self) -> (r: Acquisition)
        ensures
            r == self.spec_start(Operation::WriteConfig),
    {
        Acquisition { config: *self, operation: Operation::WriteConfig, phase: Phase::Requested }
    }

    /// Start reading a measurement: poll until ready, then decode the
    /// voltage.
    pub fn get_measurement(&self) -> (r: Acquisition)
        ensures
            r == self.spec_start(Operation::Measurement),
    {
        Acquisition { config: *self, operation: Operation::Measurement, phase: Phase::Reading }
    }
}

/// A one-shot conversion on a device that is ready at the first read: one
/// write of the control byte with the start flag set, one sleep of the
/// settle delay plus the guard, one read, and the decoded result.
pub proof fn lemma_one_shot_ready_first(cfg: ThermostatConfig, high: u8, low: u8, status: u8)
    requires
        cfg.mode == Mode::OneShot,
        status_ready(status),
    ensures
        ({
            let a0 = cfg.spec_start(Operation::OneShot);
            let a1 = a0.spec_advance(Event::WriteOk);
            let a2 = a1.spec_advance(Event::SleepOver);
            let a3 = a2.spec_advance(Event::ReadOk { high, low, status });
            &&& a0.spec_action() == Action::Write {
                address: cfg.address,
                byte: cfg.spec_control_byte(),
            }
            &&& cfg.spec_control_byte() & ConfigRegister::NOT_READY == ConfigRegister::NOT_READY
            &&& a1.spec_action() == Action::Sleep {
                ms: (cfg.spec_settle_delay() + SETTLE_GUARD_MS) as u64,
            }
            &&& a2.spec_action() == Action::Read { address: cfg.address }
            &&& a3.spec_action() == Action::Finish {
                outcome: outcome_of(voltage_of(cfg.resolution, sample_of(high, low) as i16)),
            }
        }),
{
    crate::config::lemma_control_byte_fields(cfg);
}

/// A read that reports "not ready" yields no result: it costs one sleep of
/// the poll interval, after which the read is issued again.
pub proof fn lemma_not_ready_polls_again(acq: Acquisition, high: u8, low: u8, status: u8)
    requires
        acq.phase == Phase::Reading,
        !status_ready(status),
    ensures
        ({
            let a1 = acq.spec_advance(Event::ReadOk { high, low, status });
            let a2 = a1.spec_advance(Event::SleepOver);
            &&& !a1.is_done()
            &&& a1.spec_action() == Action::Sleep { ms: POLL_INTERVAL_MS }
            &&& a2.phase == Phase::Reading
            &&& a2.spec_action() == Action::Read { address: acq.config.address }
        }),
{
}

/// A finished acquisition stays finished with the same outcome, whatever
/// is reported to it.
pub proof fn lemma_done_is_final(acq: Acquisition, event: Event)
    requires
        acq.is_done(),
    ensures
        acq.spec_advance(event) == acq,
{
}

/// Any bus failure of the pending transfer ends the acquisition with a bus
/// error, without retry.
pub proof fn lemma_bus_error_ends(acq: Acquisition)
    ensures
        acq.phase == Phase::Requested ==> acq.spec_advance(Event::WriteFailed).spec_action()
            == (Action::Finish { outcome: Outcome::Failed { error: Error::I2c } }),
        acq.phase == Phase::Reading ==> acq.spec_advance(Event::ReadFailed).spec_action()
            == (Action::Finish { outcome: Outcome::Failed { error: Error::I2c } }),
{
}

} // verus!
