//! Driver logic for a four-channel delta-sigma ADC on a two-wire bus.
//!
//! The library encodes the device configuration into the control byte,
//! decodes the status byte that follows every sample, converts raw codes to
//! millivolts and drives the conversion protocol as a state machine whose
//! bus transfers and delays are carried out by the caller.
pub mod register;
pub mod config;
pub mod protocol;

pub use config::{Error, ThermostatConfig};
pub use protocol::{Acquisition, Action, Event, Operation, Outcome, Phase};
pub use register::{Channel, ConfigRegister, Gain, Mode, Resolution};
