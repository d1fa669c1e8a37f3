use mcp3428::protocol::decode_reading;
use mcp3428::{Acquisition, Action, Error, Event, Mode, Outcome, Phase, Resolution, ThermostatConfig};

/// A bus and clock stand-in: answers reads from a script and records every
/// action it was asked to perform.
struct Stub {
    reads: Vec<Result<[u8; 3], ()>>,
    write_ok: bool,
    log: Vec<Action>,
}

impl Stub {
    fn new(reads: Vec<Result<[u8; 3], ()>>) -> Self {
        Stub { reads, write_ok: true, log: Vec::new() }
    }

    fn run(&mut self, mut acq: Acquisition) -> Outcome {
        for _ in 0..1000 {
            let action = acq.action();
            self.log.push(action);
            let event = match action {
                Action::Write { .. } => {
                    if self.write_ok {
                        Event::WriteOk
                    } else {
                        Event::WriteFailed
                    }
                }
                Action::Sleep { .. } => Event::SleepOver,
                Action::Read { .. } => match self.reads.remove(0) {
                    Ok([high, low, status]) => Event::ReadOk { high, low, status },
                    Err(()) => Event::ReadFailed,
                },
                Action::Finish { outcome } => return outcome,
            };
            acq = acq.advance(event);
        }
        panic!("sequence did not finish");
    }

    fn count(&self, f: impl Fn(&Action) -> bool) -> usize {
        self.log.iter().filter(|a| f(a)).count()
    }
}

const READY: u8 = 0x00;
const BUSY: u8 = 0x80;

#[test]
fn one_shot_ready_on_first_read() {
    let cfg = ThermostatConfig::new(0x68, Mode::OneShot);
    let mut stub = Stub::new(vec![Ok([0x04, 0x00, READY])]);
    let outcome = stub.run(cfg.one_shot_measurement());
    assert_eq!(outcome, Outcome::Voltage { millivolts: 1024 });
    assert_eq!(
        stub.log,
        vec![
            Action::Write { address: 0x68, byte: 0x80 },
            Action::Sleep { ms: cfg.settle_delay() + 2 },
            Action::Read { address: 0x68 },
            Action::Finish { outcome: Outcome::Voltage { millivolts: 1024 } },
        ]
    );
}

#[test]
fn one_shot_polls_until_ready() {
    let cfg = ThermostatConfig::new(0x68, Mode::OneShot).with_resolution(Resolution::Bits16Sps15);
    let mut stub = Stub::new(vec![
        Ok([0x00, 0x10, BUSY]),
        Ok([0x00, 0x10, BUSY | 0x08]),
        Ok([0x00, 0x10, READY | 0x08]),
    ]);
    let outcome = stub.run(cfg.one_shot_measurement());
    assert_eq!(outcome, Outcome::Voltage { millivolts: 1 });
    assert_eq!(stub.count(|a| matches!(a, Action::Write { .. })), 1);
    assert_eq!(stub.count(|a| matches!(a, Action::Read { .. })), 3);
    assert_eq!(stub.count(|a| *a == Action::Sleep { ms: 1 }), 2);
    assert_eq!(stub.log[1], Action::Sleep { ms: 59 });
    assert_eq!(
        &stub.log[2..7],
        &[
            Action::Read { address: 0x68 },
            Action::Sleep { ms: 1 },
            Action::Read { address: 0x68 },
            Action::Sleep { ms: 1 },
            Action::Read { address: 0x68 },
        ]
    );
}

#[test]
fn one_shot_write_failure_is_bus_error() {
    let cfg = ThermostatConfig::new(0x68, Mode::OneShot);
    let mut stub = Stub::new(vec![]);
    stub.write_ok = false;
    let outcome = stub.run(cfg.one_shot_measurement());
    assert_eq!(outcome, Outcome::Failed { error: Error::I2c });
    assert_eq!(stub.log.len(), 2);
}

#[test]
fn read_failure_is_bus_error_without_retry() {
    let cfg = ThermostatConfig::new(0x68, Mode::OneShot);
    let mut stub = Stub::new(vec![Ok([0, 0, BUSY]), Err(())]);
    let outcome = stub.run(cfg.one_shot_measurement());
    assert_eq!(outcome, Outcome::Failed { error: Error::I2c });
    assert_eq!(stub.count(|a| matches!(a, Action::Read { .. })), 2);
}

#[test]
fn saturated_reading_is_terminal() {
    let cfg = ThermostatConfig::new(0x68, Mode::OneShot);
    let mut stub = Stub::new(vec![Ok([0x07, 0xff, READY]), Ok([0, 0, READY])]);
    let outcome = stub.run(cfg.one_shot_measurement());
    assert_eq!(outcome, Outcome::Failed { error: Error::VoltageTooHigh });
    assert_eq!(stub.count(|a| matches!(a, Action::Read { .. })), 1);
    let mut stub = Stub::new(vec![Ok([0xf8, 0x00, READY])]);
    let outcome = stub.run(cfg.get_measurement());
    assert_eq!(outcome, Outcome::Failed { error: Error::VoltageTooLow });
}

#[test]
fn write_config_continuous_waits_and_polls() {
    let cfg = ThermostatConfig::new(0x6c, Mode::Continuous).with_resolution(Resolution::Bits14Sps60);
    let mut stub = Stub::new(vec![Ok([0, 0, BUSY | 0x14]), Ok([0, 0, 0x14])]);
    let outcome = stub.run(cfg.write_config());
    assert_eq!(outcome, Outcome::Configured);
    assert_eq!(
        stub.log,
        vec![
            Action::Write { address: 0x6c, byte: 0x14 },
            Action::Sleep { ms: 15 },
            Action::Read { address: 0x6c },
            Action::Sleep { ms: 1 },
            Action::Read { address: 0x6c },
            Action::Finish { outcome: Outcome::Configured },
        ]
    );
}

#[test]
fn get_measurement_starts_with_a_read() {
    let cfg = ThermostatConfig::new(0x68, Mode::Continuous);
    let mut stub = Stub::new(vec![Ok([0xfc, 0x00, 0x10])]);
    let outcome = stub.run(cfg.get_measurement());
    assert_eq!(outcome, Outcome::Voltage { millivolts: -1024 });
    assert_eq!(stub.log[0], Action::Read { address: 0x68 });
    assert_eq!(stub.count(|a| matches!(a, Action::Write { .. } | Action::Sleep { .. })), 0);
}

#[test]
fn stray_event_leaves_acquisition_unchanged() {
    let cfg = ThermostatConfig::new(0x68, Mode::OneShot);
    let acq = cfg.one_shot_measurement();
    assert_eq!(acq.advance(Event::SleepOver), acq);
    assert_eq!(acq.advance(Event::ReadOk { high: 0, low: 0, status: 0 }), acq);
    let reading = cfg.get_measurement();
    assert_eq!(reading.advance(Event::WriteOk), reading);
    let done = reading.advance(Event::ReadFailed);
    assert_eq!(done.phase, Phase::Done { outcome: Outcome::Failed { error: Error::I2c } });
    assert_eq!(done.advance(Event::ReadOk { high: 0, low: 1, status: 0 }), done);
}

#[test]
fn status_channel_bits_do_not_affect_readiness() {
    let cfg = ThermostatConfig::new(0x68, Mode::Continuous);
    let acq = cfg.get_measurement().advance(Event::ReadOk { high: 0, low: 5, status: 0x60 });
    assert_eq!(acq.phase, Phase::Done { outcome: Outcome::Voltage { millivolts: 5 } });
}

#[test]
fn reading_bytes_are_big_endian_twos_complement() {
    assert_eq!(decode_reading(0xff, 0xff, 0x00).0, -1);
    assert_eq!(decode_reading(0x80, 0x00, 0x00).0, -32768);
    assert_eq!(decode_reading(0x7f, 0xff, 0x00).0, 32767);
    assert_eq!(decode_reading(0x12, 0x34, 0x00).0, 0x1234);
    assert_eq!(decode_reading(0x00, 0x00, 0xff).1.value, 0xff);
}

#[test]
fn decoded_status_keeps_echoed_configuration() {
    let (_, reg) = decode_reading(0x00, 0x00, 0x60 | 0x10 | 0x08 | 0x02);
    assert_eq!(reg.value, 0x7a);
    assert!(reg.is_ready());
    assert_eq!(reg.channel(), mcp3428::Channel::Channel4);
    assert_eq!(reg.mode(), Mode::Continuous);
    assert_eq!(reg.resolution(), Some(Resolution::Bits16Sps15));
    assert_eq!(reg.gain(), mcp3428::Gain::Gain4);
}
