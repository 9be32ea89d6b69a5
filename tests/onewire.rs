use aquarium_monitor::bits::{byte_bits_lsb_first, byte_from_bits};
use aquarium_monitor::temperature::{
    initialize, read_byte, read_temperature_after_conversion, reset, scratchpad_temperature,
    start_temperature_conversion, write_byte, BusTransaction, Command, LineOp, Stage, CONVERT_T,
    READ_SCRATCHPAD, SKIP_ROM,
};

/// A simulated bus with one device: it answers read slots from a queue of
/// bits, records the bits of write slots (a release within 15µs of the
/// falling edge is a one), and answers a reset with its presence pulse.
struct LoopbackBus {
    present: bool,
    to_send: Vec<bool>,
    written: Vec<bool>,
    resets: usize,
    time_us: u32,
    low_since: Option<u32>,
    slot_open: bool,
    slot_low_us: u32,
    slot_sampled: bool,
}

impl LoopbackBus {
    fn new(present: bool, to_send: Vec<bool>) -> Self {
        LoopbackBus {
            present,
            to_send,
            written: Vec::new(),
            resets: 0,
            time_us: 0,
            low_since: None,
            slot_open: false,
            slot_low_us: 0,
            slot_sampled: false,
        }
    }

    fn close_slot(&mut self) {
        if self.slot_open {
            if self.slot_low_us >= 480 {
                self.resets += 1;
            } else if !self.slot_sampled {
                self.written.push(self.slot_low_us < 15);
            }
        }
        self.slot_open = false;
    }

    fn play(&mut self, ops: &[LineOp]) -> Vec<bool> {
        let mut heard = Vec::new();
        for op in ops {
            match *op {
                LineOp::DriveLow => {
                    self.close_slot();
                    self.low_since = Some(self.time_us);
                    self.slot_open = true;
                    self.slot_sampled = false;
                }
                LineOp::DriveHigh | LineOp::Release => {
                    if let Some(start) = self.low_since.take() {
                        self.slot_low_us = self.time_us - start;
                    }
                }
                LineOp::DelayUs(us) => self.time_us += us as u32,
                LineOp::Sample => {
                    self.slot_sampled = true;
                    if self.slot_low_us >= 480 {
                        heard.push(!self.present);
                    } else if self.present && !self.to_send.is_empty() {
                        heard.push(self.to_send.remove(0));
                    } else {
                        heard.push(true);
                    }
                }
            }
        }
        self.close_slot();
        heard
    }
}

fn bits_of(b: u8) -> Vec<bool> {
    (0..8).map(|i| (b >> i) & 1 == 1).collect()
}

fn run(tx: &mut BusTransaction, bus: &mut LoopbackBus) {
    while !tx.is_finished() {
        let ops = tx.next_ops();
        let heard = bus.play(&ops);
        assert_eq!(heard.len(), tx.expected_samples());
        tx.advance(&heard);
    }
}

fn read_word(raw: u16, present: bool) -> (Option<i16>, LoopbackBus) {
    let mut to_send = bits_of((raw & 0xFF) as u8);
    to_send.extend(bits_of((raw >> 8) as u8));
    let mut bus = LoopbackBus::new(present, to_send);
    let mut tx = read_temperature_after_conversion();
    run(&mut tx, &mut bus);
    (tx.temperature(), bus)
}

#[test]
fn loopback_round_trip_every_byte() {
    for b in 0..=255u8 {
        let mut bus = LoopbackBus::new(true, bits_of(b));
        let heard = bus.play(&read_byte());
        assert_eq!(heard, bits_of(b));
        let r = byte_from_bits(&heard);
        assert_eq!(r, b);
        bus.play(&write_byte(r));
        assert_eq!(bus.written, bits_of(b));
    }
}

#[test]
fn bits_lsb_first_of_byte() {
    assert_eq!(byte_bits_lsb_first(0x01), vec![true, false, false, false, false, false, false, false]);
    assert_eq!(byte_bits_lsb_first(0xCC), vec![false, false, true, true, false, false, true, true]);
    assert_eq!(byte_from_bits(&[false, false, true, true, false, false, true, true]), 0xCC);
}

#[test]
fn reset_slot_timing() {
    assert_eq!(
        reset(),
        vec![
            LineOp::DriveLow,
            LineOp::DelayUs(500),
            LineOp::Release,
            LineOp::DelayUs(70),
            LineOp::Sample,
            LineOp::DelayUs(410),
        ]
    );
    assert_eq!(initialize(), vec![LineOp::Release]);
}

#[test]
fn write_slots_short_for_one_long_for_zero() {
    let ops = write_byte(0x01);
    assert_eq!(ops.len(), 32);
    assert_eq!(&ops[0..4], &[LineOp::DriveLow, LineOp::DelayUs(10), LineOp::DriveHigh, LineOp::DelayUs(55)]);
    assert_eq!(&ops[4..8], &[LineOp::DriveLow, LineOp::DelayUs(70), LineOp::DriveHigh, LineOp::DelayUs(5)]);
}

#[test]
fn read_byte_has_eight_samples() {
    let ops = read_byte();
    assert_eq!(ops.len(), 48);
    assert_eq!(ops.iter().filter(|op| **op == LineOp::Sample).count(), 8);
    assert_eq!(
        &ops[0..6],
        &[
            LineOp::DriveLow,
            LineOp::DelayUs(5),
            LineOp::Release,
            LineOp::DelayUs(10),
            LineOp::Sample,
            LineOp::DelayUs(45),
        ]
    );
}

#[test]
fn read_transaction_decodes_every_word() {
    for raw in 0..=0xFFFFu16 {
        let (reading, _) = read_word(raw, true);
        let expected = if raw == 0 || raw == 0xFFFF {
            None
        } else {
            Some(((raw as i16 as i32) * 10 / 16) as i16)
        };
        assert_eq!(reading, expected, "raw {raw:#06x}");
    }
}

#[test]
fn read_transaction_sends_skip_rom_and_read_scratchpad() {
    let (reading, bus) = read_word(0x0191, true);
    assert_eq!(reading, Some(250));
    let mut sent = bits_of(SKIP_ROM);
    sent.extend(bits_of(READ_SCRATCHPAD));
    assert_eq!(bus.written, sent);
    assert_eq!(bus.resets, 1);
}

#[test]
fn read_transaction_without_device() {
    let (reading, bus) = read_word(0x0191, false);
    assert_eq!(reading, None);
    assert!(bus.written.is_empty());
}

#[test]
fn conversion_transaction_sends_convert() {
    let mut bus = LoopbackBus::new(true, Vec::new());
    let mut tx = start_temperature_conversion();
    assert_eq!(tx.command, Command::StartConversion);
    run(&mut tx, &mut bus);
    assert!(tx.device_present);
    assert_eq!(tx.stage, Stage::Done);
    let mut sent = bits_of(SKIP_ROM);
    sent.extend(bits_of(CONVERT_T));
    assert_eq!(bus.written, sent);
    assert_eq!(tx.temperature(), None);
}

#[test]
fn conversion_transaction_without_device_stops_after_reset() {
    let mut bus = LoopbackBus::new(false, Vec::new());
    let mut tx = start_temperature_conversion();
    run(&mut tx, &mut bus);
    assert!(!tx.device_present);
    assert!(bus.written.is_empty());
    assert!(tx.next_ops().is_empty());
}

#[test]
fn scratchpad_values() {
    assert_eq!(scratchpad_temperature(0x00, 0x00), None);
    assert_eq!(scratchpad_temperature(0xFF, 0xFF), None);
    // 25.0625 °C
    assert_eq!(scratchpad_temperature(0x91, 0x01), Some(250));
    // -10.125 °C
    assert_eq!(scratchpad_temperature(0x5E, 0xFF), Some(-101));
    // 85 °C
    assert_eq!(scratchpad_temperature(0x50, 0x05), Some(850));
    // full scale: 0x7FFF and 0x8000
    assert_eq!(scratchpad_temperature(0xFF, 0x7F), Some(20479));
    assert_eq!(scratchpad_temperature(0x00, 0x80), Some(-20480));
}
