//! One-wire driver for a single digital temperature sensor on the bus.
//!
//! Every bus primitive is described as a script of [`LineOp`]s that the
//! caller plays on the data pin, handing back the level seen at each
//! `Sample`. A whole exchange (reset, then the command bytes when a device
//! answered) is driven by a [`BusTransaction`], so the decision to go on
//! after the presence check, and the decoding of what was read, stay here.
use vstd::prelude::*;
use crate::bits::{
    bits_value, byte_bits_lsb_first, byte_from_bits, two_pow, lemma_bits_value_low_bits, lemma_low_bits_len,
    lsb_first,
};

verus! {

/// Addresses the only device on the bus without sending its ROM code.
pub const SKIP_ROM: u8 = 0xCC;

/// Starts a temperature conversion.
pub const CONVERT_T: u8 = 0x44;

/// Reads the device's scratchpad, temperature bytes first.
pub const READ_SCRATCHPAD: u8 = 0xBE;

/// Worst-case conversion time at 12-bit resolution.
pub const TEMP_CONVERSION_TIME_MS: u32 = 750;

/// One operation on the data line.
#[derive(Clone, Copy, Debug, PartialEq, Eq, Structural)]
pub enum LineOp {
    /// Make the pin an output and pull the line low.
    DriveLow,
    /// Drive the line high; the pin stays an output.
    DriveHigh,
    /// Make the pin an input with its pull-up on, letting the line float high.
    Release,
    /// Read the line level (`true` is high).
    Sample,
    /// Busy-wait this many microseconds.
    DelayUs(u16),
}

/// Reset slot: low for 500µs, release, sample the presence pulse after
/// 70µs, then pad out the 960µs slot.
pub open spec fn reset_slot() -> Seq<LineOp> {
    seq![
        LineOp::DriveLow,
        LineOp::DelayUs(500),
        LineOp::Release,
        LineOp::DelayUs(70),
        LineOp::Sample,
        LineOp::DelayUs(410),
    ]
}

/// Write slot: a short low pulse for a one, a long one for a zero.
pub open spec fn write_slot(one: bool) -> Seq<LineOp> {
    if one {
        seq![LineOp::DriveLow, LineOp::DelayUs(10), LineOp::DriveHigh, LineOp::DelayUs(55)]
    } else {
        seq![LineOp::DriveLow, LineOp::DelayUs(70), LineOp::DriveHigh, LineOp::DelayUs(5)]
    }
}

/// Read slot: a 5µs low pulse, release, sample 10µs later, pad to 60µs.
pub open spec fn read_slot() -> Seq<LineOp> {
    seq![
        LineOp::DriveLow,
        LineOp::DelayUs(5),
        LineOp::Release,
        LineOp::DelayUs(10),
        LineOp::Sample,
        LineOp::DelayUs(45),
    ]
}

/// The write slots of the bits `s`, in order.
pub open spec fn write_slots(s: Seq<bool>) -> Seq<LineOp>
    decreases s.len(),
{
    if s.len() == 0 {
        Seq::empty()
    } else {
        write_slots(s.drop_last()) + write_slot(s.last())
    }
}

/// `n` read slots.
pub open spec fn read_slots(n: nat) -> Seq<LineOp>
    decreases n,
{
    if n == 0 {
        Seq::empty()
    } else {
        read_slots((n - 1) as nat) + read_slot()
    }
}

/// Writing a byte: its bits, least significant first, one slot each.
pub open spec fn write_byte_script(b: u8) -> Seq<LineOp> {
    write_slots(lsb_first(b))
}

/// Reading a byte: eight read slots; the samples are its bits, least
/// significant first.
pub open spec fn read_byte_script() -> Seq<LineOp> {
    read_slots(8)
}

/// The bus command that a transaction sends after the reset.
#[derive(Clone, Copy, Debug, PartialEq, Eq, Structural)]
pub enum Command {
    /// Skip ROM, then start a conversion.
    StartConversion,
    /// Skip ROM, read scratchpad, then read the two temperature bytes.
    ReadScratchpad,
}

/// Where a transaction stands.
#[derive(Clone, Copy, Debug, PartialEq, Eq, Structural)]
pub enum Stage {
    /// The reset slot is to be played.
    Reset,
    /// A device answered; the command is to be played.
    Exchange,
    /// Nothing more to play.
    Done,
}

/// What is played on the line after a successful reset.
pub open spec fn command_script(c: Command) -> Seq<LineOp> {
    match c {
        Command::StartConversion => write_byte_script(SKIP_ROM) + write_byte_script(CONVERT_T),
        Command::ReadScratchpad => write_byte_script(SKIP_ROM) + write_byte_script(READ_SCRATCHPAD)
            + read_byte_script() + read_byte_script(),
    }
}

/// The operations of a stage.
pub open spec fn stage_ops(c: Command, stage: Stage) -> Seq<LineOp> {
    match stage {
        Stage::Reset => reset_slot(),
        Stage::Exchange => command_script(c),
        Stage::Done => Seq::empty(),
    }
}

/// How many `Sample` operations the ops of a stage hold.
pub open spec fn stage_samples(c: Command, stage: Stage) -> nat {
    match stage {
        Stage::Reset => 1,
        Stage::Exchange => if c == Command::ReadScratchpad { 16 } else { 0 },
        Stage::Done => 0,
    }
}

/// A 16-bit pattern read as a two's-complement number.
pub open spec fn signed16(raw: int) -> int {
    if raw >= 0x8000 { raw - 0x10000 } else { raw }
}

/// Division rounding toward zero, as Rust's `/` on signed integers.
pub open spec fn div_toward_zero(a: int, d: int) -> int {
    if a >= 0 { a / d } else { -((-a) / d) }
}

/// The temperature in tenths of a degree for the raw scratchpad word
/// `raw` (sixteenths of a degree), or none for the words `0x0000` and
/// `0xFFFF`, which mean that no valid reading is there.
pub open spec fn temperature_of_raw(raw: int) -> Option<i16> {
    if raw == 0 || raw == 0xFFFF {
        None
    } else {
        Some(div_toward_zero(signed16(raw) * 10, 16) as i16)
    }
}

/// The temperature that a finished read transaction heard.
pub open spec fn heard_temperature(c: Command, stage: Stage, present: bool, heard: Seq<bool>) -> Option<i16> {
    if c == Command::ReadScratchpad && stage == Stage::Done && present && heard.len() == 16 {
        temperature_of_raw(bits_value(heard.subrange(0, 8)) as int + 256 * bits_value(heard.subrange(8, 16)) as int)
    } else {
        None
    }
}

/// Configures the data pin: an input with the pull-up on.
pub fn initialize() -> (r: Vec<LineOp>)
    ensures
        r@ == seq![LineOp::Release],
{
    let mut r: Vec<LineOp> = Vec::new();
    r.push(LineOp::Release);
    r
}

/// The reset slot; the device is present when its `Sample` reads low.
pub fn reset() -> (r: Vec<LineOp>)
    ensures
        r@ == reset_slot(),
{
    let mut r: Vec<LineOp> = Vec::new();
    r.push(LineOp::DriveLow);
    r.push(LineOp::DelayUs(500));
    r.push(LineOp::Release);
    r.push(LineOp::DelayUs(70));
    r.push(LineOp::Sample);
    r.push(LineOp::DelayUs(410));
    assert(r@ =~= reset_slot());
    r
}

fn push_write_slot(ops: &mut Vec<LineOp>, one: bool)
    ensures
        final(ops)@ == old(ops)@ + write_slot(one),
{
    ops.push(LineOp::DriveLow);
    if one {
        ops.push(LineOp::DelayUs(10));
        ops.push(LineOp::DriveHigh);
        ops.push(LineOp::DelayUs(55));
    } else {
        ops.push(LineOp::DelayUs(70));
        ops.push(LineOp::DriveHigh);
        ops.push(LineOp::DelayUs(5));
    }
    assert(final(ops)@ =~= old(ops)@ + write_slot(one));
}

fn push_read_slot(ops: &mut Vec<LineOp>)
    ensures
        final(ops)@ == old(ops)@ + read_slot(),
{
    ops.push(LineOp::DriveLow);
    ops.push(LineOp::DelayUs(5));
    ops.push(LineOp::Release);
    ops.push(LineOp::DelayUs(10));
    ops.push(LineOp::Sample);
    ops.push(LineOp::DelayUs(45));
    assert(final(ops)@ =~= old(ops)@ + read_slot());
}

/// The slots that write `byte`, least significant bit first.
pub fn write_byte(byte: u8) -> (r: Vec<LineOp>)
    ensures
        r@ == write_byte_script(byte),
{
    let bits = byte_bits_lsb_first(byte);
    let mut r: Vec<LineOp> = Vec::new();
    let mut i: usize = 0;
    proof {
        lemma_low_bits_len(byte as nat, 8);
    }
    assert(bits@.take(0) =~= Seq::<bool>::empty());
    while i < 8
        invariant
            i <= 8,
            bits@ == lsb_first(byte),
            bits@.len() == 8,
            r@ == write_slots(bits@.take(i as int)),
        decreases 8 - i,
    {
        assert(bits@.take(i + 1).drop_last() =~= bits@.take(i as int));
        push_write_slot(&mut r, bits[i]);
        i = i + 1;
    }
    assert(bits@.take(8) =~= bits@);
    r
}

/// The slots that read one byte; the eight samples heard are its bits,
/// least significant first (see [`byte_from_bits`]).
pub fn read_byte() -> (r: Vec<LineOp>)
    ensures
        r@ == read_byte_script(),
{
    let mut r: Vec<LineOp> = Vec::new();
    let mut i: usize = 0;
    while i < 8
        invariant
            i <= 8,
            r@ == read_slots(i as nat),
        decreases 8 - i,
    {
        push_read_slot(&mut r);
        i = i + 1;
    }
    r
}

fn command_ops(c: Command) -> (r: Vec<LineOp>)
    ensures
        r@ == command_script(c),
{
    let mut r = write_byte(SKIP_ROM);
    match c {
        Command::StartConversion => {
            let mut tail = write_byte(CONVERT_T);
            r.append(&mut tail);
        },
        Command::ReadScratchpad => {
            let mut tail = write_byte(READ_SCRATCHPAD);
            r.append(&mut tail);
            let mut low = read_byte();
            r.append(&mut low);
            let mut high = read_byte();
            r.append(&mut high);
        },
    }
    r
}

/// Decodes the two temperature bytes of the scratchpad.
pub fn scratchpad_temperature(low: u8, high: u8) -> (r: Option<i16>)
    ensures
        r == temperature_of_raw(low as int + 256 * high as int),
{
    let raw: u32 = low as u32 + 256 * high as u32;
    if raw == 0 || raw == 0xFFFF {
        None
    } else {
        let signed: i32 = if raw >= 0x8000 { raw as i32 - 0x10000 } else { raw as i32 };
        let scaled: i32 = signed * 10;
        let tenths: i32 = if scaled >= 0 { scaled / 16 } else { -((-scaled) / 16) };
        Some(tenths as i16)
    }
}

/// One exchange with the sensor: a reset, then the command if a device
/// answered the reset.
pub struct BusTransaction {
    pub command: Command,
    pub stage: Stage,
    /// Whether the reset found a device.
    pub device_present: bool,
    /// The samples heard while the command was played.
    pub heard: Vec<bool>,
}

fn new_transaction(command: Command) -> (r: BusTransaction)
    ensures
        r.command == command,
        r.stage == Stage::Reset,
        !r.device_present,
        r.heard@.len() == 0,
{
    BusTransaction { command, stage: Stage::Reset, device_present: false, heard: Vec::new() }
}

/// Starts a conversion without waiting for it: the result may be read
/// after [`TEMP_CONVERSION_TIME_MS`].
pub fn start_temperature_conversion() -> (r: BusTransaction)
    ensures
        r.command == Command::StartConversion,
        r.stage == Stage::Reset,
        !r.device_present,
        r.heard@.len() == 0,
{
    new_transaction(Command::StartConversion)
}

/// Reads the result of a finished conversion; see
/// [`BusTransaction::temperature`].
pub fn read_temperature_after_conversion() -> (r: BusTransaction)
    ensures
        r.command == Command::ReadScratchpad,
        r.stage == Stage::Reset,
        !r.device_present,
        r.heard@.len() == 0,
{
    new_transaction(Command::ReadScratchpad)
}

impl BusTransaction {
    /// The operations to play next; empty once the transaction is done.
    pub fn next_ops(&self) -> (r: Vec<LineOp>)
        ensures
            r@ == stage_ops(self.command, self.stage),
    {
        match self.stage {
            Stage::Reset => reset(),
            Stage::Exchange => command_ops(self.command),
            Stage::Done => Vec::new(),
        }
    }

    /// How many samples the operations of [`Self::next_ops`] take.
    pub fn expected_samples(&self) -> (r: usize)
        ensures
            r == stage_samples(self.command, self.stage),
    {
        match self.stage {
            Stage::Reset => 1,
            Stage::Exchange => match self.command {
                Command::ReadScratchpad => 16,
                Command::StartConversion => 0,
            },
            Stage::Done => 0,
        }
    }

    /// Hands back the levels that the `Sample` operations of
    /// [`Self::next_ops`] read, in order, and moves to the next stage. A
    /// reset that reads the line high found no device, and ends the
    /// transaction.
    pub fn advance(&mut self, heard: &[bool])
        requires
            old(self).stage != Stage::Done,
            heard@.len() == stage_samples(old(self).command, old(self).stage),
        ensures
            final(self).command == old(self).command,
            old(self).stage == Stage::Reset ==> {
                &&& final(self).device_present == !heard@[0]
                &&& final(self).stage == if heard@[0] { Stage::Done } else { Stage::Exchange }
                &&& final(self).heard@ == old(self).heard@
            },
            old(self).stage == Stage::Exchange ==> {
                &&& final(self).device_present == old(self).device_present
                &&& final(self).stage == Stage::Done
                &&& final(self).heard@ == heard@
            },
    {
        match self.stage {
            Stage::Reset => {
                let line_high = heard[0];
                self.device_present = !line_high;
                self.stage = if line_high { Stage::Done } else { Stage::Exchange };
            },
            _ => {
                let mut copy: Vec<bool> = Vec::new();
                let mut i: usize = 0;
                while i < heard.len()
                    invariant
                        i <= heard@.len(),
                        copy@ == heard@.take(i as int),
                    decreases heard@.len() - i,
                {
                    copy.push(heard[i]);
                    i = i + 1;
                    assert(copy@ =~= heard@.take(i as int));
                }
                assert(heard@.take(heard@.len() as int) =~= heard@);
                self.heard = copy;
                self.stage = Stage::Done;
            },
        }
    }

    /// Whether nothing more is to be played.
    pub fn is_finished(&self) -> (r: bool)
        ensures
            r == (self.stage == Stage::Done),
    {
        self.stage == Stage::Done
    }

    /// The temperature in tenths of a degree that a finished read
    /// transaction heard; none when no device answered, when the
    /// scratchpad held no valid reading, or for any other transaction.
    pub fn temperature(&self) -> (r: Option<i16>)
        ensures
            r == heard_temperature(self.command, self.stage, self.device_present, self.heard@),
    {
        if self.command == Command::ReadScratchpad && self.stage == Stage::Done && self.device_present
            && self.heard.len() == 16 {
            let low = byte_from_bits(&self.heard.as_slice()[0..8]);
            let high = byte_from_bits(&self.heard.as_slice()[8..16]);
            scratchpad_temperature(low, high)
        } else {
            None
        }
    }
}

/// Loopback: a device holding `b` answers the eight read slots of
/// [`read_byte`] with the bits of `b`, least significant first. The byte
/// assembled from those samples is `b`, and [`write_byte`] of it sends the
/// same bits back, in the same order.
pub proof fn lemma_loopback_round_trip(b: u8)
    ensures
        bits_value(lsb_first(b)) == b,
        write_byte_script(bits_value(lsb_first(b)) as u8) == write_slots(lsb_first(b)),
{
    reveal_with_fuel(two_pow, 9);
    lemma_bits_value_low_bits(b as nat, 8);
}

/// A read transaction whose device answered and then sent the scratchpad
/// word `raw` (low byte first, each byte least significant bit first)
/// reports `raw`, taken as a signed 16-bit count of sixteenths of a degree,
/// times ten divided by sixteen; nothing for the words `0x0000` and `0xFFFF`.
pub proof fn lemma_read_reports_word(raw: u16)
    ensures
        heard_temperature(
            Command::ReadScratchpad,
            Stage::Done,
            true,
            lsb_first((raw % 256) as u8) + lsb_first((raw / 256) as u8),
        ) == if raw == 0 || raw == 0xFFFF {
            None
        } else {
            Some(div_toward_zero(signed16(raw as int) * 10, 16) as i16)
        },
{
    let low = (raw % 256) as u8;
    let high = (raw / 256) as u8;
    let heard = lsb_first(low) + lsb_first(high);
    lemma_low_bits_len(low as nat, 8);
    lemma_low_bits_len(high as nat, 8);
    assert(heard.subrange(0, 8) =~= lsb_first(low));
    assert(heard.subrange(8, 16) =~= lsb_first(high));
    reveal_with_fuel(two_pow, 9);
    lemma_bits_value_low_bits(low as nat, 8);
    lemma_bits_value_low_bits(high as nat, 8);
}

} // verus!
