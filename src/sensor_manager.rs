//! The sensor scheduler: a state machine ticked once per control-loop
//! iteration that interleaves the slow one-wire temperature conversion with
//! fast pH sampling, without ever waiting.
//!
//! Each tick returns the bus or ADC work to perform; the caller performs it
//! and hands the outcome back ([`SensorManager::record_temperature`],
//! [`SensorManager::record_ph`]).
use vstd::prelude::*;
use crate::ph::{adc_to_ph, ph_of_adc};
use crate::temperature::TEMP_CONVERSION_TIME_MS;

verus! {

/// Where the scheduler stands.
#[derive(Clone, Copy, Debug, PartialEq, Eq, Structural)]
pub enum SensorState {
    /// Nothing in progress.
    Idle,
    /// A conversion started at the given time (ms).
    TemperatureConverting(u64),
    /// The conversion time has passed; the result is to be read.
    TemperatureReady,
    /// The pH probe is to be sampled.
    PHReading,
    /// The pH sample was taken.
    PHReady,
}

/// The latest readings.
#[derive(Clone, Copy, Debug, PartialEq, Eq, Structural)]
pub struct SensorValues {
    /// Water temperature, tenths of a degree Celsius.
    pub temperature: i16,
    /// pH, hundredths.
    pub ph: u16,
}

/// Work that a tick asks of the caller.
#[derive(Clone, Copy, Debug, PartialEq, Eq, Structural)]
pub enum SensorAction {
    /// Nothing to do.
    Wait,
    /// Run the conversion-start bus transaction.
    StartTemperatureConversion,
    /// Run the read bus transaction and record its temperature.
    ReadTemperature,
    /// Sample ADC channel 0 and record it as pH.
    ReadPh,
}

/// One tick: the next state and the work to do, for the time `now` and
/// whether temperature is on the display. The slow conversion is started
/// only while pH is shown, so its result is in by the time temperature
/// comes back on; pH is sampled while temperature is shown.
pub open spec fn step(state: SensorState, now: u64, showing_temperature: bool) -> (SensorState, SensorAction) {
    match state {
        SensorState::Idle => if showing_temperature {
            (SensorState::PHReading, SensorAction::Wait)
        } else {
            (SensorState::TemperatureConverting(now), SensorAction::StartTemperatureConversion)
        },
        SensorState::TemperatureConverting(start) => if now >= start + TEMP_CONVERSION_TIME_MS {
            (SensorState::TemperatureReady, SensorAction::Wait)
        } else {
            (state, SensorAction::Wait)
        },
        SensorState::TemperatureReady => (SensorState::Idle, SensorAction::ReadTemperature),
        SensorState::PHReading => (SensorState::PHReady, SensorAction::ReadPh),
        SensorState::PHReady => (SensorState::Idle, SensorAction::Wait),
    }
}

/// Owns the scheduler state and the readings it writes.
pub struct SensorManager {
    state: SensorState,
    pub values: SensorValues,
}

impl SensorManager {
    /// The scheduler state.
    pub closed spec fn state_view(&self) -> SensorState {
        self.state
    }

    /// The latest readings.
    pub closed spec fn values_view(&self) -> SensorValues {
        self.values
    }

    /// Idle, with 25.0 °C and pH 7.00 until the first readings come in.
    pub fn new() -> (r: Self)
        ensures
            r.state_view() == SensorState::Idle,
            r.values_view() == (SensorValues { temperature: 250, ph: 700 }),
    {
        SensorManager { state: SensorState::Idle, values: SensorValues { temperature: 250, ph: 700 } }
    }

    /// The scheduler state.
    pub fn state(&self) -> (r: SensorState)
        ensures
            r == self.state_view(),
    {
        self.state
    }

    /// Starts the first conversion at time 0, so that a temperature is in
    /// before it is first shown.
    pub fn start_initial_temperature_reading(&mut self) -> (r: SensorAction)
        ensures
            r == SensorAction::StartTemperatureConversion,
            final(self).state_view() == SensorState::TemperatureConverting(0),
            final(self).values_view() == old(self).values_view(),
    {
        self.state = SensorState::TemperatureConverting(0);
        SensorAction::StartTemperatureConversion
    }

    /// One tick at `current_time` (ms); returns the work to perform.
    pub fn update(&mut self, current_time: u64, is_showing_temperature: bool) -> (r: SensorAction)
        ensures
            (final(self).state_view(), r) == step(old(self).state_view(), current_time, is_showing_temperature),
            final(self).values_view() == old(self).values_view(),
    {
        match self.state {
            SensorState::Idle => {
                if is_showing_temperature {
                    self.state = SensorState::PHReading;
                    SensorAction::Wait
                } else {
                    self.state = SensorState::TemperatureConverting(current_time);
                    SensorAction::StartTemperatureConversion
                }
            },
            SensorState::TemperatureConverting(start_time) => {
                if current_time >= start_time && current_time - start_time >= TEMP_CONVERSION_TIME_MS as u64 {
                    self.state = SensorState::TemperatureReady;
                }
                SensorAction::Wait
            },
            SensorState::TemperatureReady => {
                self.state = SensorState::Idle;
                SensorAction::ReadTemperature
            },
            SensorState::PHReading => {
                self.state = SensorState::PHReady;
                SensorAction::ReadPh
            },
            SensorState::PHReady => {
                self.state = SensorState::Idle;
                SensorAction::Wait
            },
        }
    }

    /// Records the outcome of a read transaction: a reading in tenths of a
    /// degree replaces the temperature; a failed read keeps the last one.
    pub fn record_temperature(&mut self, reading: Option<i16>)
        ensures
            final(self).state_view() == old(self).state_view(),
            final(self).values_view().ph == old(self).values_view().ph,
            final(self).values_view().temperature == match reading {
                Some(t) => t,
                None => old(self).values_view().temperature,
            },
    {
        if let Some(t) = reading {
            self.values.temperature = t;
        }
    }

    /// Records a raw sample of the pH probe's ADC channel.
    pub fn record_ph(&mut self, adc_raw: u16)
        ensures
            final(self).state_view() == old(self).state_view(),
            final(self).values_view().temperature == old(self).values_view().temperature,
            final(self).values_view().ph == ph_of_adc(adc_raw as int),
    {
        self.values.ph = adc_to_ph(adc_raw);
    }
}

/// The temperature cycle: from `Idle` with pH on the display, a tick at
/// `start` starts a conversion and records `start`; a tick earlier than
/// 750 ms after `start` keeps waiting, and one at or after that moves to
/// `TemperatureReady`; the next tick, whatever is shown, asks for the read
/// and goes back to `Idle`. (No tick changes the readings: see
/// [`SensorManager::update`].)
pub proof fn lemma_temperature_cycle(start: u64, later: u64, next: u64, shown: bool)
    ensures
        step(SensorState::Idle, start, false) == (
            SensorState::TemperatureConverting(start),
            SensorAction::StartTemperatureConversion,
        ),
        later < start + TEMP_CONVERSION_TIME_MS ==> step(SensorState::TemperatureConverting(start), later, shown)
            == (SensorState::TemperatureConverting(start), SensorAction::Wait),
        later >= start + TEMP_CONVERSION_TIME_MS ==> step(SensorState::TemperatureConverting(start), later, shown)
            == (SensorState::TemperatureReady, SensorAction::Wait),
        step(SensorState::TemperatureReady, next, shown) == (SensorState::Idle, SensorAction::ReadTemperature),
{
}

} // verus!
