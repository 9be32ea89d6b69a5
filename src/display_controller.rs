//! Alternates the display between temperature and pH on a fixed dwell
//! time, and tells the sensor scheduler which one is on screen.
use vstd::prelude::*;
use crate::display::{formatted_digits, formatted_points, digit_pattern, DisplayMultiplexer, Frame};
use crate::sensor_manager::SensorValues;

verus! {

/// The quantity on the display.
#[derive(Clone, Copy, Debug, PartialEq, Eq, Structural)]
pub enum DisplayMode {
    PH,
    Temperature,
}

/// The other mode.
pub open spec fn toggled(mode: DisplayMode) -> DisplayMode {
    match mode {
        DisplayMode::Temperature => DisplayMode::PH,
        DisplayMode::PH => DisplayMode::Temperature,
    }
}

/// Whether a check at `now` switches, the last switch having been at
/// `last` and each mode being held `dwell` ms.
pub open spec fn switch_due(last: int, dwell: int, now: int) -> bool {
    now >= last + dwell
}

/// A mode check at `now`: the mode, the time of the last switch, and
/// whether it switched.
pub open spec fn check_step(mode: DisplayMode, last: int, dwell: int, now: int) -> (DisplayMode, int, bool) {
    if switch_due(last, dwell, now) {
        (toggled(mode), now, true)
    } else {
        (mode, last, false)
    }
}

/// The value shown for a mode, in ten-thousandths.
pub open spec fn shown_value(mode: DisplayMode, values: SensorValues) -> int {
    match mode {
        DisplayMode::Temperature => values.temperature as int * 1000,
        DisplayMode::PH => values.ph as int * 100,
    }
}

/// Display mode and its dwell timer.
pub struct DisplayController {
    pub mode: DisplayMode,
    mode_switch_time: u64,
    display_time_per_reading_ms: u64,
}

impl DisplayController {
    /// The quantity on the display.
    pub closed spec fn mode_view(&self) -> DisplayMode {
        self.mode
    }

    /// Time (ms) of the last switch.
    pub closed spec fn last_switch(&self) -> int {
        self.mode_switch_time as int
    }

    /// How long (ms) each mode is held.
    pub closed spec fn dwell(&self) -> int {
        self.display_time_per_reading_ms as int
    }

    /// Starts on temperature, as if switched at time 0.
    pub fn new(display_time_per_reading_ms: u64) -> (r: Self)
        ensures
            r.mode_view() == DisplayMode::Temperature,
            r.last_switch() == 0,
            r.dwell() == display_time_per_reading_ms,
    {
        DisplayController { mode: DisplayMode::Temperature, mode_switch_time: 0, display_time_per_reading_ms }
    }

    /// Readies the display buffer (8888, cursor on the first digit) with
    /// refresh by hand.
    pub fn initialize(&self, display: &mut DisplayMultiplexer)
        ensures
            final(display).wf(),
            final(display).digits_view() == seq![8u8, 8, 8, 8],
            final(display).points_view() == seq![false, false, false, false],
            final(display).cursor_view() == 0,
            !final(display).auto_view(),
    {
        display.initialize();
        display.set_auto_update(false);
    }

    /// Puts the value of the current mode in the display buffer, then
    /// refreshes by hand (see [`DisplayMultiplexer::update`]).
    pub fn update_display(&self, sensor_values: &SensorValues, display: &mut DisplayMultiplexer) -> (r: Option<Frame>)
        requires
            old(display).wf(),
        ensures
            final(display).wf(),
            final(display).digits_view() == formatted_digits(shown_value(self.mode_view(), *sensor_values)),
            final(display).points_view() == formatted_points(shown_value(self.mode_view(), *sensor_values)),
            final(display).auto_view() == old(display).auto_view(),
            old(display).auto_view() ==> r.is_none() && final(display).cursor_view() == old(display).cursor_view(),
            !old(display).auto_view() ==> r == Some(
                Frame {
                    pattern: digit_pattern(
                        final(display).digits_view()[old(display).cursor_view()],
                        final(display).points_view()[old(display).cursor_view()],
                    ),
                    position: old(display).cursor_view() as u8,
                },
            ) && final(display).cursor_view() == (old(display).cursor_view() + 1) % 4,
    {
        match self.mode {
            DisplayMode::Temperature => {
                display.display(sensor_values.temperature as i64 * 1000);
            },
            DisplayMode::PH => {
                display.display(sensor_values.ph as i64 * 100);
            },
        }
        display.update()
    }

    /// Switches mode once the dwell time has passed since the last switch;
    /// returns whether it switched.
    pub fn check_mode_switch(&mut self, current_time: u64) -> (r: bool)
        ensures
            (final(self).mode_view(), final(self).last_switch(), r) == check_step(
                old(self).mode_view(),
                old(self).last_switch(),
                old(self).dwell(),
                current_time as int,
            ),
            final(self).dwell() == old(self).dwell(),
    {
        let mut switched = false;
        if current_time >= self.mode_switch_time && current_time - self.mode_switch_time
            >= self.display_time_per_reading_ms {
            self.mode = match self.mode {
                DisplayMode::Temperature => DisplayMode::PH,
                DisplayMode::PH => DisplayMode::Temperature,
            };
            self.mode_switch_time = current_time;
            switched = true;
        }
        switched
    }

    /// Whether temperature is on the display.
    pub fn is_showing_temperature(&self) -> (r: bool)
        ensures
            r == (self.mode_view() == DisplayMode::Temperature),
    {
        self.mode == DisplayMode::Temperature
    }
}

/// A check switches exactly when it comes at or after the end of the dwell
/// time; and of two checks less than a dwell time apart, at most one
/// switches, so the mode flips once per crossing of the boundary.
pub proof fn lemma_one_switch_per_dwell(mode: DisplayMode, last: u64, dwell: u64, first: u64, second: u64)
    requires
        first <= second,
        second < first + dwell,
    ensures
        check_step(mode, last as int, dwell as int, first as int).2 <==> first >= last + dwell,
        ({
            let (m1, l1, s1) = check_step(mode, last as int, dwell as int, first as int);
            let (m2, l2, s2) = check_step(m1, l1, dwell as int, second as int);
            !(s1 && s2) && (s1 ==> m2 == toggled(mode))
        }),
{
}

} // verus!
