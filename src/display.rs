//! Four-digit seven-segment display, multiplexed one digit at a time
//! through a serial-to-parallel shift register.
//!
//! A [`DisplayMultiplexer`] owns the digit buffer, the decimal points, the
//! refresh cursor and the auto-refresh flag. The control loop writes the
//! digits ([`DisplayMultiplexer::display`]); the periodic timer interrupt
//! only moves the cursor ([`DisplayMultiplexer::on_timer_overflow`]). No
//! lock is taken: one refresh may show a digit set that is half updated,
//! which is harmless since the digits change far more slowly than they are
//! refreshed. Each refresh yields a [`Frame`] that the caller puts on the
//! pins: all digits off, the pattern shifted out ([`shift_out`]), then the
//! one digit selected ([`digit_select_levels`]).
use vstd::prelude::*;
use crate::bits::{byte_bits_lsb_first, lemma_low_bits_len, msb_first};

verus! {

/// Number of digits on the display.
pub const DIGIT_COUNT: u8 = 4;

/// Digit code of the letter E.
pub const LETTER_E: u8 = 14;

/// Digit code of a blank digit.
pub const BLANK: u8 = 16;

/// Pattern with every segment and the decimal point lit.
pub const PATTERN_ALL_ON: u8 = 0xFF;

/// Bit of a pattern that lights the decimal point.
pub const DECIMAL_POINT: u8 = 0x80;

/// Largest value shown, in ten-thousandths (9999.9999).
pub const MAX_TEN_THOUSANDTHS: i64 = 99_999_999;

/// Segments a-g (bits 0-6) lit for a digit code: 0-9, A, b, C, d, E, F,
/// and blank for 16.
pub open spec fn segments(digit: u8) -> u8 {
    if digit == 0 {
        0x3f
    } else if digit == 1 {
        0x06
    } else if digit == 2 {
        0x5b
    } else if digit == 3 {
        0x4f
    } else if digit == 4 {
        0x66
    } else if digit == 5 {
        0x6d
    } else if digit == 6 {
        0x7d
    } else if digit == 7 {
        0x07
    } else if digit == 8 {
        0x7f
    } else if digit == 9 {
        0x6f
    } else if digit == 10 {
        0x77
    } else if digit == 11 {
        0x7c
    } else if digit == 12 {
        0x39
    } else if digit == 13 {
        0x5e
    } else if digit == 14 {
        0x79
    } else if digit == 15 {
        0x71
    } else {
        0x00
    }
}

/// The byte shifted out for a digit: its segments, and bit 7 for the
/// decimal point.
pub open spec fn digit_pattern(digit: u8, point: bool) -> u8 {
    if point {
        (segments(digit) + DECIMAL_POINT) as u8
    } else {
        segments(digit)
    }
}

/// Whether a value given in ten-thousandths cannot be shown.
pub open spec fn out_of_range(m: int) -> bool {
    m < 0 || m > MAX_TEN_THOUSANDTHS
}

/// The digit that carries the decimal point for a value of `m`
/// ten-thousandths; 4 when none does.
pub open spec fn point_index(m: int) -> int {
    if m < 100_000 {
        0
    } else if m < 1_000_000 {
        1
    } else if m < 10_000_000 {
        2
    } else {
        4
    }
}

/// The value of `m` ten-thousandths rounded half up to the decimals that
/// fit on four digits (three below 10, two below 100, one below 1000,
/// none above), counted in units of its last decimal.
pub open spec fn shown_count(m: int) -> int {
    if m < 100_000 {
        (m + 5) / 10
    } else if m < 1_000_000 {
        (m + 50) / 100
    } else if m < 10_000_000 {
        (m + 500) / 1000
    } else {
        (m + 5000) / 10000
    }
}

/// The digit codes shown for `m` ten-thousandths: the last four decimal
/// digits of the rounded count, or E, r, r, blank when out of range (the
/// display has no r, so both show blank).
pub open spec fn formatted_digits(m: int) -> Seq<u8> {
    if out_of_range(m) {
        seq![LETTER_E, BLANK, BLANK, BLANK]
    } else {
        let n = shown_count(m);
        seq![((n / 1000) % 10) as u8, ((n / 100) % 10) as u8, ((n / 10) % 10) as u8, (n % 10) as u8]
    }
}

/// The decimal points shown for `m` ten-thousandths.
pub open spec fn formatted_points(m: int) -> Seq<bool> {
    if out_of_range(m) {
        seq![false, false, false, false]
    } else {
        Seq::new(4, |i: int| i == point_index(m))
    }
}

/// The segments of a digit code.
fn digit_segments(digit: u8) -> (r: u8)
    ensures
        r == segments(digit),
{
    match digit {
        0 => 0x3f,
        1 => 0x06,
        2 => 0x5b,
        3 => 0x4f,
        4 => 0x66,
        5 => 0x6d,
        6 => 0x7d,
        7 => 0x07,
        8 => 0x7f,
        9 => 0x6f,
        10 => 0x77,
        11 => 0x7c,
        12 => 0x39,
        13 => 0x5e,
        14 => 0x79,
        15 => 0x71,
        _ => 0x00,
    }
}

/// The pattern for a digit code with or without its decimal point; none
/// for a code above 16.
pub fn display_digit(digit: u8, show_dp: bool) -> (r: Option<u8>)
    ensures
        r == if digit <= BLANK { Some(digit_pattern(digit, show_dp)) } else { None::<u8> },
{
    if digit > BLANK {
        return None;
    }
    let mut pattern = digit_segments(digit);
    if show_dp {
        assert(pattern < 0x80 ==> pattern | 0x80 == pattern + 0x80) by (bit_vector);
        pattern = pattern | DECIMAL_POINT;
    }
    Some(pattern)
}

/// The levels put on the data pin for `data`, most significant bit first,
/// one clock pulse each, before the latch strobe.
pub fn shift_out(data: u8) -> (r: Vec<bool>)
    ensures
        r@ == msb_first(data),
{
    let lsb = byte_bits_lsb_first(data);
    proof {
        lemma_low_bits_len(data as nat, 8);
    }
    let mut r: Vec<bool> = Vec::new();
    let mut i: usize = 0;
    while i < 8
        invariant
            i <= 8,
            lsb@.len() == 8,
            lsb@.reverse() == msb_first(data),
            r@ =~= Seq::new(i as nat, |k: int| lsb@[7 - k]),
        decreases 8 - i,
    {
        r.push(lsb[7 - i]);
        i = i + 1;
    }
    assert(r@ =~= lsb@.reverse());
    r
}

/// Levels of the four digit-select lines that light only `position` (a
/// low line selects its digit); all lines high for a position past the
/// last digit.
pub fn digit_select_levels(position: u8) -> (r: Vec<bool>)
    ensures
        r@.len() == 4,
        forall|i: int| 0 <= i < 4 ==> r@[i] == (i != position as int),
{
    let mut r: Vec<bool> = Vec::new();
    let mut i: u8 = 0;
    while i < DIGIT_COUNT
        invariant
            i <= 4,
            r@.len() == i,
            forall|k: int| 0 <= k < i ==> r@[k] == (k != position as int),
        decreases 4 - i,
    {
        r.push(i != position);
        i = i + 1;
    }
    r
}

/// What one refresh puts on the display.
#[derive(Clone, Copy, Debug, PartialEq, Eq, Structural)]
pub struct Frame {
    /// Segment byte to shift out.
    pub pattern: u8,
    /// Digit to select once the pattern is latched.
    pub position: u8,
}

/// The power-on lamp test: every segment of each digit in turn.
pub fn self_test_frames() -> (r: Vec<Frame>)
    ensures
        r@.len() == 4,
        forall|i: int| 0 <= i < 4 ==> r@[i] == (Frame { pattern: PATTERN_ALL_ON, position: i as u8 }),
{
    let mut r: Vec<Frame> = Vec::new();
    let mut i: u8 = 0;
    while i < DIGIT_COUNT
        invariant
            i <= 4,
            r@.len() == i,
            forall|k: int| 0 <= k < i ==> r@[k] == (Frame { pattern: PATTERN_ALL_ON, position: k as u8 }),
        decreases 4 - i,
    {
        r.push(Frame { pattern: PATTERN_ALL_ON, position: i });
        i = i + 1;
    }
    r
}

/// The display's buffer and refresh state.
pub struct DisplayMultiplexer {
    digits: Vec<u8>,
    points: Vec<bool>,
    cursor: u8,
    auto_update: bool,
}

impl DisplayMultiplexer {
    /// Four digit codes of at most 16, four decimal points, and a cursor on
    /// one of the four digits.
    pub closed spec fn wf(&self) -> bool {
        &&& self.digits@.len() == 4
        &&& self.points@.len() == 4
        &&& self.cursor < 4
        &&& forall|i: int| 0 <= i < 4 ==> self.digits@[i] <= BLANK
    }

    /// The digit codes in the buffer, leftmost first.
    pub closed spec fn digits_view(&self) -> Seq<u8> {
        self.digits@
    }

    /// The decimal points in the buffer, leftmost first.
    pub closed spec fn points_view(&self) -> Seq<bool> {
        self.points@
    }

    /// The digit that the next refresh shows.
    pub closed spec fn cursor_view(&self) -> int {
        self.cursor as int
    }

    /// Whether the timer interrupt refreshes the display.
    pub closed spec fn auto_view(&self) -> bool {
        self.auto_update
    }

    /// A blank buffer of zeros, cursor on the first digit, refreshed by
    /// hand.
    pub fn new() -> (r: Self)
        ensures
            r.wf(),
            r.digits_view() == seq![0u8, 0, 0, 0],
            r.points_view() == seq![false, false, false, false],
            r.cursor_view() == 0,
            !r.auto_view(),
    {
        let r = DisplayMultiplexer {
            digits: vec![0u8, 0, 0, 0],
            points: vec![false, false, false, false],
            cursor: 0,
            auto_update: false,
        };
        assert(r.digits@ =~= seq![0u8, 0, 0, 0]);
        assert(r.points@ =~= seq![false, false, false, false]);
        r
    }

    /// Puts 8888 in the buffer, clears the decimal points, moves the cursor
    /// to the first digit and turns automatic refresh off.
    pub fn initialize(&mut self)
        ensures
            final(self).wf(),
            final(self).digits_view() == seq![8u8, 8, 8, 8],
            final(self).points_view() == seq![false, false, false, false],
            final(self).cursor_view() == 0,
            !final(self).auto_view(),
    {
        self.digits = vec![8u8, 8, 8, 8];
        self.points = vec![false, false, false, false];
        self.cursor = 0;
        self.auto_update = false;
        assert(self.digits@ =~= seq![8u8, 8, 8, 8]);
        assert(self.points@ =~= seq![false, false, false, false]);
    }

    /// Chooses whether the timer interrupt refreshes the display
    /// ([`Self::on_timer_overflow`]) or the caller does ([`Self::update`]).
    pub fn set_auto_update(&mut self, enabled: bool)
        requires
            old(self).wf(),
        ensures
            final(self).wf(),
            final(self).auto_view() == enabled,
            final(self).digits_view() == old(self).digits_view(),
            final(self).points_view() == old(self).points_view(),
            final(self).cursor_view() == old(self).cursor_view(),
    {
        self.auto_update = enabled;
    }

    /// Whether the timer interrupt refreshes the display.
    pub fn is_auto_update(&self) -> (r: bool)
        ensures
            r == self.auto_view(),
    {
        self.auto_update
    }

    /// The digit code at `position`.
    pub fn digit(&self, position: usize) -> (r: u8)
        requires
            self.wf(),
            position < 4,
        ensures
            r == self.digits_view()[position as int],
    {
        self.digits[position]
    }

    /// Whether the decimal point at `position` is lit.
    pub fn decimal_point(&self, position: usize) -> (r: bool)
        requires
            self.wf(),
            position < 4,
        ensures
            r == self.points_view()[position as int],
    {
        self.points[position]
    }

    /// The digit that the next refresh shows.
    pub fn current_position(&self) -> (r: u8)
        ensures
            r as int == self.cursor_view(),
    {
        self.cursor
    }

    /// One multiplexing step: the frame for the digit under the cursor,
    /// and the cursor moved on to the next digit, wrapping after the last.
    pub fn refresh_tick(&mut self) -> (r: Frame)
        requires
            old(self).wf(),
        ensures
            final(self).wf(),
            r.position as int == old(self).cursor_view(),
            r.pattern == digit_pattern(
                old(self).digits_view()[old(self).cursor_view()],
                old(self).points_view()[old(self).cursor_view()],
            ),
            final(self).cursor_view() == (old(self).cursor_view() + 1) % 4,
            final(self).digits_view() == old(self).digits_view(),
            final(self).points_view() == old(self).points_view(),
            final(self).auto_view() == old(self).auto_view(),
    {
        let position = self.cursor;
        let shown = display_digit(self.digits[position as usize], self.points[position as usize]);
        let pattern = match shown {
            Some(p) => p,
            None => 0,
        };
        self.cursor = (self.cursor + 1) % DIGIT_COUNT;
        Frame { pattern, position }
    }

    /// Refreshes by hand: one step when automatic refresh is off, nothing
    /// when the interrupt does it.
    pub fn update(&mut self) -> (r: Option<Frame>)
        requires
            old(self).wf(),
        ensures
            final(self).wf(),
            final(self).digits_view() == old(self).digits_view(),
            final(self).points_view() == old(self).points_view(),
            final(self).auto_view() == old(self).auto_view(),
            old(self).auto_view() ==> r.is_none() && final(self).cursor_view() == old(self).cursor_view(),
            !old(self).auto_view() ==> r == Some(
                Frame {
                    pattern: digit_pattern(
                        old(self).digits_view()[old(self).cursor_view()],
                        old(self).points_view()[old(self).cursor_view()],
                    ),
                    position: old(self).cursor_view() as u8,
                },
            ) && final(self).cursor_view() == (old(self).cursor_view() + 1) % 4,
    {
        if !self.auto_update {
            Some(self.refresh_tick())
        } else {
            None
        }
    }

    /// The timer interrupt: one step when automatic refresh is on,
    /// nothing otherwise.
    pub fn on_timer_overflow(&mut self) -> (r: Option<Frame>)
        requires
            old(self).wf(),
        ensures
            final(self).wf(),
            final(self).digits_view() == old(self).digits_view(),
            final(self).points_view() == old(self).points_view(),
            final(self).auto_view() == old(self).auto_view(),
            !old(self).auto_view() ==> r.is_none() && final(self).cursor_view() == old(self).cursor_view(),
            old(self).auto_view() ==> r == Some(
                Frame {
                    pattern: digit_pattern(
                        old(self).digits_view()[old(self).cursor_view()],
                        old(self).points_view()[old(self).cursor_view()],
                    ),
                    position: old(self).cursor_view() as u8,
                },
            ) && final(self).cursor_view() == (old(self).cursor_view() + 1) % 4,
    {
        if self.auto_update {
            Some(self.refresh_tick())
        } else {
            None
        }
    }

    /// Sets the code and decimal point of one digit; ignored for a
    /// position past the last digit or a code above 16.
    pub fn set_digit(&mut self, position: u8, value: u8, decimal_point: bool)
        requires
            old(self).wf(),
        ensures
            final(self).wf(),
            final(self).cursor_view() == old(self).cursor_view(),
            final(self).auto_view() == old(self).auto_view(),
            position < 4 && value <= BLANK ==> final(self).digits_view() == old(self).digits_view().update(
                position as int,
                value,
            ) && final(self).points_view() == old(self).points_view().update(
                position as int,
                decimal_point,
            ),
            !(position < 4 && value <= BLANK) ==> final(self).digits_view() == old(self).digits_view()
                && final(self).points_view() == old(self).points_view(),
    {
        if position < DIGIT_COUNT && value <= BLANK {
            self.digits.set(position as usize, value);
            self.points.set(position as usize, decimal_point);
        }
    }

    /// Shows a value given in ten-thousandths (12.345 is 123450): below 10
    /// as d.ddd, below 100 as dd.dd, below 1000 as ddd.d, up to 9999.9999 as
    /// dddd, each rounded half up first; a negative or larger value shows
    /// the error glyphs.
    pub fn display(&mut self, ten_thousandths: i64)
        requires
            old(self).wf(),
        ensures
            final(self).wf(),
            final(self).digits_view() == formatted_digits(ten_thousandths as int),
            final(self).points_view() == formatted_points(ten_thousandths as int),
            final(self).cursor_view() == old(self).cursor_view(),
            final(self).auto_view() == old(self).auto_view(),
    {
        let m = ten_thousandths;
        if m < 0 || m > MAX_TEN_THOUSANDTHS {
            self.set_digit(0, LETTER_E, false);
            self.set_digit(1, BLANK, false);
            self.set_digit(2, BLANK, false);
            self.set_digit(3, BLANK, false);
            assert(self.digits_view() =~= formatted_digits(m as int));
            assert(self.points_view() =~= formatted_points(m as int));
            return;
        }
        let (n, point): (i64, u8) = if m < 100_000 {
            ((m + 5) / 10, 0)
        } else if m < 1_000_000 {
            ((m + 50) / 100, 1)
        } else if m < 10_000_000 {
            ((m + 500) / 1000, 2)
        } else {
            ((m + 5000) / 10000, 4)
        };
        assert(n as int == shown_count(m as int));
        assert(point as int == point_index(m as int));
        self.set_digit(0, ((n / 1000) % 10) as u8, point == 0);
        self.set_digit(1, ((n / 100) % 10) as u8, point == 1);
        self.set_digit(2, ((n / 10) % 10) as u8, point == 2);
        self.set_digit(3, (n % 10) as u8, false);
        assert(self.digits_view() =~= formatted_digits(m as int));
        assert(self.points_view() =~= formatted_points(m as int));
    }
}

} // verus!
