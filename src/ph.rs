//! Conversion of the pH probe's analog reading into a pH value.
use vstd::prelude::*;

verus! {

/// ADC reading at which the probe reads the lowest pH.
pub const PH_MIN_ADC: u16 = 1020;

/// ADC reading at which the probe reads the highest pH.
pub const PH_MAX_ADC: u16 = 650;

/// Lowest pH reported, in hundredths (pH 2.00).
pub const PH_MIN: u16 = 200;

/// Highest pH reported, in hundredths (pH 14.00).
pub const PH_MAX: u16 = 1400;

/// pH in hundredths for a raw ADC reading: a falling line from
/// (650, 14.00) to (1020, 2.00), rounded down, held at the ends.
pub open spec fn ph_of_adc(raw: int) -> int {
    if raw >= PH_MIN_ADC {
        PH_MIN as int
    } else if raw <= PH_MAX_ADC {
        PH_MAX as int
    } else {
        PH_MIN + ((PH_MIN_ADC - raw) * (PH_MAX - PH_MIN)) / ((PH_MIN_ADC - PH_MAX_ADC) as int)
    }
}

/// Converts a raw ADC reading into pH hundredths.
pub fn adc_to_ph(ph_raw: u16) -> (r: u16)
    ensures
        r == ph_of_adc(ph_raw as int),
        PH_MIN <= r <= PH_MAX,
{
    if ph_raw >= PH_MIN_ADC {
        PH_MIN
    } else if ph_raw <= PH_MAX_ADC {
        PH_MAX
    } else {
        let adc_range: u32 = (PH_MIN_ADC - PH_MAX_ADC) as u32;
        let ph_range: u32 = (PH_MAX - PH_MIN) as u32;
        let adc_position: u32 = (PH_MIN_ADC - ph_raw) as u32;
        assert(adc_position * ph_range <= 370 * 1200) by (nonlinear_arith)
            requires
                adc_position <= 370,
                ph_range == 1200,
        ;
        let step: u32 = (adc_position * ph_range) / adc_range;
        PH_MIN + step as u16
    }
}

} // verus!
