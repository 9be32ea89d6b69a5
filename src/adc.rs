//! The analog-to-digital converter: register values for its set-up, for
//! channel selection and for starting a conversion, and the assembly of its
//! 10-bit result. The caller accesses the registers.
use vstd::prelude::*;
use crate::registers::RegisterWrite;

verus! {

/// ADC control and status register A.
pub struct ADCSRA;

impl ADCSRA {
    pub const ADDRESS: u16 = 0x7A;
}

/// ADC multiplexer selection register.
pub struct ADMUX;

impl ADMUX {
    pub const ADDRESS: u16 = 0x7C;
}

/// ADC data register, high byte.
pub struct ADCH;

impl ADCH {
    pub const ADDRESS: u16 = 0x79;
}

/// ADC data register, low byte.
pub struct ADCL;

impl ADCL {
    pub const ADDRESS: u16 = 0x78;
}

/// ADCSRA: ADC enable.
pub const ADEN: u8 = 1 << 7;

/// ADCSRA: start conversion; reads 1 while a conversion runs.
pub const ADSC: u8 = 1 << 6;

/// ADCSRA: interrupt flag.
pub const ADIF: u8 = 1 << 4;

/// ADCSRA: interrupt enable.
pub const ADIE: u8 = 1 << 3;

/// ADCSRA: prescaler select, bit 2.
pub const ADPS2: u8 = 1 << 2;

/// ADCSRA: prescaler select, bit 1.
pub const ADPS1: u8 = 1 << 1;

/// ADCSRA: prescaler select, bit 0.
pub const ADPS0: u8 = 1 << 0;

/// ADMUX: reference selection, bit 1.
pub const REFS1: u8 = 1 << 7;

/// ADMUX: reference selection, bit 0 (AVCC reference when alone).
pub const REFS0: u8 = 1 << 6;

/// ADMUX: left-adjust the result.
pub const ADLAR: u8 = 1 << 5;

/// ADMUX: channel selection, bit 3.
pub const MUX3: u8 = 1 << 3;

/// ADMUX: channel selection, bit 2.
pub const MUX2: u8 = 1 << 2;

/// ADMUX: channel selection, bit 1.
pub const MUX1: u8 = 1 << 1;

/// ADMUX: channel selection, bit 0.
pub const MUX0: u8 = 1 << 0;

/// Channel of the pH probe.
pub const ADC0: u8 = 0;

/// Channel of the analog temperature input.
pub const ADC1: u8 = 1;

/// Register writes that set the ADC up: AVCC reference, converter on,
/// clock divided by 128 (125 kHz from 16 MHz).
pub fn initialize() -> (r: Vec<RegisterWrite>)
    ensures
        r@ == seq![
            RegisterWrite { address: ADMUX::ADDRESS, value: 0x40 },
            RegisterWrite { address: ADCSRA::ADDRESS, value: 0x87 },
        ],
{
    let mut r: Vec<RegisterWrite> = Vec::new();
    let reference = REFS0;
    assert(reference == 0x40) by (bit_vector)
        requires
            reference == 1u8 << 6u8,
    ;
    r.push(RegisterWrite { address: ADMUX::ADDRESS, value: reference });
    let control = ADEN | ADPS2 | ADPS1 | ADPS0;
    assert(control == 0x87) by (bit_vector)
        requires
            control == (1u8 << 7u8) | (1u8 << 2u8) | (1u8 << 1u8) | (1u8 << 0u8),
    ;
    r.push(RegisterWrite { address: ADCSRA::ADDRESS, value: control });
    assert(r@ =~= seq![
        RegisterWrite { address: ADMUX::ADDRESS, value: 0x40 },
        RegisterWrite { address: ADCSRA::ADDRESS, value: 0x87 },
    ]);
    r
}

/// The ADMUX value that selects `channel` (its low three bits), keeping
/// the reference and adjustment bits of `admux`.
pub fn select_channel(admux: u8, channel: u8) -> (r: u8)
    ensures
        r == (admux & 0xF0) | (channel & 0x07),
        r as int == admux as int - admux as int % 16 + channel as int % 8,
{
    let r = (admux & 0xF0) | (channel & 0x07);
    assert(r == admux - admux % 16 + channel % 8) by (bit_vector)
        requires
            r == (admux & 0xF0) | (channel & 0x07),
    ;
    r
}

/// The ADCSRA value that starts a conversion.
pub fn start_conversion(adcsra: u8) -> (r: u8)
    ensures
        r == adcsra | ADSC,
{
    adcsra | ADSC
}

/// Whether a conversion is still running, given ADCSRA.
pub fn conversion_running(adcsra: u8) -> (r: bool)
    ensures
        r == (adcsra & ADSC != 0),
{
    adcsra & ADSC != 0
}

/// The conversion result from its data registers (low byte read first).
pub fn conversion_result(low: u8, high: u8) -> (r: u16)
    ensures
        r == high as int * 256 + low as int,
{
    high as u16 * 256 + low as u16
}

} // verus!
