//! Serial output for diagnostics. Text is built into a transmit queue;
//! the caller drains the queue ([`Uart::take_pending`]) into the data
//! register, one byte each time [`ready_to_send`] holds.
use vstd::prelude::*;
use vstd::string::StringSliceAdditionalSpecFns;
use crate::registers::RegisterWrite;

verus! {

/// Line speed, bits per second.
pub const BAUD_RATE: u32 = 9600;

/// CPU clock, Hz.
pub const CPU_FREQUENCY: u32 = 16_000_000;

/// Baud-rate register value: `CPU_FREQUENCY / (16 * BAUD_RATE) - 1`.
pub const UBRR_VALUE: u16 = 103;

/// USART control and status register A.
pub struct UCSR0A;

impl UCSR0A {
    pub const ADDRESS: u16 = 0xC0;
}

/// USART control and status register B.
pub struct UCSR0B;

impl UCSR0B {
    pub const ADDRESS: u16 = 0xC1;
}

/// USART control and status register C.
pub struct UCSR0C;

impl UCSR0C {
    pub const ADDRESS: u16 = 0xC2;
}

/// USART baud-rate register, low byte.
pub struct UBRR0L;

impl UBRR0L {
    pub const ADDRESS: u16 = 0xC4;
}

/// USART baud-rate register, high byte.
pub struct UBRR0H;

impl UBRR0H {
    pub const ADDRESS: u16 = 0xC5;
}

/// USART data register.
pub struct UDR0;

impl UDR0 {
    pub const ADDRESS: u16 = 0xC6;
}

/// UCSR0A: receive complete.
pub const RXC0: u8 = 1 << 7;

/// UCSR0A: transmit complete.
pub const TXC0: u8 = 1 << 6;

/// UCSR0A: data register empty.
pub const UDRE0: u8 = 1 << 5;

/// UCSR0B: receiver enable.
pub const RXEN0: u8 = 1 << 4;

/// UCSR0B: transmitter enable.
pub const TXEN0: u8 = 1 << 3;

/// UCSR0C: character size, bit 1.
pub const UCSZ01: u8 = 1 << 2;

/// UCSR0C: character size, bit 0.
pub const UCSZ00: u8 = 1 << 1;

/// `10` to the power `n`.
pub open spec fn pow10(n: nat) -> nat
    decreases n,
{
    if n == 0 {
        1
    } else {
        10 * pow10((n - 1) as nat)
    }
}

proof fn lemma_pow10_small(n: nat)
    requires
        n <= 4,
    ensures
        1 <= pow10(n) <= 10000,
        n < 4 ==> pow10(n) <= 1000,
{
    reveal_with_fuel(pow10, 5);
    assert(n == 0 || n == 1 || n == 2 || n == 3 || n == 4);
}

/// The ASCII character of a digit: 0-9 (48 is '0'), then A, B, ... (65
/// is 'A').
pub open spec fn digit_char(d: int) -> u8 {
    if d < 10 {
        (48 + d) as u8
    } else {
        (55 + d) as u8
    }
}

/// The digits of `v` in `base`, most significant first, without leading
/// zeros (empty for 0).
pub open spec fn digits_text(v: nat, base: nat) -> Seq<u8>
    decreases v,
{
    if v == 0 || base < 2 {
        Seq::empty()
    } else {
        proof {
            assert(v / base < v) by (nonlinear_arith)
                requires
                    v > 0,
                    base >= 2,
            ;
        }
        digits_text(v / base, base).push(digit_char((v % base) as int))
    }
}

/// `v` written in `base`; "0" for zero.
pub open spec fn integer_text(v: nat, base: nat) -> Seq<u8> {
    if v == 0 {
        seq![48u8]
    } else {
        digits_text(v, base)
    }
}

/// The last `places` decimal digits of `f`, zero-padded.
pub open spec fn fraction_text(f: nat, places: nat) -> Seq<u8> {
    Seq::new(places, |i: int| digit_char(((f / pow10((places - 1 - i) as nat)) % 10) as int))
}

/// `value` hundredths (for two places) and so on, as text: the whole part,
/// a point, and exactly `places` decimals.
pub open spec fn decimal_text(value: nat, places: nat) -> Seq<u8> {
    integer_text(value / pow10(places), 10) + seq![46u8] + fraction_text(value % pow10(places), places)
}

/// Register writes that set the USART up: 9600 baud, transmitter on,
/// 8 data bits, no parity, 1 stop bit.
pub fn initialize() -> (r: Vec<RegisterWrite>)
    ensures
        r@ == seq![
            RegisterWrite { address: UBRR0H::ADDRESS, value: 0 },
            RegisterWrite { address: UBRR0L::ADDRESS, value: 103 },
            RegisterWrite { address: UCSR0B::ADDRESS, value: 0x08 },
            RegisterWrite { address: UCSR0C::ADDRESS, value: 0x06 },
        ],
{
    assert(UBRR_VALUE as int == CPU_FREQUENCY as int / (16 * BAUD_RATE as int) - 1) by (nonlinear_arith);
    let ubrr = UBRR_VALUE;
    let mut r: Vec<RegisterWrite> = Vec::new();
    r.push(RegisterWrite { address: UBRR0H::ADDRESS, value: (ubrr / 256) as u8 });
    r.push(RegisterWrite { address: UBRR0L::ADDRESS, value: (ubrr % 256) as u8 });
    let control = TXEN0;
    assert(control == 0x08) by (bit_vector)
        requires
            control == 1u8 << 3u8,
    ;
    r.push(RegisterWrite { address: UCSR0B::ADDRESS, value: control });
    let frame = UCSZ01 | UCSZ00;
    assert(frame == 0x06) by (bit_vector)
        requires
            frame == (1u8 << 2u8) | (1u8 << 1u8),
    ;
    r.push(RegisterWrite { address: UCSR0C::ADDRESS, value: frame });
    assert(r@ =~= seq![
        RegisterWrite { address: UBRR0H::ADDRESS, value: 0 },
        RegisterWrite { address: UBRR0L::ADDRESS, value: 103 },
        RegisterWrite { address: UCSR0B::ADDRESS, value: 0x08 },
        RegisterWrite { address: UCSR0C::ADDRESS, value: 0x06 },
    ]);
    r
}

/// Whether the data register can take a byte, given UCSR0A.
pub fn ready_to_send(ucsr0a: u8) -> (r: bool)
    ensures
        r == (ucsr0a & UDRE0 != 0),
{
    ucsr0a & UDRE0 != 0
}

/// The transmit queue.
pub struct Uart {
    pending: Vec<u8>,
}

impl Uart {
    /// Bytes queued and not yet handed out, oldest first.
    pub closed spec fn pending_view(&self) -> Seq<u8> {
        self.pending@
    }

    /// An empty queue.
    pub fn new() -> (r: Self)
        ensures
            r.pending_view() == Seq::<u8>::empty(),
    {
        Uart { pending: Vec::new() }
    }

    /// Queues one byte.
    pub fn send_byte(&mut self, data: u8)
        ensures
            final(self).pending_view() == old(self).pending_view().push(data),
    {
        self.pending.push(data);
    }

    /// Queues the UTF-8 bytes of `s`.
    pub fn send_string(&mut self, s: &str)
        ensures
            final(self).pending_view() == old(self).pending_view() + s.spec_bytes(),
    {
        let bytes = s.as_bytes();
        let mut i: usize = 0;
        while i < bytes.len()
            invariant
                i <= bytes@.len(),
                bytes@ == s.spec_bytes(),
                self.pending@ == old(self).pending_view() + bytes@.take(i as int),
            decreases bytes@.len() - i,
        {
            self.pending.push(bytes[i]);
            i = i + 1;
            assert(self.pending@ =~= old(self).pending_view() + bytes@.take(i as int));
        }
        assert(bytes@.take(bytes@.len() as int) =~= bytes@);
    }

    /// Queues `value` written in `base` (2 to 36; digits past 9 are
    /// capital letters).
    pub fn send_integer(&mut self, value: u16, base: u16)
        requires
            2 <= base <= 36,
        ensures
            final(self).pending_view() == old(self).pending_view() + integer_text(value as nat, base as nat),
    {
        if value == 0 {
            self.send_byte(48u8);
            assert(integer_text(0, base as nat) =~= seq![48u8]);
            return;
        }
        let mut reversed: Vec<u8> = Vec::new();
        let mut rest: u16 = value;
        assert(reversed@.reverse() =~= Seq::<u8>::empty());
        assert(digits_text(value as nat, base as nat) =~= digits_text(value as nat, base as nat)
            + Seq::<u8>::empty());
        while rest > 0
            invariant
                2 <= base <= 36,
                digits_text(value as nat, base as nat) == digits_text(rest as nat, base as nat)
                    + reversed@.reverse(),
            decreases rest,
        {
            let digit: u8 = (rest % base) as u8;
            let c: u8 = if digit < 10 { 48u8 + digit } else { 65u8 + (digit - 10) };
            assert(c == digit_char((rest as nat % base as nat) as int));
            let ghost before = reversed@;
            reversed.push(c);
            assert(reversed@.reverse() =~= seq![c] + before.reverse());
            assert(digits_text(rest as nat, base as nat) == digits_text(
                (rest / base) as nat,
                base as nat,
            ).push(c));
            assert(digits_text((rest / base) as nat, base as nat).push(c) + before.reverse()
                =~= digits_text((rest / base) as nat, base as nat) + reversed@.reverse());
            rest = rest / base;
        }
        assert(digits_text(0, base as nat) + reversed@.reverse() =~= reversed@.reverse());
        let mut j: usize = reversed.len();
        while j > 0
            invariant
                j <= reversed@.len(),
                self.pending@ == old(self).pending_view() + reversed@.reverse().take(
                    (reversed@.len() - j) as int,
                ),
            decreases j,
        {
            j = j - 1;
            self.pending.push(reversed[j]);
            assert(self.pending@ =~= old(self).pending_view() + reversed@.reverse().take(
                (reversed@.len() - j) as int,
            ));
        }
        assert(reversed@.reverse().take(reversed@.len() as int) =~= reversed@.reverse());
    }

    /// Queues `value` with a decimal point placed `decimal_places` digits
    /// from the right, the fraction zero-padded (1234 with two places is
    /// "12.34", 5 is "0.05").
    pub fn send_decimal(&mut self, value: u16, decimal_places: u8)
        requires
            decimal_places <= 4,
        ensures
            final(self).pending_view() == old(self).pending_view() + decimal_text(
                value as nat,
                decimal_places as nat,
            ),
    {
        let mut divisor: u16 = 1;
        let mut k: u8 = 0;
        while k < decimal_places
            invariant
                k <= decimal_places <= 4,
                divisor as nat == pow10(k as nat),
            decreases decimal_places - k,
        {
            proof {
                lemma_pow10_small(k as nat);
            }
            divisor = divisor * 10;
            k = k + 1;
        }
        proof {
            lemma_pow10_small(k as nat);
        }
        let whole = value / divisor;
        let fraction = value % divisor;
        self.send_integer(whole, 10);
        self.send_byte(46u8);
        let ghost head = self.pending@;
        let ghost places = decimal_places as nat;
        let ghost digits = fraction_text(fraction as nat, places);
        proof {
            if places > 0 {
                assert(pow10(places) == 10 * pow10((places - 1) as nat));
            }
        }
        let mut fraction_divisor: u16 = divisor / 10;
        let mut done: u8 = 0;
        assert(self.pending@ =~= head + digits.take(0));
        while fraction_divisor > 0
            invariant
                done <= decimal_places <= 4,
                places == decimal_places as nat,
                digits == fraction_text(fraction as nat, places),
                done < decimal_places ==> fraction_divisor as nat == pow10((places - done - 1) as nat),
                done == decimal_places ==> fraction_divisor == 0,
                self.pending@ == head + digits.take(done as int),
            decreases fraction_divisor,
        {
            let digit = (fraction / fraction_divisor) % 10;
            let ghost next = (places - done - 1) as nat;
            assert(digits[done as int] == 48 + digit);
            self.pending.push(48u8 + digit as u8);
            proof {
                if next > 0 {
                    assert(pow10(next) == 10 * pow10((next - 1) as nat));
                }
            }
            fraction_divisor = fraction_divisor / 10;
            done = done + 1;
            assert(self.pending@ =~= head + digits.take(done as int));
            proof {
                if done < decimal_places {
                    lemma_pow10_small((places - done - 1) as nat);
                }
            }
        }
        proof {
            if done < decimal_places {
                lemma_pow10_small((places - done - 1) as nat);
            }
        }
        assert(digits.take(places as int) =~= digits);
        assert(self.pending@ =~= old(self).pending_view() + decimal_text(value as nat, places));
    }

    /// Hands out the queued bytes, oldest first, and empties the queue.
    pub fn take_pending(&mut self) -> (r: Vec<u8>)
        ensures
            r@ == old(self).pending_view(),
            final(self).pending_view() == Seq::<u8>::empty(),
    {
        let mut out: Vec<u8> = Vec::new();
        std::mem::swap(&mut out, &mut self.pending);
        out
    }
}

} // verus!
