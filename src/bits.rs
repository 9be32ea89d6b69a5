//! Bit sequences of bytes, as put on or read off a serial line.
use vstd::prelude::*;

verus! {

/// The low `n` bits of `v`, least significant first.
pub open spec fn low_bits(v: nat, n: nat) -> Seq<bool>
    decreases n,
{
    if n == 0 {
        Seq::empty()
    } else {
        seq![v % 2 == 1] + low_bits(v / 2, (n - 1) as nat)
    }
}

/// The number whose binary digits, least significant first, are `s`.
pub open spec fn bits_value(s: Seq<bool>) -> nat
    decreases s.len(),
{
    if s.len() == 0 {
        0
    } else {
        (if s[0] { 1nat } else { 0nat }) + 2 * bits_value(s.drop_first())
    }
}

/// The eight bits of `b`, least significant first.
pub open spec fn lsb_first(b: u8) -> Seq<bool> {
    low_bits(b as nat, 8)
}

/// The eight bits of `b`, most significant first.
pub open spec fn msb_first(b: u8) -> Seq<bool> {
    lsb_first(b).reverse()
}

/// `2` to the power `n`.
pub open spec fn two_pow(n: nat) -> nat
    decreases n,
{
    if n == 0 {
        1
    } else {
        2 * two_pow((n - 1) as nat)
    }
}

/// `low_bits(v, n)` has `n` bits.
pub proof fn lemma_low_bits_len(v: nat, n: nat)
    ensures
        low_bits(v, n).len() == n,
    decreases n,
{
    if n > 0 {
        lemma_low_bits_len(v / 2, (n - 1) as nat);
    }
}

/// `n` bits hold a number below `2^n`.
pub proof fn lemma_bits_value_bound(s: Seq<bool>)
    ensures
        bits_value(s) < two_pow(s.len()),
    decreases s.len(),
{
    if s.len() > 0 {
        lemma_bits_value_bound(s.drop_first());
    }
}

/// Reading back the low `n` bits of a number below `2^n` gives the number.
pub proof fn lemma_bits_value_low_bits(v: nat, n: nat)
    requires
        v < two_pow(n),
    ensures
        bits_value(low_bits(v, n)) == v,
    decreases n,
{
    if n > 0 {
        lemma_bits_value_low_bits(v / 2, (n - 1) as nat);
        lemma_low_bits_len(v / 2, (n - 1) as nat);
        let s = low_bits(v, n);
        assert(s.drop_first() =~= low_bits(v / 2, (n - 1) as nat));
    }
}

/// Splits `b` into its eight bits, least significant first.
pub fn byte_bits_lsb_first(b: u8) -> (r: Vec<bool>)
    ensures
        r@ == lsb_first(b),
{
    let mut r: Vec<bool> = Vec::new();
    let mut rest: u8 = b;
    let mut i: usize = 0;
    while i < 8
        invariant
            i <= 8,
            low_bits(b as nat, 8) == r@ + low_bits(rest as nat, (8 - i) as nat),
        decreases 8 - i,
    {
        let ghost before = r@;
        assert(low_bits(rest as nat, (8 - i) as nat) == seq![rest as nat % 2 == 1] + low_bits(
            (rest / 2) as nat,
            (8 - i - 1) as nat,
        ));
        r.push(rest % 2 == 1);
        assert(before + (seq![rest as nat % 2 == 1] + low_bits((rest / 2) as nat, (8 - i - 1) as nat))
            =~= r@ + low_bits((rest / 2) as nat, (8 - i - 1) as nat));
        rest = rest / 2;
        i = i + 1;
    }
    assert(low_bits(rest as nat, 0) =~= Seq::<bool>::empty());
    assert(r@ + Seq::<bool>::empty() =~= r@);
    r
}

/// Assembles eight bits, least significant first, into a byte.
pub fn byte_from_bits(bits: &[bool]) -> (r: u8)
    requires
        bits@.len() == 8,
    ensures
        r as nat == bits_value(bits@),
{
    let mut acc: u16 = 0;
    let mut i: usize = 8;
    proof {
        assert(bits@.subrange(8, 8) =~= Seq::<bool>::empty());
    }
    while i > 0
        invariant
            i <= 8,
            bits@.len() == 8,
            acc as nat == bits_value(bits@.subrange(i as int, 8)),
            acc < two_pow((8 - i) as nat),
        decreases i,
    {
        i = i - 1;
        let ghost s = bits@.subrange(i as int, 8);
        assert(s.drop_first() =~= bits@.subrange(i + 1, 8));
        proof {
            reveal_with_fuel(two_pow, 9);
            assert(two_pow((8 - i - 1) as nat) <= 128);
        }
        acc = acc * 2 + if bits[i] { 1 } else { 0 };
        proof {
            lemma_bits_value_bound(s);
        }
    }
    assert(bits@.subrange(0, 8) =~= bits@);
    proof {
        lemma_bits_value_bound(bits@);
        reveal_with_fuel(two_pow, 9);
        assert(two_pow(8) == 256);
    }
    acc as u8
}

} // verus!
