//! Word-level arithmetic of the identifier layout: field masks, shifts that
//! are defined for every shift amount, and the bit length of a value.
use vstd::prelude::*;

verus! {

/// The largest value a field of `bits` bits can hold, `2^bits - 1`. From 64
/// bits on the field covers the whole word.
pub open spec fn field_max(bits: u64) -> u64 {
    if bits >= 64 {
        u64::MAX
    } else {
        ((1u64 << bits) - 1) as u64
    }
}

/// `x * 2^by` in 64-bit unsigned arithmetic: bits pushed past the top of the
/// word are lost, and nothing is left from 64 positions on.
pub open spec fn shl(x: u64, by: u64) -> u64 {
    if by >= 64 {
        0
    } else {
        x << by
    }
}

/// The sum of two widths, held at 64: a shift by 64 or more clears the word
/// whatever the exact amount.
pub open spec fn shift_sum(a: u64, b: u64) -> u64 {
    if a + b >= 64 {
        64
    } else {
        (a + b) as u64
    }
}

/// The number of bits needed to write `n` in binary: 0 for 0, and otherwise
/// the position of the highest set bit, counted from 1.
pub open spec fn bit_length(n: nat) -> nat
    decreases n,
{
    if n == 0 {
        0
    } else {
        1 + bit_length(n / 2)
    }
}

/// The mask of a field of `bits` bits, which is also the largest value the
/// field can hold.
pub fn max_for_bits(bits: u64) -> (r: u64)
    ensures
        r == field_max(bits),
{
    if bits >= 64 {
        u64::MAX
    } else {
        assert((1u64 << bits) >= 1) by (bit_vector)
            requires
                bits < 64,
        ;
        let one: u64 = 1;
        (one << bits) - 1
    }
}

/// Shifts `x` left by any amount: past the word nothing is left.
pub fn shift_left(x: u64, by: u64) -> (r: u64)
    ensures
        r == shl(x, by),
{
    if by >= 64 {
        0
    } else {
        x << by
    }
}

/// Adds a width to a shift, stopping at 64.
pub fn add_widths(a: u64, b: u64) -> (r: u64)
    ensures
        r == shift_sum(a, b),
        r <= 64,
{
    if a >= 64 || b >= 64 || a + b >= 64 {
        64
    } else {
        a + b
    }
}

/// The count of leading zero bits and the bit length of a word add up to 64.
pub proof fn lemma_leading_zeros_bit_length(n: u64)
    ensures
        64 - vstd::std_specs::bits::u64_leading_zeros(n) == bit_length(n as nat),
    decreases n,
{
    reveal(vstd::std_specs::bits::u64_leading_zeros);
    if n != 0 {
        lemma_leading_zeros_bit_length(n / 2);
    }
}

/// `bit_length(n)` bits are enough for `n`, and one bit fewer is not.
pub proof fn lemma_bit_length_is_least(n: nat)
    ensures
        n < vstd::arithmetic::power2::pow2(bit_length(n)),
        bit_length(n) > 0 ==> vstd::arithmetic::power2::pow2((bit_length(n) - 1) as nat) <= n,
    decreases n,
{
    vstd::arithmetic::power2::lemma2_to64();
    if n != 0 {
        lemma_bit_length_is_least(n / 2);
        vstd::arithmetic::power2::lemma_pow2_unfold(bit_length(n));
        if bit_length(n / 2) > 0 {
            vstd::arithmetic::power2::lemma_pow2_unfold(bit_length(n / 2));
        }
    }
}

/// The least number of bits that can hold `n`: 64 less its leading zeros.
pub fn bits_needed(n: u64) -> (r: u32)
    ensures
        r == bit_length(n as nat),
        r <= 64,
{
    proof {
        lemma_leading_zeros_bit_length(n);
        vstd::std_specs::bits::axiom_u64_leading_zeros(n);
    }
    64 - n.leading_zeros()
}

/// A value shifted left by `s` has its low `s` bits clear, and shifting back
/// recovers it when none of its bits were pushed out.
pub proof fn lemma_shl_low_clear(x: u64, s: u64)
    by (bit_vector)
    requires
        s <= 63,
    ensures
        (x << s) & field_max(s) == 0,
        x <= (u64::MAX >> s) ==> (x << s) >> s == x,
{
}

/// Or-ing a value under `2^s` into a word whose low `s` bits are clear adds
/// it: the low bits are the value, the rest is the word.
pub proof fn lemma_or_low(x: u64, y: u64, s: u64)
    by (bit_vector)
    requires
        s <= 63,
        y <= field_max(s),
        x & field_max(s) == 0,
    ensures
        (x | y) & field_max(s) == y,
        (x | y) >> s == x >> s,
        (x | y) == x + y,
{
}

/// A word whose low `t` bits are clear has its low `s` bits clear for every
/// `s <= t`, and after a shift right by `s` its low `t - s` bits.
pub proof fn lemma_clear_below(x: u64, s: u64, t: u64)
    by (bit_vector)
    requires
        s <= t,
        t <= 63,
        x & field_max(t) == 0,
    ensures
        x & field_max(s) == 0,
        (x >> s) & field_max((t - s) as u64) == 0,
{
}

/// Masking and shifting right distribute over or.
pub proof fn lemma_or_distributes(x: u64, y: u64, m: u64, s: u64)
    by (bit_vector)
    requires
        s <= 63,
    ensures
        (x | y) & m == (x & m) | (y & m),
        (x | y) >> s == (x >> s) | (y >> s),
        0u64 | 0u64 == 0u64,
{
}

/// A value of `t - s` bits, shifted left by `s`, stays under `2^t`, and no
/// bit of it is pushed out of the word.
pub proof fn lemma_field_fits(v: u64, s: u64, t: u64)
    by (bit_vector)
    requires
        s <= t,
        t <= 63,
        v <= field_max((t - s) as u64),
    ensures
        (v << s) <= field_max(t),
        v <= (u64::MAX >> s),
{
}

/// The or of two values under `2^t` is under `2^t`.
pub proof fn lemma_or_bound(a: u64, b: u64, s: u64, t: u64)
    by (bit_vector)
    requires
        s <= t,
        t <= 63,
        a <= field_max(t),
        b <= field_max(s),
    ensures
        (a | b) <= field_max(t),
{
}

/// Shifting left keeps the order of values that fit above the shift.
pub proof fn lemma_shl_monotone(a: u64, b: u64, s: u64)
    by (bit_vector)
    requires
        s <= 63,
        a < b,
        b <= (u64::MAX >> s),
    ensures
        (a << s) < (b << s),
{
}

/// Between two words whose low `s` bits are clear no value under `2^s` can
/// bridge the gap.
pub proof fn lemma_or_below_next(x1: u64, x2: u64, y: u64, s: u64)
    by (bit_vector)
    requires
        s <= 63,
        x1 < x2,
        x1 & field_max(s) == 0,
        x2 & field_max(s) == 0,
        y <= field_max(s),
    ensures
        (x1 | y) < x2,
{
}

/// Or is associative.
pub proof fn lemma_or_regroup(a: u64, b: u64, c: u64, d: u64)
    by (bit_vector)
    ensures
        ((a | b) | c) | d == (a | b) | (c | d),
        ((a | b) | c) | d == a | ((b | c) | d),
{
}

/// Adding one under a mask of `s` bits: one more, and 0 after the largest
/// value of the field. Nothing under the mask exceeds it.
pub proof fn lemma_mask_increment(x: u64, s: u64)
    by (bit_vector)
    requires
        s <= 63,
    ensures
        x < field_max(s) ==> ((x + 1) as u64) & field_max(s) == x + 1,
        x == field_max(s) ==> ((x + 1) as u64) & field_max(s) == 0,
        x < u64::MAX ==> ((x + 1) as u64) & field_max(s) <= field_max(s),
{
}

/// Below 64 bits the largest value of a field is `2^bits - 1`.
pub proof fn lemma_field_max_is_pow2_minus_one(bits: u64)
    requires
        bits < 64,
    ensures
        field_max(bits) == vstd::arithmetic::power2::pow2(bits as nat) - 1,
{
    vstd::bits::lemma_u64_pow2_no_overflow(bits as nat);
    vstd::bits::lemma_u64_shl_is_mul(1, bits);
}

/// A shift that pushes no bit out of the word multiplies by a power of two.
pub proof fn lemma_shl_is_times_pow2(x: u64, by: u64)
    requires
        by < 64,
        x <= (u64::MAX >> by),
    ensures
        shl(x, by) == x * vstd::arithmetic::power2::pow2(by as nat),
{
    vstd::bits::lemma_u64_mul_pow2_le_max_iff_max_shr(x, by, u64::MAX);
    vstd::bits::lemma_u64_shl_is_mul(x, by);
}

/// A field as wide as the bit length of a value admits it, and no narrower
/// field does.
pub proof fn lemma_bit_length_is_least_width(n: u64)
    ensures
        bit_length(n as nat) <= 64,
        n <= field_max(bit_length(n as nat) as u64),
        forall|bits: u64| bits < bit_length(n as nat) ==> n > #[trigger] field_max(bits),
{
    let width = bit_length(n as nat);
    lemma_leading_zeros_bit_length(n);
    vstd::std_specs::bits::axiom_u64_leading_zeros(n);
    lemma_bit_length_is_least(n as nat);
    if width < 64 {
        lemma_field_max_is_pow2_minus_one(width as u64);
    }
    assert forall|bits: u64| bits < width implies n > #[trigger] field_max(bits) by {
        lemma_field_max_is_pow2_minus_one(bits);
        if bits < width - 1 {
            vstd::arithmetic::power2::lemma_pow2_strictly_increases(
                bits as nat,
                (width - 1) as nat,
            );
        }
    }
}

} // verus!
