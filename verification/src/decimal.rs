//! Fixed-point numbers with nine decimal places, without and with a sign.

use vstd::prelude::*;
use vstd::string::StringExecFns;
use crate::text::{
    all_digits, chars_of, lemma_numeral, lemma_padded_numeral, number_text, numeral,
    numeral_value, padded_numeral, padded_text, parse_numeral, ten_to,
};

verus! {

/// Billionths in one whole unit.
pub const UNIT: u128 = 1_000_000_000;

/// A non-negative decimal number, held as a count of billionths.
///
/// The view of a `Decimal` is that count: `d@ == 1_500_000_000` stands for
/// the number 1.5.
#[derive(Clone, Copy, Debug, PartialEq, Eq, Structural, PartialOrd, Ord, Hash)]
pub struct Decimal {
    /// The number, multiplied by `UNIT`.
    pub nanos: u128,
}

impl View for Decimal {
    type V = nat;

    open spec fn view(&self) -> nat {
        self.nanos as nat
    }
}

/// A decimal number that may lie below zero, held as a count of billionths.
///
/// The view of a `SignedDecimal` is that count: `d@ == -1_500_000_000`
/// stands for the number -1.5.
#[derive(Clone, Copy, Debug, PartialEq, Eq, Structural, PartialOrd, Ord, Hash)]
pub struct SignedDecimal {
    /// The number, multiplied by `UNIT`.
    pub nanos: i128,
}

impl View for SignedDecimal {
    type V = int;

    open spec fn view(&self) -> int {
        self.nanos as int
    }
}

/// Two to the power `n`.
pub open spec fn two_to(n: nat) -> nat
    decreases n,
{
    if n == 0 {
        1
    } else {
        2 * two_to((n - 1) as nat)
    }
}

/// The sign bit of a 64-bit binary floating-point pattern.
pub open spec fn float_negative(bits: u64) -> bool {
    bits >= 0x8000_0000_0000_0000
}

/// The biased exponent field of a 64-bit binary floating-point pattern.
pub open spec fn float_exponent(bits: u64) -> nat {
    ((bits as nat) / 0x10_0000_0000_0000) % 2048
}

/// The fraction field of a 64-bit binary floating-point pattern.
pub open spec fn float_fraction(bits: u64) -> nat {
    (bits as nat) % 0x10_0000_0000_0000
}

/// The integer significand of a finite pattern: the fraction, with the
/// implicit leading one unless the number is subnormal.
pub open spec fn float_significand(bits: u64) -> nat {
    if float_exponent(bits) == 0 {
        float_fraction(bits)
    } else {
        float_fraction(bits) + 0x10_0000_0000_0000
    }
}

/// The magnitude of a finite pattern, in billionths, rounded to the nearest
/// billionth, halves up. The magnitude itself is
/// `float_significand * 2^(e - 1075)`, where `e` is the exponent field, or 1
/// for a subnormal number. Where `e` is below 1075, the quotient by
/// `2^(1075 - e)` is rounded by halving once less, adding one, and halving.
pub open spec fn float_magnitude_nanos(bits: u64) -> nat {
    let e = if float_exponent(bits) == 0 { 1 } else { float_exponent(bits) };
    let scaled = float_significand(bits) * (UNIT as nat);
    if e >= 1075 {
        scaled * two_to((e - 1075) as nat)
    } else {
        (scaled / two_to((1074 - e) as nat) + 1) / 2
    }
}

/// What a 64-bit binary floating-point pattern stands for as a `Decimal`
/// count of billionths: nothing for an infinity, a NaN or a number below
/// zero; otherwise the number rounded to the nearest billionth, and held at
/// `u128::MAX` when it is larger than that.
pub open spec fn float_nanos(bits: u64) -> Option<nat> {
    if float_exponent(bits) == 2047 {
        None
    } else if float_negative(bits) && float_significand(bits) != 0 {
        None
    } else if float_magnitude_nanos(bits) > u128::MAX {
        Some(u128::MAX as nat)
    } else {
        Some(float_magnitude_nanos(bits))
    }
}

/// What a 64-bit binary floating-point pattern stands for as a
/// `SignedDecimal` count of billionths: nothing for an infinity or a NaN;
/// otherwise the number rounded to the nearest billionth, halves away from
/// zero, and held at `i128::MAX` or `i128::MIN` when it is beyond them.
pub open spec fn float_signed_nanos(bits: u64) -> Option<int> {
    if float_exponent(bits) == 2047 {
        None
    } else if float_negative(bits) {
        if float_magnitude_nanos(bits) > -i128::MIN {
            Some(i128::MIN as int)
        } else {
            Some(-(float_magnitude_nanos(bits) as int))
        }
    } else {
        if float_magnitude_nanos(bits) > i128::MAX {
            Some(i128::MAX as int)
        } else {
            Some(float_magnitude_nanos(bits) as int)
        }
    }
}

/// `num / den` in billionths, rounded down; zero when `den` is zero.
pub open spec fn ratio_nanos(num: nat, den: nat) -> nat {
    if den == 0 {
        0
    } else {
        num * (UNIT as nat) / den
    }
}

/// The magnitude of the number that a finite pattern holds, in billionths
/// and held at `u128::MAX`, and whether the significand is other than zero.
/// `None` for an infinity or a NaN.
fn float_magnitude(bits: u64) -> (r: Option<(u128, bool)>)
    ensures
        r is Some <==> float_exponent(bits) != 2047,
        r is Some ==> r.unwrap().1 == (float_significand(bits) != 0),
        r is Some ==> r.unwrap().0 == if float_magnitude_nanos(bits) > u128::MAX {
            u128::MAX as nat
        } else {
            float_magnitude_nanos(bits)
        },
{
    let exponent: u64 = (bits / 0x10_0000_0000_0000) % 2048;
    let fraction: u64 = bits % 0x10_0000_0000_0000;
    if exponent == 2047 {
        return None;
    }
    let significand: u64 = if exponent == 0 {
        fraction
    } else {
        fraction + 0x10_0000_0000_0000
    };
    let nonzero: bool = significand != 0;
    let e: u64 = if exponent == 0 { 1 } else { exponent };
    let scaled: u128 = (significand as u128) * UNIT;
    if e >= 1075 {
        let steps: u64 = e - 1075;
        let mut cur: u128 = scaled;
        let mut i: u64 = 0;
        proof {
            assert(scaled * two_to(0) == scaled) by (nonlinear_arith)
                requires
                    two_to(0) == 1,
            ;
        }
        while i < steps
            invariant
                i <= steps,
                scaled * two_to(i as nat) > u128::MAX ==> cur == u128::MAX,
                scaled * two_to(i as nat) <= u128::MAX ==> cur == scaled * two_to(i as nat),
            decreases steps - i,
        {
            proof {
                assert(scaled * two_to((i + 1) as nat) == 2 * (scaled * two_to(i as nat)))
                    by (nonlinear_arith)
                    requires
                        two_to((i + 1) as nat) == 2 * two_to(i as nat),
                ;
            }
            cur = if cur > u128::MAX / 2 { u128::MAX } else { cur * 2 };
            i = i + 1;
        }
        Some((cur, nonzero))
    } else {
        let steps: u64 = 1074 - e;
        let mut cur: u128 = scaled;
        let mut i: u64 = 0;
        proof {
            assert(two_to(0) == 1);
        }
        while i < steps
            invariant
                i <= steps,
                cur == scaled as nat / two_to(i as nat),
                two_to(i as nat) > 0,
            decreases steps - i,
        {
            proof {
                vstd::arithmetic::div_mod::lemma_div_denominator(
                    scaled as int,
                    two_to(i as nat) as int,
                    2,
                );
                assert(two_to((i + 1) as nat) == two_to(i as nat) * 2);
            }
            cur = cur / 2;
            i = i + 1;
        }
        Some(((cur + 1) / 2, nonzero))
    }
}

impl Decimal {
    /// The number zero.
    pub fn zero() -> (d: Decimal)
        ensures
            d@ == 0,
    {
        Decimal { nanos: 0 }
    }

    /// The number whose count of billionths is `nanos`.
    pub fn from_nanos(nanos: u128) -> (d: Decimal)
        ensures
            d@ == nanos,
    {
        Decimal { nanos }
    }

    /// The whole number `units`.
    pub fn from_units(units: u64) -> (d: Decimal)
        ensures
            d@ == units * UNIT,
    {
        let wide: u128 = units as u128;
        Decimal { nanos: wide * UNIT }
    }

    /// The non-negative finite number that the 64-bit binary floating-point
    /// pattern `bits` holds, rounded to the nearest billionth and held at the
    /// largest `Decimal` when it is beyond it. Infinities, NaNs and numbers
    /// below zero give `None`; negative zero is zero.
    pub fn from_float_bits(bits: u64) -> (r: Option<Decimal>)
        ensures
            r is Some <==> float_nanos(bits) is Some,
            r is Some ==> r.unwrap()@ == float_nanos(bits).unwrap(),
    {
        let negative: bool = bits >= 0x8000_0000_0000_0000;
        match float_magnitude(bits) {
            None => None,
            Some(magnitude) => {
                if negative && magnitude.1 {
                    None
                } else {
                    Some(Decimal { nanos: magnitude.0 })
                }
            },
        }
    }

    /// The quotient `num / den`, rounded down to a billionth. A zero
    /// denominator gives zero.
    pub fn ratio(num: u64, den: u64) -> (d: Decimal)
        ensures
            d@ == ratio_nanos(num as nat, den as nat),
    {
        if den == 0 {
            Decimal { nanos: 0 }
        } else {
            let scaled: u128 = (num as u128) * UNIT;
            Decimal { nanos: scaled / (den as u128) }
        }
    }
}

impl SignedDecimal {
    /// The number zero.
    pub fn zero() -> (d: SignedDecimal)
        ensures
            d@ == 0,
    {
        SignedDecimal { nanos: 0 }
    }

    /// The number whose count of billionths is `nanos`.
    pub fn from_nanos(nanos: i128) -> (d: SignedDecimal)
        ensures
            d@ == nanos,
    {
        SignedDecimal { nanos }
    }

    /// The whole number `units`.
    pub fn from_units(units: i64) -> (d: SignedDecimal)
        ensures
            d@ == units * UNIT,
    {
        let wide: i128 = units as i128;
        SignedDecimal { nanos: wide * 1_000_000_000 }
    }

    /// The finite number that the 64-bit binary floating-point pattern
    /// `bits` holds, rounded to the nearest billionth and held at the largest
    /// or the smallest `SignedDecimal` when it is beyond them. Infinities and
    /// NaNs give `None`; negative zero is zero.
    pub fn from_float_bits(bits: u64) -> (r: Option<SignedDecimal>)
        ensures
            r is Some <==> float_signed_nanos(bits) is Some,
            r is Some ==> r.unwrap()@ == float_signed_nanos(bits).unwrap(),
    {
        let negative: bool = bits >= 0x8000_0000_0000_0000;
        match float_magnitude(bits) {
            None => None,
            Some(magnitude) => {
                let m: u128 = magnitude.0;
                if negative {
                    if m > 0x7fff_ffff_ffff_ffff_ffff_ffff_ffff_ffff {
                        Some(SignedDecimal { nanos: i128::MIN })
                    } else {
                        Some(SignedDecimal { nanos: -(m as i128) })
                    }
                } else {
                    if m > 0x7fff_ffff_ffff_ffff_ffff_ffff_ffff_ffff {
                        Some(SignedDecimal { nanos: i128::MAX })
                    } else {
                        Some(SignedDecimal { nanos: m as i128 })
                    }
                }
            },
        }
    }
}

/// The text of the decimal with the count `nanos` of billionths: the whole
/// part, a point, and the nine digits of the fraction.
pub open spec fn decimal_text(nanos: nat) -> Seq<char> {
    numeral(nanos / (UNIT as nat)) + "."@ + padded_numeral(nanos % (UNIT as nat), 9)
}

/// The count of billionths that the text `s` spells: digits, a point, and
/// nine digits. `None` for any other text.
pub open spec fn text_value(s: Seq<char>) -> Option<nat> {
    let split = s.len() - 10;
    if s.len() >= 11 && s[split] == '.' && all_digits(s.subrange(0, split)) && all_digits(
        s.subrange(split + 1, s.len() as int),
    ) {
        Some(
            numeral_value(s.subrange(0, split)) * (UNIT as nat) + numeral_value(
                s.subrange(split + 1, s.len() as int),
            ),
        )
    } else {
        None
    }
}

impl Decimal {
    /// The decimal as text: the whole part, a point, and the nine digits of
    /// the fraction.
    pub fn to_text(&self) -> (s: String)
        ensures
            s@ == decimal_text(self@),
    {
        number_text(self.nanos / UNIT).concat(".").concat(padded_text(self.nanos % UNIT, 9).as_str())
    }

    /// The decimal that a text spells: digits, a point, and nine digits.
    /// `None` for any other text, and for a number beyond the largest
    /// `Decimal`.
    pub fn from_text(text: &str) -> (r: Option<Decimal>)
        ensures
            r is Some <==> text_value(text@) is Some && text_value(text@).unwrap() <= u128::MAX,
            r is Some ==> r.unwrap()@ == text_value(text@).unwrap(),
    {
        let chars = chars_of(text);
        if chars.len() < 11 {
            return None;
        }
        let split: usize = chars.len() - 10;
        if chars[split] != '.' {
            return None;
        }
        let whole = match parse_numeral(&chars, 0, split) {
            Some(n) => n,
            None => {
                proof {
                    let w = numeral_value(chars@.subrange(0, split as int));
                    let f = numeral_value(chars@.subrange(split + 1, chars@.len() as int));
                    assert(all_digits(chars@.subrange(0, split as int)) ==> w * (UNIT as nat) + f
                        > u128::MAX) by (nonlinear_arith)
                        requires
                            all_digits(chars@.subrange(0, split as int)) ==> w > u128::MAX,
                            UNIT == 1_000_000_000,
                            f >= 0,
                    ;
                }
                return None;
            },
        };
        let fraction = match parse_numeral(&chars, split + 1, chars.len()) {
            Some(n) => n,
            None => {
                proof {
                    let part = chars@.subrange(split + 1, chars@.len() as int);
                    if all_digits(part) {
                        lemma_nine_digits_bound(part);
                    }
                }
                return None;
            },
        };
        proof {
            lemma_nine_digits_bound(chars@.subrange(split + 1, chars@.len() as int));
        }
        if whole > (u128::MAX - fraction) / UNIT {
            return None;
        }
        Some(Decimal { nanos: whole * UNIT + fraction })
    }
}

/// Nine digits spell a number below a billion.
proof fn lemma_nine_digits_bound(s: Seq<char>)
    requires
        s.len() == 9,
        all_digits(s),
    ensures
        numeral_value(s) < UNIT,
{
    lemma_digits_bound(s);
    reveal_with_fuel(ten_to, 10);
}

/// Digits spell a number below ten to the power of their count.
proof fn lemma_digits_bound(s: Seq<char>)
    requires
        all_digits(s),
    ensures
        numeral_value(s) < ten_to(s.len()),
    decreases s.len(),
{
    if s.len() > 0 {
        assert forall|i: int| 0 <= i < s.drop_last().len() implies crate::text::is_digit(
            #[trigger] s.drop_last()[i],
        ) by {
            assert(s.drop_last()[i] == s[i]);
        }
        lemma_digits_bound(s.drop_last());
        assert(crate::text::is_digit(s[s.len() - 1]));
    }
}

/// A decimal read back from its text is the same decimal: the text form
/// loses nothing.
pub proof fn lemma_text_round_trip(nanos: nat)
    ensures
        text_value(decimal_text(nanos)) == Some(nanos),
{
    let whole = nanos / (UNIT as nat);
    let fraction = nanos % (UNIT as nat);
    let a = numeral(whole);
    let b = padded_numeral(fraction, 9);
    let t = decimal_text(nanos);
    reveal_strlit(".");
    reveal_with_fuel(ten_to, 10);
    lemma_numeral(whole);
    lemma_padded_numeral(fraction, 9);
    assert(t.len() == a.len() + 10);
    assert(t[a.len() as int] == '.');
    assert(t.subrange(0, a.len() as int) =~= a);
    assert(t.subrange(a.len() as int + 1, t.len() as int) =~= b);
}

} // verus!
