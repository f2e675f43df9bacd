//! Decimal fixed-point numbers with nine decimal places.
//!
//! Every quantity of a move is such a number: a coordinate in the units of the stage plan,
//! an angle in degrees, a time in seconds. Arithmetic on them is exact integer arithmetic
//! on billionths, and where a result has to be rounded, the contract says how.
use vstd::prelude::*;
use vstd::arithmetic::div_mod::*;
use vstd::arithmetic::mul::*;
use vstd::string::StringExecFns;
use crate::decimal::{
    digits,
    is_plain,
    lemma_digits_len,
    lemma_digits_plain,
    lemma_padded_digits_plain,
    lemma_plain_add,
    number_text,
    padded_digits,
    padded_text,
};
use crate::percentage::Percentage;

verus! {

/// Number of raw steps in one whole unit.
pub const SCALE: i64 = 1_000_000_000;

/// Number of decimal places that a value carries.
pub const PLACES: u8 = 9;

/// A decimal fixed-point number: `raw` counts billionths of a unit.
#[derive(Clone, Copy, Debug, PartialEq, Eq, Structural)]
pub struct Fixed {
    pub raw: i64,
}

/// Ten to the power `e`.
pub open spec fn pow10(e: nat) -> nat
    decreases e,
{
    if e == 0 {
        1
    } else {
        10 * pow10((e - 1) as nat)
    }
}

/// `mag / unit`, rounded to the nearest whole number; a tie goes to the even neighbour.
pub open spec fn round_half_even(mag: nat, unit: nat) -> nat {
    let q = mag / unit;
    let r = mag % unit;
    if 2 * r > unit || (2 * r == unit && q % 2 == 1) {
        q + 1
    } else {
        q
    }
}

/// The text of `value` billionths with `places` decimal places (at most nine): a minus sign
/// where the value is below zero, the whole part, and, where `places` is not zero, a point
/// and exactly `places` digits. The value is rounded to the nearest such number, a tie
/// going to the even neighbour.
pub open spec fn fixed_text(value: int, places: nat) -> Seq<char> {
    let mag = (if value < 0 {
        -value
    } else {
        value
    }) as nat;
    let q = round_half_even(mag, pow10((9 - places) as nat));
    let sign = if value < 0 {
        seq!['-']
    } else {
        Seq::<char>::empty()
    };
    let whole = digits(q / pow10(places));
    if places == 0 {
        sign + whole
    } else {
        sign + whole + seq!['.'] + padded_digits(q % pow10(places), places)
    }
}

/// The text of a number is a plain text. Where it has decimal places, it ends with a point
/// and exactly that many digits.
pub proof fn lemma_fixed_text_plain(value: int, places: nat)
    ensures
        is_plain(fixed_text(value, places)),
        places > 0 ==> fixed_text(value, places).len() > places && fixed_text(value, places)[
            fixed_text(value, places).len() - places - 1] == '.',
{
    let mag = (if value < 0 {
        -value
    } else {
        value
    }) as nat;
    let q = round_half_even(mag, pow10((9 - places) as nat));
    let sign = if value < 0 {
        seq!['-']
    } else {
        Seq::<char>::empty()
    };
    let whole = digits(q / pow10(places));
    let frac = padded_digits(q % pow10(places), places);
    lemma_digits_plain(q / pow10(places));
    lemma_digits_len(q / pow10(places));
    lemma_padded_digits_plain(q % pow10(places), places);
    lemma_plain_add(sign, whole);
    if places > 0 {
        lemma_plain_add(sign + whole, seq!['.']);
        lemma_plain_add(sign + whole + seq!['.'], frac);
    }
}

/// The values of the powers of ten that the nine places need.
pub proof fn lemma_pow10_values()
    ensures
        pow10(0) == 1,
        pow10(1) == 10,
        pow10(2) == 100,
        pow10(3) == 1_000,
        pow10(4) == 10_000,
        pow10(5) == 100_000,
        pow10(6) == 1_000_000,
        pow10(7) == 10_000_000,
        pow10(8) == 100_000_000,
        pow10(9) == 1_000_000_000,
{
    reveal_with_fuel(pow10, 11);
}

/// Ten to the power `e`, for the powers that fit the nine places.
pub fn power_of_ten(e: u8) -> (p: u64)
    requires
        e <= PLACES,
    ensures
        p == pow10(e as nat),
        1 <= p <= 1_000_000_000,
{
    proof {
        lemma_pow10_values();
    }
    match e {
        0 => 1,
        1 => 10,
        2 => 100,
        3 => 1_000,
        4 => 10_000,
        5 => 100_000,
        6 => 1_000_000,
        7 => 10_000_000,
        8 => 100_000_000,
        _ => 1_000_000_000,
    }
}

/// The point that lies `num / den` of the way from `a` to `b`, rounded down to a whole step.
pub open spec fn lerp(a: int, b: int, num: int, den: int) -> int {
    a + ((b - a) * num) / den
}

/// `den` times the exact point that lies `num / den` of the way from `a` to `b`.
pub open spec fn weighted(a: int, b: int, num: int, den: int) -> int {
    (den - num) * a + num * b
}

/// Whether `value` is the fraction `scaled / scale` rounded down, give or take less than
/// `steps` whole steps: it is not above the fraction, and less than `steps` below it.
pub open spec fn rounds_down(scaled: int, scale: int, value: int, steps: int) -> bool {
    scale * value <= scaled < scale * (value + steps)
}

/// Interpolation gives the exact point, rounded down to a whole step.
pub proof fn lemma_lerp_rounds_down(a: int, b: int, num: int, den: int)
    requires
        0 < den,
    ensures
        rounds_down(weighted(a, b, num, den), den, lerp(a, b, num, den), 1),
{
    let q = ((b - a) * num) / den;
    lemma_fundamental_div_mod((b - a) * num, den);
    lemma_mod_bound((b - a) * num, den);
    assert(den * (a + q) == den * a + den * q) by (nonlinear_arith);
    assert((den - num) * a + num * b == den * a + (b - a) * num) by (nonlinear_arith);
    assert(den * (a + q + 1) == den * a + den * q + den) by (nonlinear_arith);
}

/// Interpolation starts at `a`.
pub proof fn lemma_lerp_start(a: int, b: int, den: int)
    requires
        0 < den,
    ensures
        lerp(a, b, 0, den) == a,
{
    lemma_div_basics(den);
}

/// Interpolation ends at `b`.
pub proof fn lemma_lerp_end(a: int, b: int, den: int)
    requires
        0 < den,
    ensures
        lerp(a, b, den, den) == b,
{
    lemma_div_multiples_vanish(b - a, den);
    lemma_mul_is_commutative(b - a, den);
}

/// Interpolation never leaves the interval between its two ends.
pub proof fn lemma_lerp_between(a: int, b: int, num: int, den: int)
    requires
        0 < den,
        0 <= num <= den,
    ensures
        a <= b ==> a <= lerp(a, b, num, den) <= b,
        b <= a ==> b <= lerp(a, b, num, den) <= a,
{
    let d = b - a;
    let q = (d * num) / den;
    lemma_fundamental_div_mod(d * num, den);
    lemma_mod_bound(d * num, den);
    if d >= 0 {
        assert(0 <= d * num <= d * den) by (nonlinear_arith)
            requires
                0 <= d,
                0 <= num <= den,
        ;
        assert(0 <= q <= d) by (nonlinear_arith)
            requires
                0 < den,
                0 <= d * num <= d * den,
                d * num == den * q + (d * num) % den,
                0 <= (d * num) % den < den,
        ;
    } else {
        assert(d * den <= d * num <= 0) by (nonlinear_arith)
            requires
                d < 0,
                0 <= num <= den,
        ;
        assert(d <= q <= 0) by (nonlinear_arith)
            requires
                0 < den,
                d * den <= d * num <= 0,
                d * num == den * q + (d * num) % den,
                0 <= (d * num) % den < den,
        ;
    }
}

/// `n / d`, rounded down, for numbers far from the limits of their type.
fn floor_div(n: i128, d: i128) -> (q: i128)
    requires
        0 < d <= 0x1_0000_0000,
        -0x1_0000_0000_0000_0000_0000_0000 <= n <= 0x1_0000_0000_0000_0000_0000_0000,
    ensures
        q == n / d,
{
    if n >= 0 {
        n / d
    } else {
        let up: i128 = -n + (d - 1);
        let ceil: i128 = up / d;
        proof {
            let floor = n as int / d as int;
            lemma_fundamental_div_mod(n as int, d as int);
            lemma_mod_bound(n as int, d as int);
            lemma_fundamental_div_mod(up as int, d as int);
            lemma_mod_bound(up as int, d as int);
            assert(-(ceil as int) == floor) by (nonlinear_arith)
                requires
                    0 < d as int,
                    n as int == (d as int) * floor + (n as int) % (d as int),
                    0 <= (n as int) % (d as int) < d as int,
                    up as int == -(n as int) + d as int - 1,
                    up as int == (d as int) * (ceil as int) + (up as int) % (d as int),
                    0 <= (up as int) % (d as int) < d as int,
            ;
        }
        -ceil
    }
}

impl Fixed {
    /// The number as a count of billionths.
    pub open spec fn value(self) -> int {
        self.raw as int
    }

    /// The number with the given count of billionths.
    pub fn from_raw(raw: i64) -> (f: Fixed)
        ensures
            f.raw == raw,
    {
        Fixed { raw }
    }

    /// The whole number `units`.
    pub fn from_int(units: i32) -> (f: Fixed)
        ensures
            f.value() == units * SCALE,
    {
        let wide: i64 = units as i64;
        Fixed { raw: wide * SCALE }
    }

    /// The number with the opposite sign. The lowest number of all has no opposite: it
    /// gives the highest.
    pub open spec fn negated(self) -> Fixed {
        if self.raw == i64::MIN {
            Fixed { raw: i64::MAX }
        } else {
            Fixed { raw: (-self.raw) as i64 }
        }
    }

    /// The number with the opposite sign.
    pub fn negate(self) -> (f: Fixed)
        ensures
            f == self.negated(),
    {
        if self.raw == i64::MIN {
            Fixed { raw: i64::MAX }
        } else {
            Fixed { raw: -self.raw }
        }
    }

    /// The size of the number without its sign.
    pub fn magnitude(self) -> (m: u64)
        ensures
            self.value() >= 0 ==> m == self.value(),
            self.value() < 0 ==> m == -self.value(),
    {
        if self.raw < 0 {
            (-(self.raw as i128)) as u64
        } else {
            self.raw as u64
        }
    }

    /// The number that is `parts` times smaller, rounded down to a whole step.
    pub open spec fn divided(self, parts: int) -> Fixed {
        Fixed { raw: (self.value() / parts) as i64 }
    }

    /// The number that is `parts` times smaller, rounded down to a whole step.
    pub fn divide(self, parts: u16) -> (f: Fixed)
        requires
            parts > 0,
        ensures
            f == self.divided(parts as int),
            f.value() == self.value() / (parts as int),
    {
        let quotient: i128 = floor_div(self.raw as i128, parts as i128);
        proof {
            lemma_fundamental_div_mod(self.value(), parts as int);
            lemma_mod_bound(self.value(), parts as int);
            assert(i64::MIN <= quotient <= i64::MAX) by (nonlinear_arith)
                requires
                    0 < parts as int,
                    i64::MIN <= self.value() <= i64::MAX,
                    self.value() == (parts as int) * (quotient as int) + self.value() % (
                    parts as int),
                    0 <= self.value() % (parts as int) < parts as int,
            ;
        }
        Fixed { raw: quotient as i64 }
    }

    /// The decimal text of the number with `places` decimal places.
    pub fn format(self, places: u8) -> (s: String)
        requires
            places <= PLACES,
        ensures
            s@ == fixed_text(self.value(), places as nat),
    {
        let mag: u64 = self.magnitude();
        let unit: u64 = power_of_ten(PLACES - places);
        let scale: u64 = power_of_ten(places);
        let quot: u64 = mag / unit;
        let rest: u64 = mag % unit;
        let q: u64 = if rest > unit - rest || (rest == unit - rest && quot % 2 == 1) {
            quot + 1
        } else {
            quot
        };
        let mut s = String::new();
        if self.raw < 0 {
            proof {
                reveal_strlit("-");
            }
            s.append("-");
        }
        let whole = number_text(q / scale);
        s.append(whole.as_str());
        if places > 0 {
            proof {
                reveal_strlit(".");
            }
            s.append(".");
            let frac = padded_text(q % scale, places);
            s.append(frac.as_str());
        }
        s
    }

    /// The point that lies `index` of the way from `self` to `other`, rounded down to a
    /// whole step.
    pub fn lerp(self, other: Fixed, index: &Percentage) -> (f: Fixed)
        ensures
            f.value() == lerp(self.value(), other.value(), index.num(), index.den()),
    {
        proof {
            use_type_invariant(index);
            index.lemma_wf();
        }
        let num: u32 = index.numerator();
        let den: u32 = index.denominator();
        let ghost d = other.raw as int - self.raw as int;
        proof {
            lemma_lerp_between(self.raw as int, other.raw as int, num as int, den as int);
            assert(-0x1_0000_0000_0000_0000 * 0x1_0000_0000 <= d * (num as int)
                <= 0x1_0000_0000_0000_0000 * 0x1_0000_0000) by (nonlinear_arith)
                requires
                    -0x1_0000_0000_0000_0000 <= d <= 0x1_0000_0000_0000_0000,
                    0 <= num as int <= 0x1_0000_0000,
            ;
        }
        let diff: i128 = other.raw as i128 - self.raw as i128;
        let step: i128 = floor_div(diff * (num as i128), den as i128);
        Fixed { raw: (self.raw as i128 + step) as i64 }
    }
}

} // verus!
