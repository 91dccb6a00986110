//! Fixed-point decimal numbers with eighteen fractional digits.
//!
//! Quantile ranks, accuracy targets and cost factors are decimals: they are
//! compared, written out and scaled exactly.
use vstd::prelude::*;
use vstd::string::*;

use crate::text;

verus! {

/// Units in one: the value of a decimal is `units / UNITS_PER_ONE`.
pub const UNITS_PER_ONE: i128 = 1_000_000_000_000_000_000;

/// The largest magnitude that reading a number yields; larger ones saturate.
pub const MAX_UNITS: i128 = 18_446_744_073_709_551_615_999_999_999_999_999_999;

/// A decimal number, held as a count of 10^-18 units.
#[derive(Clone, Copy, Debug, PartialEq, Eq, Structural)]
pub struct Decimal {
    pub units: i128,
}

/// 10 to the power `n`.
pub open spec fn pow10(n: nat) -> nat
    decreases n,
{
    if n == 0 {
        1
    } else {
        10 * pow10((n - 1) as nat)
    }
}

/// The digits after the point of a fraction of `f / 10^places`, without
/// trailing zeros.
pub open spec fn fraction_text(f: nat, places: nat) -> Seq<char>
    decreases places,
{
    if f == 0 || places == 0 {
        Seq::empty()
    } else {
        let p = pow10((places - 1) as nat);
        seq![text::digit_char(f / p)] + fraction_text(f % p, (places - 1) as nat)
    }
}

/// A non-negative count of units as text.
pub open spec fn magnitude_text(m: nat) -> Seq<char> {
    let one = UNITS_PER_ONE as nat;
    if m % one == 0 {
        text::nat_text(m / one)
    } else {
        text::nat_text(m / one) + "."@ + fraction_text(m % one, 18)
    }
}

/// A decimal as text: `0.99`, `5`, `-1.5`.
pub open spec fn decimal_text(d: Decimal) -> Seq<char> {
    if d.units < 0 {
        "-"@ + magnitude_text((-d.units) as nat)
    } else {
        magnitude_text(d.units as nat)
    }
}

/// A decimal as text that always shows a fraction: `0.99`, `5.0`.
pub open spec fn decimal_debug_text(d: Decimal) -> Seq<char> {
    if d.units % UNITS_PER_ONE == 0 {
        decimal_text(d) + ".0"@
    } else {
        decimal_text(d)
    }
}

/// The units that the digits after a point stand for; what follows the
/// eighteenth digit is cut off.
pub open spec fn fraction_units(s: Seq<char>, places: nat) -> nat
    decreases places,
{
    if s.len() == 0 || places == 0 {
        0
    } else {
        text::digit_value(s[0]) * pow10((places - 1) as nat) + fraction_units(
            s.drop_first(),
            (places - 1) as nat,
        )
    }
}

/// The units that digits before a point stand for; they saturate at `u64::MAX`.
pub open spec fn whole_units(s: Seq<char>) -> int {
    (if text::digits_value(s) <= u64::MAX {
        text::digits_value(s) as int
    } else {
        u64::MAX as int
    }) * UNITS_PER_ONE
}

/// The units of an unsigned decimal number in text form.
pub open spec fn magnitude_units(s: Seq<char>) -> Option<int> {
    if s == "inf"@ {
        Some(MAX_UNITS as int)
    } else {
        match s.index_of_first('.') {
            None => if s.len() > 0 && text::all_digits(s) {
                Some(whole_units(s))
            } else {
                None
            },
            Some(dot) => {
                let whole = s.take(dot);
                let fraction = s.skip(dot + 1);
                if whole.len() > 0 && text::all_digits(whole) && fraction.len() > 0
                    && text::all_digits(fraction) {
                    Some(whole_units(whole) + fraction_units(fraction, 18))
                } else {
                    None
                }
            },
        }
    }
}

/// The decimal that a text writes, if it writes one.
pub open spec fn decimal_value(s: Seq<char>) -> Option<Decimal> {
    if s.len() > 0 && s[0] == '-' {
        match magnitude_units(s.drop_first()) {
            Some(m) => Some(Decimal { units: (-m) as i128 }),
            None => None,
        }
    } else {
        match magnitude_units(s) {
            Some(m) => Some(Decimal { units: m as i128 }),
            None => None,
        }
    }
}

proof fn lemma_pow10_positive(n: nat)
    ensures
        pow10(n) > 0,
    decreases n,
{
    if n > 0 {
        lemma_pow10_positive((n - 1) as nat);
    }
}

proof fn lemma_pow10_values()
    ensures
        pow10(0) == 1,
        pow10(17) == 100_000_000_000_000_000,
        pow10(18) == UNITS_PER_ONE,
{
    reveal_with_fuel(pow10, 20);
}

/// Append the digits after the point.
fn push_fraction(out: &mut String, f: u128, places: u8, p: u128)
    requires
        places > 0 ==> p == pow10((places - 1) as nat),
        f < pow10(places as nat),
    ensures
        final(out)@ == old(out)@ + fraction_text(f as nat, places as nat),
    decreases places,
{
    let ghost before = out@;
    if f != 0 && places != 0 {
        proof {
            lemma_pow10_positive((places - 1) as nat);
            assert(f / p < 10) by (nonlinear_arith)
                requires
                    f < 10 * p,
                    p > 0,
            ;
        }
        let d: u128 = f / p;
        out.push((48u8 + d as u8) as char);
        assert(places - 1 > 0 ==> p == 10 * pow10((places - 2) as nat));
        assert(f % p < p) by (nonlinear_arith)
            requires
                p > 0,
        ;
        push_fraction(out, f % p, places - 1, p / 10);
        assert(out@ =~= before + fraction_text(f as nat, places as nat));
    } else {
        assert(out@ =~= before + fraction_text(f as nat, places as nat));
    }
}

/// The number of units without its sign.
fn magnitude(d: Decimal) -> (r: u128)
    ensures
        r == if d.units < 0 {
            -(d.units as int)
        } else {
            d.units as int
        },
{
    if d.units < 0 {
        (-(d.units + 1)) as u128 + 1
    } else {
        d.units as u128
    }
}

/// Append a decimal as text.
pub fn push_decimal(out: &mut String, d: Decimal)
    ensures
        final(out)@ == old(out)@ + decimal_text(d),
{
    let ghost before = out@;
    let m: u128 = magnitude(d);
    if d.units < 0 {
        out.append("-");
    }
    let one: u128 = UNITS_PER_ONE as u128;
    text::push_u128(out, m / one);
    if m % one != 0 {
        out.append(".");
        proof {
            lemma_pow10_values();
        }
        push_fraction(out, m % one, 18, 100_000_000_000_000_000);
    }
    assert(out@ =~= before + decimal_text(d));
}

/// Append a decimal as text that always shows a fraction.
pub fn push_decimal_debug(out: &mut String, d: Decimal)
    ensures
        final(out)@ == old(out)@ + decimal_debug_text(d),
{
    let ghost before = out@;
    push_decimal(out, d);
    if d.units % UNITS_PER_ONE == 0 {
        out.append(".0");
    }
    assert(out@ =~= before + decimal_debug_text(d));
}

/// Read digits; numbers above `u64::MAX` saturate.
fn read_whole(chars: &Vec<char>, from: usize, to: usize) -> (r: Option<u64>)
    requires
        from <= to <= chars@.len(),
    ensures
        ({
            let t = chars@.subrange(from as int, to as int);
            match r {
                Some(n) => t.len() > 0 && text::all_digits(t) && n == (if text::digits_value(t) <= u64::MAX {
                    text::digits_value(t)
                } else {
                    u64::MAX as nat
                }),
                None => !(t.len() > 0 && text::all_digits(t)),
            }
        }),
{
    let ghost t = chars@.subrange(from as int, to as int);
    if from == to {
        return None;
    }
    let mut n: u64 = 0;
    for i in from..to
        invariant
            from < to <= chars@.len(),
            t == chars@.subrange(from as int, to as int),
            forall|j: int| 0 <= j < i - from ==> text::is_digit(#[trigger] t[j]),
            n == (if text::digits_value(t.take(i - from)) <= u64::MAX {
                text::digits_value(t.take(i - from))
            } else {
                u64::MAX as nat
            }),
    {
        let c = chars[i];
        assert(t[i - from] == c);
        if c < '0' || c > '9' {
            assert(!text::is_digit(t[i - from]));
            return None;
        }
        let d: u64 = ((c as u8) - 48u8) as u64;
        proof {
            assert(t.take(i - from + 1).drop_last() =~= t.take(i - from));
        }
        let m: u128 = n as u128 * 10 + d as u128;
        n = if m <= u64::MAX as u128 {
            m as u64
        } else {
            u64::MAX
        };
    }
    assert(t.take(t.len() as int) =~= t);
    Some(n)
}

/// Read the digits after a point.
fn read_fraction(chars: &Vec<char>, from: usize, places: u8, p: u128) -> (r: u128)
    requires
        from <= chars@.len(),
        text::all_digits(chars@.skip(from as int)),
        places > 0 ==> p == pow10((places - 1) as nat),
        places <= 18,
    ensures
        r == fraction_units(chars@.skip(from as int), places as nat),
        r < pow10(places as nat),
    decreases places,
{
    proof {
        lemma_pow10_positive(places as nat);
    }
    if from == chars.len() || places == 0 {
        return 0;
    }
    let ghost t = chars@.skip(from as int);
    assert(t[0] == chars@[from as int]);
    assert(t.drop_first() =~= chars@.skip(from as int + 1));
    assert forall|i: int| 0 <= i < t.drop_first().len() implies text::is_digit(#[trigger] t.drop_first()[i]) by {
        assert(text::is_digit(t[i + 1]));
    }
    let d: u128 = ((chars[from] as u8) - 48u8) as u128;
    proof {
        assert(places - 1 > 0 ==> p == 10 * pow10((places - 2) as nat));
        lemma_pow10_small((places - 1) as nat);
    }
    let rest: u128 = read_fraction(chars, from + 1, places - 1, p / 10);
    assert(d * p + rest < 10 * p && d * p <= 9 * p) by (nonlinear_arith)
        requires
            0 <= d <= 9,
            rest < p,
    ;
    d * p + rest
}

proof fn lemma_pow10_small(n: nat)
    requires
        n <= 18,
    ensures
        0 < pow10(n) <= UNITS_PER_ONE,
    decreases 18 - n,
{
    lemma_pow10_positive(n);
    lemma_pow10_values();
    if n < 18 {
        lemma_pow10_small(n + 1);
    }
}

/// The units of an unsigned decimal number in text form.
fn read_magnitude(chars: &Vec<char>) -> (r: Option<i128>)
    ensures
        match r {
            Some(m) => magnitude_units(chars@) == Some(m as int) && 0 <= m <= MAX_UNITS,
            None => magnitude_units(chars@) is None,
        },
{
    let whole_text = text::text_of(chars);
    if text::same(whole_text.as_str(), "inf") {
        return Some(MAX_UNITS);
    }
    let mut dot: usize = 0;
    while dot < chars.len() && chars[dot] != '.'
        invariant
            dot <= chars@.len(),
            forall|j: int| 0 <= j < dot ==> chars@[j] != '.',
        decreases chars@.len() - dot,
    {
        dot = dot + 1;
    }
    proof {
        chars@.index_of_first_ensures('.');
    }
    if dot == chars.len() {
        assert(chars@.subrange(0, chars@.len() as int) =~= chars@);
        assert(!chars@.contains('.'));
        match read_whole(chars, 0, chars.len()) {
            Some(n) => Some(n as i128 * UNITS_PER_ONE),
            None => None,
        }
    } else {
        proof {
            assert(chars@[dot as int] == '.');
            assert(chars@.contains('.'));
            assert(chars@.index_of_first('.') == Some(dot as int));
            assert(chars@.subrange(0, dot as int) =~= chars@.take(dot as int));
            assert(chars@.subrange(dot as int + 1, chars@.len() as int) =~= chars@.skip(dot as int + 1));
            lemma_pow10_values();
        }
        match (read_whole(chars, 0, dot), read_whole(chars, dot + 1, chars.len())) {
            (Some(n), Some(_)) => {
                let f = read_fraction(chars, dot + 1, 18, 100_000_000_000_000_000);
                Some(n as i128 * UNITS_PER_ONE + f as i128)
            },
            _ => None,
        }
    }
}

impl Decimal {
    /// Zero.
    pub fn zero() -> (r: Decimal)
        ensures
            r.units == 0,
    {
        Decimal { units: 0 }
    }

    /// The whole number `n`.
    pub fn from_u64(n: u64) -> (r: Decimal)
        ensures
            r.units == n * UNITS_PER_ONE,
    {
        Decimal { units: n as i128 * UNITS_PER_ONE }
    }

    /// `n` hundredths.
    pub fn hundredths(n: u32) -> (r: Decimal)
        ensures
            r.units * 100 == n * UNITS_PER_ONE,
    {
        Decimal { units: n as i128 * 10_000_000_000_000_000 }
    }

    /// Read a decimal number: an optional minus sign, digits, and digits after
    /// a point. Digits past the eighteenth after the point are cut off.
    pub fn parse(s: &str) -> (r: Option<Decimal>)
        ensures
            r == decimal_value(s@),
    {
        let chars = text::chars_of(s);
        if chars.len() > 0 && chars[0] == '-' {
            let mut rest: Vec<char> = Vec::new();
            for i in 1..chars.len()
                invariant
                    chars@.len() > 0,
                    rest@ == chars@.subrange(1, i as int),
            {
                rest.push(chars[i]);
                assert(rest@ =~= chars@.subrange(1, i as int + 1));
            }
            assert(rest@ =~= s@.drop_first());
            match read_magnitude(&rest) {
                Some(m) => Some(Decimal { units: -m }),
                None => None,
            }
        } else {
            match read_magnitude(&chars) {
                Some(m) => Some(Decimal { units: m }),
                None => None,
            }
        }
    }

    /// A decimal as text.
    pub fn text(&self) -> (r: String)
        ensures
            r@ == decimal_text(*self),
    {
        let mut out = String::new();
        push_decimal(&mut out, *self);
        assert(Seq::<char>::empty() + decimal_text(*self) =~= decimal_text(*self));
        out
    }

    /// The smaller of two decimals.
    pub open spec fn spec_min(self, other: Decimal) -> Decimal {
        if self.units <= other.units {
            self
        } else {
            other
        }
    }

    /// The smaller of two decimals.
    pub fn min_of(self, other: Decimal) -> (r: Decimal)
        ensures
            r == self.spec_min(other),
    {
        if self.units <= other.units {
            self
        } else {
            other
        }
    }

    /// The value in whole percent, halves rounded away from zero.
    pub open spec fn percent(self) -> int {
        let step = UNITS_PER_ONE / 100;
        if self.units >= 0 {
            (self.units + step / 2) / step
        } else {
            -((-self.units + step / 2) / step)
        }
    }

    /// The value in whole percent, halves rounded away from zero.
    pub fn to_percent(&self) -> (r: i128)
        ensures
            r == self.percent(),
    {
        let m: u128 = magnitude(*self);
        let p: u128 = (m + 5_000_000_000_000_000) / 10_000_000_000_000_000;
        if self.units >= 0 {
            p as i128
        } else {
            -(p as i128)
        }
    }

    /// The value in billionths, cut off below and clamped to `u64`.
    pub open spec fn billionths(self) -> u64 {
        if self.units <= 0 {
            0
        } else if self.units / 1_000_000_000 > u64::MAX {
            u64::MAX
        } else {
            (self.units / 1_000_000_000) as u64
        }
    }

    /// The value in billionths, cut off below and clamped to `u64`.
    pub fn to_billionths(&self) -> (r: u64)
        ensures
            r == self.billionths(),
    {
        if self.units <= 0 {
            0
        } else {
            let n: i128 = self.units / 1_000_000_000;
            if n > u64::MAX as i128 {
                u64::MAX
            } else {
                n as u64
            }
        }
    }

    /// The whole part, clamped to `u64`.
    pub open spec fn whole(self) -> u64 {
        if self.units <= 0 {
            0
        } else if self.units / UNITS_PER_ONE > u64::MAX {
            u64::MAX
        } else {
            (self.units / UNITS_PER_ONE) as u64
        }
    }

    /// The whole part, clamped to `u64`.
    pub fn to_whole(&self) -> (r: u64)
        ensures
            r == self.whole(),
    {
        if self.units <= 0 {
            0
        } else {
            let n: i128 = self.units / UNITS_PER_ONE;
            if n > u64::MAX as i128 {
                u64::MAX
            } else {
                n as u64
            }
        }
    }

    /// The value times `num / den`, cut off past the eighteenth fractional
    /// digit; results too large for a decimal saturate.
    pub open spec fn scaled(self, num: int, den: int) -> Decimal {
        let m = if self.units < 0 {
            -(self.units as int)
        } else {
            self.units as int
        };
        let p = (m * num) / den;
        let c = if p > i128::MAX {
            i128::MAX as int
        } else {
            p
        };
        Decimal {
            units: (if self.units < 0 {
                -c
            } else {
                c
            }) as i128,
        }
    }

    /// The value times `num / den`, cut off past the eighteenth fractional
    /// digit; results too large for a decimal saturate.
    pub fn times(self, num: u32, den: u64) -> (r: Decimal)
        requires
            den > 0,
        ensures
            r == self.scaled(num as int, den as int),
    {
        let m: u128 = magnitude(self);
        let q: u128 = m / den as u128;
        let rest: u128 = m % den as u128;
        proof {
            let mi = m as int;
            let di = den as int;
            let ni = num as int;
            vstd::arithmetic::div_mod::lemma_fundamental_div_mod(mi, di);
            assert(rest * num <= u64::MAX * u32::MAX) by (nonlinear_arith)
                requires
                    rest <= u64::MAX,
                    num <= u32::MAX,
            ;
            vstd::arithmetic::div_mod::lemma_hoist_over_denominator(
                rest as int * ni,
                q as int * ni,
                den as nat,
            );
            assert(mi * ni == rest as int * ni + (q as int * ni) * di) by (nonlinear_arith)
                requires
                    mi == di * q as int + rest as int,
            ;
            assert(q * num >= 0) by (nonlinear_arith)
                requires
                    q >= 0,
                    num >= 0,
            ;
        }
        let low: u128 = (rest * num as u128) / den as u128;
        let limit: u128 = i128::MAX as u128;
        let c: u128 = match q.checked_mul(num as u128) {
            Some(high) => match high.checked_add(low) {
                Some(p) => if p > limit {
                    limit
                } else {
                    p
                },
                None => limit,
            },
            None => limit,
        };
        if self.units < 0 {
            Decimal { units: -(c as i128) }
        } else {
            Decimal { units: c as i128 }
        }
    }

    /// The sum; sums too large for a decimal saturate.
    pub open spec fn sum(self, other: Decimal) -> Decimal {
        let s = self.units + other.units;
        Decimal {
            units: (if s > i128::MAX {
                i128::MAX as int
            } else if s < i128::MIN {
                i128::MIN as int
            } else {
                s
            }) as i128,
        }
    }

    /// The sum; sums too large for a decimal saturate.
    pub fn plus(self, other: Decimal) -> (r: Decimal)
        ensures
            r == self.sum(other),
    {
        match self.units.checked_add(other.units) {
            Some(s) => Decimal { units: s },
            None => if self.units > 0 {
                Decimal { units: i128::MAX }
            } else {
                Decimal { units: i128::MIN }
            },
        }
    }
}

// ── Laws ──────────────────────────────────────────────────────────────────────

/// The digits after a point stand for the fraction that they were written for.
proof fn lemma_fraction_reads_back(f: nat, places: nat)
    requires
        f < pow10(places),
    ensures
        text::all_digits(fraction_text(f, places)),
        f > 0 ==> fraction_text(f, places).len() > 0,
        fraction_units(fraction_text(f, places), places) == f,
    decreases places,
{
    if f > 0 && places > 0 {
        let p = pow10((places - 1) as nat);
        lemma_pow10_positive((places - 1) as nat);
        assert(f / p < 10 && f % p < p && f == (f / p) * p + f % p) by (nonlinear_arith)
            requires
                f < 10 * p,
                p > 0,
        ;
        lemma_fraction_reads_back(f % p, (places - 1) as nat);
        let rest = fraction_text(f % p, (places - 1) as nat);
        let all = fraction_text(f, places);
        assert(all.drop_first() =~= rest);
        assert forall|i: int| 0 <= i < all.len() implies text::is_digit(#[trigger] all[i]) by {
            if i > 0 {
                assert(all[i] == rest[i - 1]);
            }
        }
        assert(text::digit_value(all[0]) == f / p);
    }
}

/// The text of a magnitude writes that magnitude.
proof fn lemma_magnitude_reads_back(m: nat)
    requires
        m <= MAX_UNITS,
    ensures
        magnitude_units(magnitude_text(m)) == Some(m as int),
        magnitude_text(m).len() > 0,
        text::is_digit(magnitude_text(m)[0]),
{
    let one = UNITS_PER_ONE as nat;
    let whole = text::nat_text(m / one);
    let all = magnitude_text(m);
    text::law_digits_read_back(m / one);
    reveal_strlit("inf");
    reveal_strlit(".");
    assert(text::is_digit(whole[0]));
    assert(all[0] == whole[0]);
    assert("inf"@[0] == 'i');
    assert(all != "inf"@);
    all.index_of_first_ensures('.');
    if m % one == 0 {
        assert(!all.contains('.'));
    } else {
        lemma_pow10_values();
        lemma_fraction_reads_back(m % one, 18);
        let fraction = fraction_text(m % one, 18);
        let dot = whole.len() as int;
        assert(all[dot] == '.');
        assert(all.contains('.'));
        let at = all.index_of_first('.')->0;
        if at < dot {
            assert(all[at] == whole[at]);
            assert(text::is_digit(whole[at]));
        }
        assert(at == dot);
        assert(all.take(dot) =~= whole);
        assert(all.skip(dot + 1) =~= fraction);
    }
}

/// The text of a decimal reads as that decimal.
pub proof fn law_text_reads_back(d: Decimal)
    requires
        -MAX_UNITS <= d.units <= MAX_UNITS,
    ensures
        decimal_value(decimal_text(d)) == Some(d),
{
    let s = decimal_text(d);
    reveal_strlit("-");
    if d.units < 0 {
        lemma_magnitude_reads_back((-d.units) as nat);
        assert(s[0] == '-');
        assert(s.drop_first() =~= magnitude_text((-d.units) as nat));
    } else {
        lemma_magnitude_reads_back(d.units as nat);
    }
}

} // verus!
