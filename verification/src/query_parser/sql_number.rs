//! Reading unsigned numbers in the notations of SQL: `10`, `1.5`, `.5`, `5.`,
//! `1e6`.
use vstd::prelude::*;

use crate::decimal::{Decimal, MAX_UNITS};
use crate::text;

verus! {

/// The largest exponent that counts; larger ones count as this one.
pub const MAX_EXPONENT: u64 = 400;

/// The first `n` digits of a number, continued with zeros.
pub open spec fn padded(digits: Seq<char>, n: nat) -> Seq<char> {
    Seq::new(
        n,
        |i: int|
            if i < digits.len() {
                digits[i]
            } else {
                '0'
            },
    )
}

/// The number of units of the decimal with these digits, the point behind the
/// `point`-th; past the eighteenth fractional digit it is cut off, and too large
/// ones saturate.
pub open spec fn units_of(digits: Seq<char>, point: int) -> int {
    if point + 18 <= 0 {
        0
    } else {
        let n = text::digits_value(padded(digits, (point + 18) as nat));
        if n <= MAX_UNITS {
            n as int
        } else {
            MAX_UNITS as int
        }
    }
}

/// The exponent that a suffix writes: none for the empty one.
pub open spec fn exponent_of(x: Seq<char>) -> Option<int> {
    if x.len() == 0 {
        Some(0)
    } else {
        let signed = x.len() > 1 && (x[1] == '+' || x[1] == '-');
        let d = if signed {
            x.skip(2)
        } else {
            x.skip(1)
        };
        if d.len() > 0 && text::all_digits(d) {
            let n = if text::digits_value(d) <= MAX_EXPONENT {
                text::digits_value(d) as int
            } else {
                MAX_EXPONENT as int
            };
            if signed && x[1] == '-' {
                Some(-n)
            } else {
                Some(n)
            }
        } else {
            None
        }
    }
}

/// Where the exponent starts.
pub open spec fn is_mark(c: char) -> bool {
    c == 'e' || c == 'E'
}

/// Whether `cut` is where the exponent starts, or the end if there is none.
pub open spec fn cuts(s: Seq<char>, cut: int) -> bool {
    &&& 0 <= cut <= s.len()
    &&& forall|i: int| 0 <= i < cut ==> !is_mark(#[trigger] s[i])
    &&& cut < s.len() ==> is_mark(s[cut])
}

/// Whether `dot` is where the point stands, or the end if there is none.
pub open spec fn points(m: Seq<char>, dot: int) -> bool {
    &&& 0 <= dot <= m.len()
    &&& forall|i: int| 0 <= i < dot ==> #[trigger] m[i] != '.'
    &&& dot < m.len() ==> m[dot] == '.'
}

/// The digits of a mantissa, without its point.
pub open spec fn mantissa_digits(m: Seq<char>, dot: int) -> Seq<char> {
    if dot < m.len() {
        m.take(dot) + m.skip(dot + 1)
    } else {
        m
    }
}

/// The number that a text writes, split at `cut` and `dot`.
pub open spec fn number_at(s: Seq<char>, cut: int, dot: int) -> Option<Decimal> {
    let digits = mantissa_digits(s.take(cut), dot);
    if digits.len() > 0 && text::all_digits(digits) {
        match exponent_of(s.skip(cut)) {
            Some(x) => Some(Decimal { units: units_of(digits, dot + x) as i128 }),
            None => None,
        }
    } else {
        None
    }
}

/// The number that a text writes.
pub open spec fn sql_number(s: Seq<char>) -> Option<Decimal> {
    let cut = choose|cut: int| cuts(s, cut);
    let dot = choose|dot: int| points(s.take(cut), dot);
    number_at(s, cut, dot)
}

proof fn lemma_cut_unique(s: Seq<char>, a: int, b: int)
    requires
        cuts(s, a),
        cuts(s, b),
    ensures
        a == b,
{
    if a < b {
        assert(!is_mark(s[a]));
    }
    if b < a {
        assert(!is_mark(s[b]));
    }
}

proof fn lemma_point_unique(m: Seq<char>, a: int, b: int)
    requires
        points(m, a),
        points(m, b),
    ensures
        a == b,
{
    if a < b {
        assert(m[a] != '.');
    }
    if b < a {
        assert(m[b] != '.');
    }
}

proof fn lemma_value_of_zeros(digits: Seq<char>, n: nat)
    requires
        text::all_digits(digits),
    ensures
        text::all_digits(padded(digits, n)),
{
    assert forall|i: int| 0 <= i < n implies text::is_digit(#[trigger] padded(digits, n)[i]) by {
        if i < digits.len() {
            assert(text::is_digit(digits[i]));
        }
    }
}

/// The number of units of the decimal with these digits.
fn units(digits: &Vec<char>, point: i128) -> (r: i128)
    requires
        text::all_digits(digits@),
        -0x1_0000_0000_0000_0000 <= point <= 0x2_0000_0000_0000_0000,
    ensures
        r == units_of(digits@, point as int),
        0 <= r <= MAX_UNITS,
{
    if point + 18 <= 0 {
        return 0;
    }
    let n: u128 = (point + 18) as u128;
    let ghost all = padded(digits@, n as nat);
    proof {
        lemma_value_of_zeros(digits@, n as nat);
    }
    let mut value: i128 = 0;
    let mut i: u128 = 0;
    while i < n
        invariant
            n == point + 18,
            i <= n,
            all == padded(digits@, n as nat),
            text::all_digits(digits@),
            value == text::digits_value(all.take(i as int)),
            0 <= value <= MAX_UNITS,
        decreases n - i,
    {
        assert(all.take(i as int + 1).drop_last() =~= all.take(i as int));
        assert(all.take(i as int + 1).last() == all[i as int]);
        let d: i128 = if i < digits.len() as u128 {
            let c = digits[i as usize];
            assert(text::is_digit(digits@[i as int]));
            ((c as u8) - 48u8) as i128
        } else {
            0
        };
        assert(d == text::digit_value(all[i as int]));
        proof {
            text::lemma_digits_value_grows(all, i as int + 1);
        }
        if value > (MAX_UNITS - d) / 10 {
            assert(text::digits_value(all) > MAX_UNITS);
            return MAX_UNITS;
        }
        value = value * 10 + d;
        i = i + 1;
        if value == 0 && i >= digits.len() as u128 {
            proof {
                lemma_only_zeros(all, i as int);
            }
            return 0;
        }
    }
    assert(all.take(n as int) =~= all);
    value
}

proof fn lemma_only_zeros(all: Seq<char>, i: int)
    requires
        0 <= i <= all.len(),
        text::digits_value(all.take(i)) == 0,
        forall|j: int| i <= j < all.len() ==> #[trigger] all[j] == '0',
    ensures
        text::digits_value(all) == 0,
    decreases all.len() - i,
{
    if i < all.len() {
        assert(all.take(i + 1).drop_last() =~= all.take(i));
        assert(all.take(i + 1).last() == all[i]);
        lemma_only_zeros(all, i + 1);
    } else {
        assert(all.take(i) =~= all);
    }
}

/// Read the digits from `from` on; numbers above [`MAX_EXPONENT`] count as it.
fn read_exponent(chars: &Vec<char>, from: usize) -> (r: Option<u64>)
    requires
        from <= chars@.len(),
    ensures
        ({
            let d = chars@.skip(from as int);
            match r {
                Some(n) => d.len() > 0 && text::all_digits(d) && n == (if text::digits_value(d)
                    <= MAX_EXPONENT {
                    text::digits_value(d)
                } else {
                    MAX_EXPONENT as nat
                }),
                None => !(d.len() > 0 && text::all_digits(d)),
            }
        }),
{
    let ghost d = chars@.skip(from as int);
    if from == chars.len() {
        return None;
    }
    let mut n: u64 = 0;
    for i in from..chars.len()
        invariant
            from < chars@.len(),
            d == chars@.skip(from as int),
            forall|j: int| 0 <= j < i - from ==> text::is_digit(#[trigger] d[j]),
            n == (if text::digits_value(d.take(i - from)) <= MAX_EXPONENT {
                text::digits_value(d.take(i - from))
            } else {
                MAX_EXPONENT as nat
            }),
    {
        let c = chars[i];
        assert(d[i - from] == c);
        if c < '0' || c > '9' {
            assert(!text::is_digit(d[i - from]));
            return None;
        }
        let x: u64 = ((c as u8) - 48u8) as u64;
        assert(d.take(i - from + 1).drop_last() =~= d.take(i - from));
        n = if n * 10 + x <= MAX_EXPONENT {
            n * 10 + x
        } else {
            MAX_EXPONENT
        };
    }
    assert(d.take(d.len() as int) =~= d);
    Some(n)
}

/// The number that a text writes.
pub fn read_number(s: &str) -> (r: Option<Decimal>)
    ensures
        r == sql_number(s@),
{
    let chars = text::chars_of(s);
    let mut cut: usize = 0;
    while cut < chars.len() && chars[cut] != 'e' && chars[cut] != 'E'
        invariant
            chars@ == s@,
            cut <= chars@.len(),
            forall|i: int| 0 <= i < cut ==> !is_mark(#[trigger] s@[i]),
        decreases chars@.len() - cut,
    {
        cut = cut + 1;
    }
    let ghost m = s@.take(cut as int);
    let mut dot: usize = 0;
    while dot < cut && chars[dot] != '.'
        invariant
            chars@ == s@,
            dot <= cut <= chars@.len(),
            m == s@.take(cut as int),
            forall|i: int| 0 <= i < dot ==> #[trigger] m[i] != '.',
        decreases cut - dot,
    {
        assert(m[dot as int] == s@[dot as int]);
        dot = dot + 1;
    }
    proof {
        assert(cuts(s@, cut as int));
        let c = choose|c: int| cuts(s@, c);
        lemma_cut_unique(s@, c, cut as int);
        if dot < cut {
            assert(m[dot as int] == s@[dot as int]);
        }
        assert(points(m, dot as int));
        let d = choose|d: int| points(m, d);
        lemma_point_unique(m, d, dot as int);
    }
    let mut digits: Vec<char> = Vec::new();
    for i in 0..cut
        invariant
            chars@ == s@,
            m == s@.take(cut as int),
            dot <= cut <= chars@.len(),
            digits@ == (if i <= dot {
                m.take(i as int)
            } else {
                m.take(dot as int) + m.subrange(dot as int + 1, i as int)
            }),
    {
        if i != dot {
            digits.push(chars[i]);
        }
        assert(digits@ =~= (if i + 1 <= dot {
            m.take(i as int + 1)
        } else {
            m.take(dot as int) + m.subrange(dot as int + 1, i as int + 1)
        }));
    }
    assert(digits@ =~= mantissa_digits(m, dot as int));
    if digits.len() == 0 {
        return None;
    }
    for i in 0..digits.len()
        invariant
            digits@ == mantissa_digits(m, dot as int),
            m == s@.take(cut as int),
            cuts(s@, cut as int),
            sql_number(s@) == number_at(s@, cut as int, dot as int),
            forall|j: int| 0 <= j < i ==> text::is_digit(#[trigger] digits@[j]),
    {
        if digits[i] < '0' || digits[i] > '9' {
            assert(!text::is_digit(digits@[i as int]));
            return None;
        }
    }
    let ghost x = s@.skip(cut as int);
    if cut == chars.len() {
        return Some(Decimal { units: units(&digits, dot as i128) });
    }
    let signed = cut + 1 < chars.len() && (chars[cut + 1] == '+' || chars[cut + 1] == '-');
    assert(x.len() > 1 ==> x[1] == s@[cut as int + 1]);
    let from: usize = if signed {
        cut + 2
    } else {
        cut + 1
    };
    assert(x.skip(2) =~= chars@.skip(cut as int + 2) || !signed);
    assert(x.skip(1) =~= chars@.skip(cut as int + 1));
    match read_exponent(&chars, from) {
        Some(n) => {
            let e: i128 = if signed && chars[cut + 1] == '-' {
                -(n as i128)
            } else {
                n as i128
            };
            Some(Decimal { units: units(&digits, dot as i128 + e) })
        },
        None => None,
    }
}

} // verus!
