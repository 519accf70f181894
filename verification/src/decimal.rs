//! Non-negative decimal numbers with a fixed precision of one millionth,
//! standing in for the decimal-floating-point values of the playlist grammar
//! (segment durations in seconds, frame rates) and for second/microsecond
//! time spans.
use crate::strutil::all_digits;
use crate::strutil::dec_val;
use crate::strutil::find_char;
use crate::strutil::is_digit;
use crate::strutil::lemma_dec_val_prefix;
use crate::strutil::lemma_find_char;
use crate::strutil::lemma_find_char_found;
use crate::strutil::parse_u64_digits;
use crate::strutil::str_find_char;
use vstd::prelude::*;
use vstd::string::StrSliceExecFns;

verus! {

/// A non-negative decimal number: `units` whole units plus `millionths`
/// millionths of a unit.
///
/// Well-formed values keep `millionths` below one million.
#[derive(Debug, Clone, Copy, PartialEq, Eq, Hash, Structural)]
pub struct Decimal {
    /// The whole part.
    pub units: u64,
    /// The fractional part, in millionths of a unit.
    pub millionths: u32,
}

impl Decimal {
    /// Well-formedness: the fractional part stays below one unit.
    pub open spec fn wf(self) -> bool {
        self.millionths < 1000000
    }

    /// The decimal with the given whole part and no fractional part.
    pub fn from_units(units: u64) -> (r: Decimal)
        ensures
            r == (Decimal { units, millionths: 0 }),
            r.wf(),
    {
        Decimal { units, millionths: 0 }
    }

    /// The decimal with the given whole and fractional parts.
    pub fn new(units: u64, millionths: u32) -> (r: Decimal)
        requires
            millionths < 1000000,
        ensures
            r == (Decimal { units, millionths }),
            r.wf(),
    {
        Decimal { units, millionths }
    }

    /// The whole part, the fraction discarded.
    pub fn whole(&self) -> (r: u64)
        ensures
            r == self.units,
    {
        self.units
    }
}

/// Ten to the `n`th power.
pub open spec fn pow10(n: nat) -> nat
    decreases n,
{
    if n == 0 {
        1
    } else {
        10 * pow10((n - 1) as nat)
    }
}

/// A run of `n` digits reads as a value below ten to the `n`th power.
pub proof fn lemma_dec_val_bound(s: Seq<char>)
    requires
        all_digits(s),
    ensures
        dec_val(s) < pow10(s.len()),
    decreases s.len(),
{
    if s.len() > 0 {
        lemma_dec_val_bound(s.drop_last());
        assert(is_digit(s.last()));
        assert(dec_val(s.drop_last()) * 10 <= (pow10((s.len() - 1) as nat) - 1) * 10);
    }
}

/// Whether `s` is a decimal-floating-point numeral: one or more digits,
/// optionally followed by a point and zero or more digits.
pub open spec fn valid_decimal(s: Seq<char>) -> bool {
    let d = find_char(s, '.');
    if d >= s.len() {
        s.len() > 0 && all_digits(s)
    } else {
        d > 0 && all_digits(s.take(d)) && all_digits(s.skip(d + 1))
    }
}

/// The digits of `s` before the point, or all of `s` when there is no point.
pub open spec fn int_text(s: Seq<char>) -> Seq<char> {
    let d = find_char(s, '.');
    if d >= s.len() {
        s
    } else {
        s.take(d)
    }
}

/// The digits of `s` after the point, empty when there is no point.
pub open spec fn frac_text(s: Seq<char>) -> Seq<char> {
    let d = find_char(s, '.');
    if d >= s.len() {
        Seq::empty()
    } else {
        s.skip(d + 1)
    }
}

/// The value of the fraction digits `fr`, in millionths: the first six digits
/// count, shorter runs are padded with zeros on the right.
pub open spec fn frac_millionths(fr: Seq<char>) -> nat {
    if fr.len() >= 6 {
        dec_val(fr.take(6))
    } else {
        dec_val(fr) * pow10((6 - fr.len()) as nat)
    }
}

/// Whether the whole part of the numeral `s` fits in a `u64`.
pub open spec fn decimal_fits(s: Seq<char>) -> bool {
    dec_val(int_text(s)) <= u64::MAX
}

/// The value of the decimal numeral `s`.
pub open spec fn decimal_of(s: Seq<char>) -> Decimal {
    Decimal {
        units: dec_val(int_text(s)) as u64,
        millionths: frac_millionths(frac_text(s)) as u32,
    }
}

/// The fraction digits always read as fewer than one million millionths.
pub proof fn lemma_frac_millionths_bound(fr: Seq<char>)
    requires
        all_digits(fr),
    ensures
        frac_millionths(fr) < 1000000,
{
    if fr.len() >= 6 {
        assert(all_digits(fr.take(6)));
        lemma_dec_val_bound(fr.take(6));
        lemma_pow10_6();
    } else {
        lemma_pow10_6();
        lemma_dec_val_bound(fr);
        lemma_pow10_mul((6 - fr.len()) as nat, fr.len());
        vstd::arithmetic::mul::lemma_mul_inequality(
            dec_val(fr) as int,
            pow10(fr.len()) as int - 1,
            pow10((6 - fr.len()) as nat) as int,
        );
        assert((pow10(fr.len()) - 1) * pow10((6 - fr.len()) as nat) == pow10(fr.len()) * pow10(
            (6 - fr.len()) as nat,
        ) - pow10((6 - fr.len()) as nat)) by (nonlinear_arith);
        assert(pow10((6 - fr.len()) as nat) >= 1) by {
            lemma_pow10_pos((6 - fr.len()) as nat);
        }
    }
}

pub proof fn lemma_pow10_6()
    ensures
        pow10(6) == 1000000,
{
    lemma_pow10_bound(6);
    assert(pow10(6) == 1000000);
}

pub proof fn lemma_pow10_pos(n: nat)
    ensures
        pow10(n) >= 1,
    decreases n,
{
    if n > 0 {
        lemma_pow10_pos((n - 1) as nat);
    }
}

/// `pow10(a) * pow10(b) == pow10(a + b)`.
pub proof fn lemma_pow10_mul(a: nat, b: nat)
    ensures
        pow10(a) * pow10(b) == pow10(a + b),
    decreases b,
{
    if b == 0 {
        assert(pow10(a) * 1 == pow10(a));
    } else {
        lemma_pow10_mul(a, (b - 1) as nat);
        assert(pow10(a) * (10 * pow10((b - 1) as nat)) == 10 * (pow10(a) * pow10(
            (b - 1) as nat,
        ))) by (nonlinear_arith);
        assert(pow10(a + b) == 10 * pow10((a + b - 1) as nat));
    }
}

/// Ten to the `k`th power, for small `k`.
pub fn pow10_u64(k: usize) -> (r: u64)
    requires
        k <= 6,
    ensures
        r == pow10(k as nat),
{
    let mut r: u64 = 1;
    let mut i: usize = 0;
    while i < k
        invariant
            0 <= i <= k <= 6,
            r == pow10(i as nat),
        decreases k - i,
    {
        proof {
            lemma_pow10_bound(i as nat);
        }
        r = r * 10;
        i += 1;
    }
    r
}

pub proof fn lemma_pow10_bound(n: nat)
    requires
        n <= 6,
    ensures
        pow10(n) <= 1000000,
        n == 6 ==> pow10(n) == 1000000,
{
    assert(pow10(0) == 1);
    assert(pow10(1) == 10);
    assert(pow10(2) == 100);
    assert(pow10(3) == 1000);
    assert(pow10(4) == 10000);
    assert(pow10(5) == 100000);
    assert(pow10(6) == 1000000);
}

/// Whether every character of `s` between `from` and `to` is a digit.
pub fn check_all_digits(s: &str, from: usize, to: usize) -> (b: bool)
    requires
        from <= to <= s@.len(),
    ensures
        b == all_digits(s@.subrange(from as int, to as int)),
{
    let ghost sub = s@.subrange(from as int, to as int);
    let mut i: usize = from;
    while i < to
        invariant
            from <= i <= to <= s@.len(),
            sub == s@.subrange(from as int, to as int),
            forall|j: int| 0 <= j < i - from ==> is_digit(#[trigger] sub[j]),
        decreases to - i,
    {
        let c = s.get_char(i);
        assert(sub[i - from] == c);
        if !(c >= '0' && c <= '9') {
            return false;
        }
        i += 1;
    }
    true
}

/// Parses the characters of `s` between `from` and `to` as a decimal
/// numeral.
///
/// Returns the value exactly when the text matches the decimal grammar and
/// its whole part fits in a `u64`; fraction digits past the sixth are
/// discarded.
pub fn parse_decimal(s: &str, from: usize, to: usize) -> (r: Option<Decimal>)
    requires
        from <= to <= s@.len(),
    ensures
        match r {
            Some(d) => {
                let sub = s@.subrange(from as int, to as int);
                &&& valid_decimal(sub)
                &&& decimal_fits(sub)
                &&& d == decimal_of(sub)
                &&& d.wf()
            },
            None => {
                let sub = s@.subrange(from as int, to as int);
                !(valid_decimal(sub) && decimal_fits(sub))
            },
        },
{
    let ghost sub = s@.subrange(from as int, to as int);
    let dot = str_find_char(s, from, '.');
    if dot >= to {
        // No point: the whole text must be one or more digits.
        proof {
            lemma_find_char_found(sub, '.', sub.len() as int);
        }
        if to == from {
            return None;
        }
        if !check_all_digits(s, from, to) {
            return None;
        }
        match parse_u64_digits(s, from, to) {
            Some(units) => {
                proof {
                    assert(frac_text(sub) =~= Seq::<char>::empty());
                    assert(dec_val(Seq::<char>::empty()) == 0);
                    assert(frac_millionths(frac_text(sub)) == 0);
                }
                Some(Decimal { units, millionths: 0 })
            },
            None => None,
        }
    } else {
        // A point: digits before it, zero or more digits after it.
        proof {
            lemma_find_char_found(sub, '.', dot - from);
        }
        if dot == from {
            return None;
        }
        if !check_all_digits(s, from, dot) {
            proof {
                assert(sub.take(dot - from) =~= s@.subrange(from as int, dot as int));
            }
            return None;
        }
        if !check_all_digits(s, dot + 1, to) {
            proof {
                assert(sub.skip(dot - from + 1) =~= s@.subrange(dot + 1, to as int));
            }
            return None;
        }
        proof {
            assert(sub.take(dot - from) =~= s@.subrange(from as int, dot as int));
            assert(sub.skip(dot - from + 1) =~= s@.subrange(dot + 1, to as int));
        }
        let units = match parse_u64_digits(s, from, dot) {
            Some(units) => units,
            None => {
                return None;
            },
        };
        let frac_len: usize = to - (dot + 1);
        let frac_end: usize = if frac_len >= 6 {
            dot + 1 + 6
        } else {
            to
        };
        let ghost fr = sub.skip(dot - from + 1);
        proof {
            assert(fr.take(frac_end - (dot + 1)) =~= s@.subrange(dot + 1, frac_end as int));
            lemma_dec_val_bound(s@.subrange(dot + 1, frac_end as int));
            lemma_pow10_bound((frac_end - (dot + 1)) as nat);
        }
        let digits = match parse_u64_digits(s, dot + 1, frac_end) {
            Some(d) => d,
            None => {
                // Six digits always fit in a `u64`.
                proof {
                    assert(false);
                }
                return None;
            },
        };
        let scale = pow10_u64(6 - (frac_end - (dot + 1)));
        proof {
            lemma_frac_millionths_bound(fr);
            if frac_len >= 6 {
                assert(fr.len() >= 6);
                assert(fr.take(6) =~= s@.subrange(dot + 1, frac_end as int));
            } else {
                assert(fr =~= s@.subrange(dot + 1, frac_end as int));
            }
            lemma_pow10_bound((6 - (frac_end - (dot + 1))) as nat);
            assert(fr.len() == frac_len);
            if frac_len >= 6 {
                assert(scale == 1);
                assert(digits == dec_val(fr.take(6)));
                assert(frac_millionths(fr) == dec_val(fr.take(6)));
            } else {
                assert(digits == dec_val(fr));
                assert(scale == pow10((6 - fr.len()) as nat));
                assert(frac_millionths(fr) == dec_val(fr) * pow10((6 - fr.len()) as nat));
            }
            assert(digits * scale == frac_millionths(fr));
        }
        let millionths: u32 = (digits as u32) * (scale as u32);
        proof {
            assert(valid_decimal(sub));
            assert(decimal_fits(sub));
            assert(int_text(sub) =~= sub.take(dot - from));
            assert(frac_text(sub) =~= fr);
            assert(decimal_of(sub).units == units);
            assert(decimal_of(sub).millionths == millionths);
        }
        Some(Decimal { units, millionths })
    }
}

} // verus!
