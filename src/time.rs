use vstd::prelude::*;
use vstd::arithmetic::div_mod::{lemma_div_denominator, lemma_hoist_over_denominator};

use crate::error::InquisitorError;

verus! {

/// Microseconds in a second, a minute and an hour.
pub const MICROS_PER_SECOND: u64 = 1_000_000;

pub const MICROS_PER_MINUTE: u64 = 60_000_000;

pub const MICROS_PER_HOUR: u64 = 3_600_000_000;

pub open spec fn is_digit(c: char) -> bool {
    48 <= c as u32 && c as u32 <= 57
}

pub open spec fn digit_value(c: char) -> nat {
    (c as u32 - 48) as nat
}

pub open spec fn all_digits(s: Seq<char>) -> bool {
    forall|i: int| 0 <= i < s.len() ==> #[trigger] is_digit(s[i])
}

/// The number written by the decimal digits `s` (0 for no digits).
pub open spec fn digits_value(s: Seq<char>) -> nat
    decreases s.len(),
{
    if s.len() == 0 {
        0
    } else {
        10 * digits_value(s.drop_last()) + digit_value(s.last())
    }
}

pub open spec fn pow10(n: nat) -> nat
    decreases n,
{
    if n == 0 {
        1
    } else {
        10 * pow10((n - 1) as nat)
    }
}

/// The number of digits at the start of `s`.
pub open spec fn leading_digits(s: Seq<char>) -> nat
    decreases s.len(),
{
    if s.len() > 0 && is_digit(s[0]) {
        1 + leading_digits(s.drop_first())
    } else {
        0
    }
}

/// Microseconds in one of the time units `s`, `m` and `h`.
pub open spec fn unit_micros(c: char) -> Option<nat> {
    if c == 's' {
        Some(MICROS_PER_SECOND as nat)
    } else if c == 'm' {
        Some(MICROS_PER_MINUTE as nat)
    } else if c == 'h' {
        Some(MICROS_PER_HOUR as nat)
    } else {
        None
    }
}

/// The digits before the decimal point of a duration text.
pub open spec fn integer_digits(s: Seq<char>) -> Seq<char> {
    s.drop_last().take(leading_digits(s.drop_last()) as int)
}

/// The digits after the decimal point of a duration text (none where it has
/// no decimal point).
pub open spec fn fraction_digits(s: Seq<char>) -> Seq<char> {
    let n = s.drop_last();
    let p = leading_digits(n) as int;
    if p == n.len() {
        Seq::empty()
    } else {
        n.skip(p + 1)
    }
}

/// A duration text: one or more digits, optionally a decimal point and one or
/// more digits, then a unit `s`, `m` or `h`, and nothing else.
pub open spec fn is_duration_text(s: Seq<char>) -> bool {
    let n = s.drop_last();
    let p = leading_digits(n) as int;
    &&& s.len() >= 2
    &&& unit_micros(s.last()) is Some
    &&& p > 0
    &&& (p == n.len() || (n[p] == '.' && p + 1 < n.len() && all_digits(n.skip(p + 1))))
}

/// The duration that a duration text denotes, in whole microseconds rounded
/// down, and capped at `u64::MAX`.
pub open spec fn duration_micros(s: Seq<char>) -> nat {
    let mul = unit_micros(s.last()).unwrap();
    let f = fraction_digits(s);
    let exact = digits_value(integer_digits(s)) * mul + (digits_value(f) * mul) / pow10(f.len());
    if exact > u64::MAX {
        u64::MAX as nat
    } else {
        exact
    }
}

proof fn lemma_pow10_positive(n: nat)
    ensures
        pow10(n) > 0,
    decreases n,
{
    if n > 0 {
        lemma_pow10_positive((n - 1) as nat);
    }
}

/// A digit in front of `s` adds its value times `10^|s|`.
proof fn lemma_digits_value_prepend(c: char, s: Seq<char>)
    ensures
        digits_value(seq![c] + s) == digit_value(c) * pow10(s.len()) + digits_value(s),
    decreases s.len(),
{
    let cs = seq![c] + s;
    if s.len() == 0 {
        assert(cs.drop_last() =~= Seq::<char>::empty());
        assert(cs.last() == c);
        assert(digits_value(cs) == 10 * digits_value(Seq::<char>::empty()) + digit_value(c));
    } else {
        let t = s.drop_last();
        assert(cs.drop_last() =~= seq![c] + t);
        lemma_digits_value_prepend(c, t);
        assert(cs.last() == s.last());
        let p = pow10(t.len());
        assert(pow10(s.len()) == 10 * p);
        assert(digits_value(cs) == 10 * digits_value(seq![c] + t) + digit_value(s.last()));
        assert(digits_value(s) == 10 * digits_value(t) + digit_value(s.last()));
        assert(10 * (digit_value(c) * p + digits_value(t)) == digit_value(c) * (10 * p) + 10
            * digits_value(t)) by (nonlinear_arith);
    }
}

/// Where `i` digits open `s` and none follows them, `leading_digits(s) == i`.
proof fn lemma_leading_digits(s: Seq<char>, i: int)
    requires
        0 <= i <= s.len(),
        forall|j: int| 0 <= j < i ==> #[trigger] is_digit(s[j]),
        i == s.len() || !is_digit(s[i]),
    ensures
        leading_digits(s) == i,
    decreases i,
{
    if i > 0 {
        let t = s.drop_first();
        assert forall|j: int| 0 <= j < i - 1 implies #[trigger] is_digit(t[j]) by {
            assert(is_digit(s[j + 1]));
        }
        assert(is_digit(s[0]));
        lemma_leading_digits(t, i - 1);
    }
}

/// One step of the right-to-left evaluation of a fraction: prepending digit
/// `c` to the suffix `s` turns `y`, the microseconds of `0.s`, into
/// `(c * mul + y) / 10`.
proof fn lemma_fraction_step(c: char, s: Seq<char>, mul: nat, y: nat)
    requires
        y == (digits_value(s) * mul) / pow10(s.len()),
    ensures
        (digits_value(seq![c] + s) * mul) / pow10((seq![c] + s).len()) == (digit_value(c) * mul
            + y) / 10,
{
    let p = pow10(s.len());
    lemma_pow10_positive(s.len());
    lemma_digits_value_prepend(c, s);
    assert((seq![c] + s).len() == s.len() + 1);
    assert(pow10(s.len() + 1) == 10 * p);
    let a = digit_value(c) * mul;
    let b = digits_value(s) * mul;
    assert(digits_value(seq![c] + s) * mul == a * p + b) by (nonlinear_arith)
        requires
            digits_value(seq![c] + s) == digit_value(c) * p + digits_value(s),
            a == digit_value(c) * mul,
            b == digits_value(s) * mul,
    ;
    lemma_div_denominator((a * p + b) as int, p as int, 10);
    lemma_hoist_over_denominator(b as int, a as int, p);
    assert(a * p == (a as int) * (p as int));
    assert(10 * p == (p as int) * 10);
}

fn char_is_digit(c: char) -> (r: bool)
    ensures
        r == is_digit(c),
{
    let u = c as u32;
    48 <= u && u <= 57
}

/// Parses a duration such as `10s`, `1.5m` or `20h` into microseconds: a
/// decimal number followed by a unit, seconds (`s`), minutes (`m`) or hours
/// (`h`). Sub-microsecond parts are dropped; a duration beyond `u64::MAX`
/// microseconds gives `u64::MAX`.
pub fn parse_duration(duration: &str) -> (r: Result<u64, InquisitorError>)
    ensures
        r is Ok <==> is_duration_text(duration@),
        r matches Ok(us) ==> us == duration_micros(duration@),
        r matches Err(e) ==> e == InquisitorError::DurationParseError,
{
    let len = duration.unicode_len();
    if len < 2 {
        return Err(InquisitorError::DurationParseError);
    }
    let ghost s = duration@;
    let ghost n = s.drop_last();
    let end: usize = len - 1;
    let unit = duration.get_char(end);
    let mul: u64 = if unit == 's' {
        MICROS_PER_SECOND
    } else if unit == 'm' {
        MICROS_PER_MINUTE
    } else if unit == 'h' {
        MICROS_PER_HOUR
    } else {
        return Err(InquisitorError::DurationParseError);
    };
    assert(unit_micros(s.last()) == Some(mul as nat));

    // Integer part, left to right, saturating into `big`.
    let mut i: usize = 0;
    let mut acc: u64 = 0;
    let mut big = false;
    while i < end && char_is_digit(duration.get_char(i))
        invariant
            end == n.len(),
            n == duration@.drop_last(),
            s == duration@,
            s.len() == len,
            end == len - 1,
            0 <= i <= end,
            forall|j: int| 0 <= j < i ==> #[trigger] is_digit(n[j]),
            big ==> digits_value(n.take(i as int)) > u64::MAX,
            !big ==> acc == digits_value(n.take(i as int)),
        decreases end - i,
    {
        let c = duration.get_char(i);
        let d: u64 = (c as u32 - 48) as u64;
        proof {
            assert(n[i as int] == c);
            assert(n.take(i + 1).drop_last() =~= n.take(i as int));
            assert(n.take(i + 1).last() == c);
        }
        if !big {
            if acc > (u64::MAX - d) / 10 {
                big = true;
            } else {
                acc = acc * 10 + d;
            }
        }
        i = i + 1;
    }
    proof {
        lemma_leading_digits(n, i as int);
    }
    if i == 0 {
        return Err(InquisitorError::DurationParseError);
    }

    // Fraction part, right to left: `y` is the microseconds of the digits
    // from `j` up to the unit, read as a fraction.
    let mut y: u64 = 0;
    if i < end {
        if duration.get_char(i) != '.' || i + 1 >= end {
            return Err(InquisitorError::DurationParseError);
        }
        let mut j: usize = end;
        proof {
            assert(n.subrange(j as int, end as int) =~= Seq::<char>::empty());
            assert(digits_value(Seq::<char>::empty()) == 0);
            assert(pow10(0) == 1);
        }
        while j > i + 1
            invariant
                end == n.len(),
                n == duration@.drop_last(),
                s == duration@,
                end == len - 1,
                s.len() == len,
                leading_digits(n) == i,
                i + 1 < end,
                i + 1 <= j <= end,
                all_digits(n.subrange(j as int, end as int)),
                y as nat == (digits_value(n.subrange(j as int, end as int)) * (mul as nat)) / pow10(
                    (end - j) as nat,
                ),
                y < mul,
                mul <= MICROS_PER_HOUR,
            decreases j,
        {
            let c = duration.get_char(j - 1);
            if !char_is_digit(c) {
                proof {
                    assert(n[j - 1] == c);
                    assert(n.skip(i + 1)[j - 1 - (i + 1)] == c);
                    assert(!is_digit(n.skip(i + 1)[j - 1 - (i + 1)]));
                    assert(!all_digits(n.skip(i + 1)));
                    assert(leading_digits(n) == i);
                }
                return Err(InquisitorError::DurationParseError);
            }
            let d: u64 = (c as u32 - 48) as u64;
            let ghost suffix = n.subrange(j as int, end as int);
            proof {
                assert(n[j - 1] == c);
                assert(n.subrange(j - 1, end as int) =~= seq![c] + suffix);
                lemma_fraction_step(c, suffix, mul as nat, y as nat);
                assert(d * mul + y < 10 * mul) by (nonlinear_arith)
                    requires
                        d <= 9,
                        y < mul,
                ;
                assert(d * mul <= 9 * MICROS_PER_HOUR) by (nonlinear_arith)
                    requires
                        d <= 9,
                        mul <= MICROS_PER_HOUR,
                ;
                assert(all_digits(n.subrange(j - 1, end as int))) by {
                    assert forall|k: int| 0 <= k < end - (j - 1) implies #[trigger] is_digit(
                        n.subrange(j - 1, end as int)[k],
                    ) by {
                        if k > 0 {
                            assert(n.subrange(j - 1, end as int)[k] == suffix[k - 1]);
                        }
                    }
                }
            }
            y = (d * mul + y) / 10;
            j = j - 1;
        }
        proof {
            assert(j == i + 1);
            assert(n.subrange(j as int, end as int) =~= n.skip(i + 1));
            assert(fraction_digits(s) =~= n.skip(i + 1));
            assert(fraction_digits(s).len() == end - j);
        }
    } else {
        proof {
            let f = fraction_digits(s);
            assert(f =~= Seq::<char>::empty());
            assert(digits_value(f) == 0);
            assert(pow10(f.len()) == 1);
            assert(digits_value(f) * (mul as nat) == 0) by (nonlinear_arith)
                requires
                    digits_value(f) == 0,
            ;
            assert(y as nat == (digits_value(fraction_digits(s)) * (mul as nat)) / pow10(
                fraction_digits(s).len(),
            ));
        }
    }
    proof {
        assert(integer_digits(s) =~= n.take(i as int));
        assert(y as nat == (digits_value(fraction_digits(s)) * (mul as nat)) / pow10(
            fraction_digits(s).len(),
        ));
    }
    if big {
        proof {
            assert(digits_value(integer_digits(s)) * mul >= digits_value(integer_digits(s)))
                by (nonlinear_arith)
                requires
                    mul >= 1,
            ;
        }
        return Ok(u64::MAX);
    }
    assert(acc as u128 * mul as u128 + y as u128 <= u64::MAX as u128 * MICROS_PER_HOUR as u128
        + u64::MAX as u128) by (nonlinear_arith)
        requires
            mul <= MICROS_PER_HOUR,
    ;
    let total: u128 = acc as u128 * mul as u128 + y as u128;
    if total > u64::MAX as u128 {
        Ok(u64::MAX)
    } else {
        Ok(total as u64)
    }
}

} // verus!
