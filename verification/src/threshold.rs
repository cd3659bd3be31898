//! The renewal threshold: the fraction of a lease after which renewal starts.
//!
//! The fraction is kept exactly, as the digits behind the decimal point, so
//! that the delay computed from it is the mathematical product, rounded down.

use vstd::arithmetic::div_mod::{lemma_div_denominator, lemma_hoist_over_denominator};
use vstd::prelude::*;
use vstd::string::*;

verus! {

/// Whether `c` is one of `0` to `9`.
pub open spec fn is_digit(c: char) -> bool {
    '0' <= c <= '9'
}

/// The number that the digit `c` stands for.
pub open spec fn digit_value(c: char) -> u8
    recommends
        is_digit(c),
{
    (c as u32 - '0' as u32) as u8
}

/// How many digits `s` starts with.
pub open spec fn leading_digits(s: Seq<char>) -> nat
    decreases s.len(),
{
    if s.len() > 0 && is_digit(s.first()) {
        1 + leading_digits(s.drop_first())
    } else {
        0
    }
}

/// Whether every character of `s` is a digit.
pub open spec fn all_digits(s: Seq<char>) -> bool {
    forall|i: int| 0 <= i < s.len() ==> is_digit(#[trigger] s[i])
}

/// The numbers that the digits `s` stand for.
pub open spec fn digit_values(s: Seq<char>) -> Seq<u8> {
    Seq::new(s.len(), |i: int| digit_value(s[i]))
}

/// A number in decimal notation, taken apart: its sign, the digits before
/// the point, and the digits behind it.
pub struct Decimal {
    pub negative: bool,
    pub whole: Seq<char>,
    pub fraction: Seq<char>,
}

/// The parts of `s`, where `s` is a number in decimal notation: an optional
/// `-`, one or more digits, and then nothing or a point with any number of
/// digits.  `None` for every other text.
pub open spec fn read_decimal(s: Seq<char>) -> Option<Decimal> {
    let negative = s.len() > 0 && s.first() == '-';
    let body = if negative {
        s.drop_first()
    } else {
        s
    };
    let n = leading_digits(body) as int;
    let whole = body.subrange(0, n);
    let rest = body.subrange(n, body.len() as int);
    if n == 0 {
        None
    } else if rest.len() == 0 {
        Some(Decimal { negative, whole, fraction: Seq::empty() })
    } else if rest.first() == '.' && all_digits(rest.drop_first()) {
        Some(Decimal { negative, whole, fraction: rest.drop_first() })
    } else {
        None
    }
}

/// Ten to the power `n`.
pub open spec fn pow10(n: nat) -> nat
    decreases n,
{
    if n == 0 {
        1
    } else {
        10 * pow10((n - 1) as nat)
    }
}

/// The digits read as one natural number, the first digit weighing most.
pub open spec fn numerator(digits: Seq<u8>) -> nat
    decreases digits.len(),
{
    if digits.len() == 0 {
        0
    } else {
        digits.first() as nat * pow10((digits.len() - 1) as nat) + numerator(digits.drop_first())
    }
}

/// `amount` times the fraction `0.d1 d2 ..`, rounded down.
pub open spec fn scaled(amount: nat, digits: Seq<u8>) -> nat {
    (amount * numerator(digits)) / pow10(digits.len())
}

/// The number that `d` denotes, times ten to the count of its digits behind
/// the point: an integer.
pub open spec fn shifted_value(d: Decimal) -> int {
    let magnitude = numerator(digit_values(d.whole)) * pow10(d.fraction.len()) + numerator(
        digit_values(d.fraction),
    );
    if d.negative {
        -magnitude
    } else {
        magnitude as int
    }
}

/// Whether the number that `d` denotes is at least 0 and less than 1.
pub open spec fn in_unit_interval(d: Decimal) -> bool {
    0 <= shifted_value(d) < pow10(d.fraction.len())
}

/// The digits behind the point, where `s` is the decimal notation of a number
/// that is at least 0 and less than 1; `None` for every other text.
pub open spec fn decimal_fraction(s: Seq<char>) -> Option<Seq<u8>> {
    match read_decimal(s) {
        Some(d) => if in_unit_interval(d) {
            Some(digit_values(d.fraction))
        } else {
            None
        },
        None => None,
    }
}

/// A fraction that is at least 0 and less than 1.
#[derive(Debug)]
pub struct RenewalThreshold {
    digits: Vec<u8>,
}

impl View for RenewalThreshold {
    type V = Seq<u8>;

    /// The digits behind the decimal point.
    closed spec fn view(&self) -> Seq<u8> {
        self.digits@
    }
}

proof fn lemma_pow10_positive(n: nat)
    ensures
        pow10(n) > 0,
    decreases n,
{
    if n > 0 {
        lemma_pow10_positive((n - 1) as nat);
    }
}

proof fn lemma_leading_digits_exact(s: Seq<char>, k: int)
    requires
        0 <= k <= s.len(),
        forall|j: int| 0 <= j < k ==> is_digit(#[trigger] s[j]),
        k == s.len() || !is_digit(s[k]),
    ensures
        leading_digits(s) == k,
    decreases k,
{
    if k > 0 {
        let t = s.drop_first();
        assert(is_digit(s[0]));
        assert forall|j: int| 0 <= j < k - 1 implies is_digit(#[trigger] t[j]) by {
            assert(t[j] == s[j + 1]);
        }
        lemma_leading_digits_exact(t, k - 1);
    }
}

proof fn lemma_leading_digits_at_least(s: Seq<char>, k: int)
    requires
        0 <= k <= s.len(),
        forall|j: int| 0 <= j < k ==> is_digit(#[trigger] s[j]),
    ensures
        leading_digits(s) >= k,
        leading_digits(s) <= s.len(),
        forall|j: int| 0 <= j < leading_digits(s) ==> is_digit(#[trigger] s[j]),
    decreases s.len(),
{
    if s.len() > 0 && is_digit(s.first()) {
        let t = s.drop_first();
        let m = if k > 0 {
            k - 1
        } else {
            0
        };
        assert forall|j: int| 0 <= j < m implies is_digit(#[trigger] t[j]) by {
            assert(t[j] == s[j + 1]);
        }
        lemma_leading_digits_at_least(t, m);
        assert forall|j: int| 0 <= j < leading_digits(s) implies is_digit(#[trigger] s[j]) by {
            if j > 0 {
                assert(s[j] == t[j - 1]);
            }
        }
    }
}

proof fn lemma_zeros_are_nothing(s: Seq<char>)
    requires
        forall|j: int| 0 <= j < s.len() ==> #[trigger] s[j] == '0',
    ensures
        numerator(digit_values(s)) == 0,
    decreases s.len(),
{
    let v = digit_values(s);
    if s.len() > 0 {
        assert(v.drop_first() == digit_values(s.drop_first()));
        lemma_zeros_are_nothing(s.drop_first());
        assert(v.first() == digit_value(s[0]));
        assert(v.first() as nat * pow10((v.len() - 1) as nat) == 0) by (nonlinear_arith)
            requires
                v.first() == 0,
        ;
    }
}

proof fn lemma_other_digit_is_something(s: Seq<char>, at: int)
    requires
        all_digits(s),
        0 <= at < s.len(),
        s[at] != '0',
    ensures
        numerator(digit_values(s)) > 0,
    decreases s.len(),
{
    let v = digit_values(s);
    assert(v.drop_first() == digit_values(s.drop_first()));
    assert(v.first() == digit_value(s[0]));
    lemma_pow10_positive((v.len() - 1) as nat);
    if at == 0 {
        assert(is_digit(s[0]));
        assert(v.first() >= 1);
        assert(v.first() as nat * pow10((v.len() - 1) as nat) > 0) by (nonlinear_arith)
            requires
                v.first() >= 1,
                pow10((v.len() - 1) as nat) > 0,
        ;
    } else {
        let t = s.drop_first();
        assert(t[at - 1] == s[at]);
        assert(all_digits(t)) by {
            assert forall|j: int| 0 <= j < t.len() implies is_digit(#[trigger] t[j]) by {
                assert(t[j] == s[j + 1]);
            }
        }
        lemma_other_digit_is_something(t, at - 1);
        assert(v.first() as nat * pow10((v.len() - 1) as nat) >= 0) by (nonlinear_arith);
    }
}

proof fn lemma_numerator_below_power(digits: Seq<u8>)
    requires
        forall|i: int| 0 <= i < digits.len() ==> #[trigger] digits[i] <= 9,
    ensures
        numerator(digits) < pow10(digits.len()),
    decreases digits.len(),
{
    if digits.len() > 0 {
        let tail = digits.drop_first();
        assert forall|i: int| 0 <= i < tail.len() implies #[trigger] tail[i] <= 9 by {
            assert(tail[i] == digits[i + 1]);
        }
        lemma_numerator_below_power(tail);
        let p = pow10(tail.len());
        assert(digits.first() as nat * p <= 9 * p) by (nonlinear_arith)
            requires
                digits.first() <= 9,
        ;
    }
}

proof fn lemma_digit_values_in_range(s: Seq<char>)
    requires
        all_digits(s),
    ensures
        forall|i: int| 0 <= i < digit_values(s).len() ==> #[trigger] digit_values(s)[i] <= 9,
{
    assert forall|i: int| 0 <= i < digit_values(s).len() implies #[trigger] digit_values(s)[i]
        <= 9 by {
        assert(is_digit(s[i]));
    }
}

/// A number with something before the point is not below 1.
proof fn lemma_whole_part_is_too_much(d: Decimal)
    requires
        numerator(digit_values(d.whole)) > 0,
    ensures
        !in_unit_interval(d),
{
    let w = numerator(digit_values(d.whole));
    let p = pow10(d.fraction.len());
    lemma_pow10_positive(d.fraction.len());
    assert(w * p >= p) by (nonlinear_arith)
        requires
            w >= 1,
            p > 0,
    ;
}

/// A number without anything before the point lies in the interval unless
/// it is negative.
proof fn lemma_fraction_alone(d: Decimal)
    requires
        numerator(digit_values(d.whole)) == 0,
        all_digits(d.fraction),
    ensures
        in_unit_interval(d) <==> (!d.negative || numerator(digit_values(d.fraction)) == 0),
{
    let w = numerator(digit_values(d.whole));
    let p = pow10(d.fraction.len());
    lemma_pow10_positive(d.fraction.len());
    lemma_digit_values_in_range(d.fraction);
    lemma_numerator_below_power(digit_values(d.fraction));
    assert(w * p == 0) by (nonlinear_arith)
        requires
            w == 0,
    ;
}

/// One step of the division, digit by digit from the right.
proof fn lemma_scaled_step(amount: nat, digits: Seq<u8>, carried: nat)
    requires
        digits.len() > 0,
        carried == scaled(amount, digits.drop_first()),
    ensures
        (digits.first() as nat * amount + carried) / 10 == scaled(amount, digits),
{
    let a = digits.first() as nat;
    let tail = digits.drop_first();
    let p = pow10(tail.len());
    lemma_pow10_positive(tail.len());
    let n = numerator(tail);
    assert(numerator(digits) == a * p + n);
    assert(pow10(digits.len()) == 10 * p);
    assert(amount * (a * p + n) == amount * n + (a * amount) * p) by (nonlinear_arith);
    lemma_hoist_over_denominator((amount * n) as int, (a * amount) as int, p);
    assert(0 <= amount * (a * p + n)) by (nonlinear_arith);
    lemma_div_denominator((amount * (a * p + n)) as int, p as int, 10);
    assert(p * 10 == 10 * p);
}

/// Threshold bounds.  What is read as a threshold is a fraction of the
/// lease: every digit is a digit, and the number they spell behind the point
/// is less than 1.
pub proof fn threshold_is_a_fraction(text: Seq<char>)
    requires
        decimal_fraction(text) is Some,
    ensures
        forall|i: int|
            0 <= i < decimal_fraction(text)->0.len() ==> #[trigger] decimal_fraction(text)->0[i]
                <= 9,
        numerator(decimal_fraction(text)->0) < pow10(decimal_fraction(text)->0.len()),
{
    let d = read_decimal(text)->0;
    lemma_digit_values_in_range(d.fraction);
    lemma_numerator_below_power(digit_values(d.fraction));
}

/// Renewal starts while the lease is still running: the delay is never more
/// than the lease, and less than it unless the lease is nothing.
pub proof fn renewal_starts_within_the_lease(lease: nat, digits: Seq<u8>)
    requires
        forall|i: int| 0 <= i < digits.len() ==> #[trigger] digits[i] <= 9,
    ensures
        scaled(lease, digits) <= lease,
        lease > 0 ==> scaled(lease, digits) < lease,
{
    lemma_numerator_below_power(digits);
    lemma_pow10_positive(digits.len());
    let n = numerator(digits);
    let p = pow10(digits.len());
    assert((lease * n) / p <= lease && (lease > 0 ==> (lease * n) / p < lease))
        by (nonlinear_arith)
        requires
            n < p,
            p > 0,
    ;
}

impl RenewalThreshold {
    #[verifier::type_invariant]
    spec fn digits_in_range(&self) -> bool {
        forall|i: int| 0 <= i < self.digits@.len() ==> #[trigger] self.digits@[i] <= 9
    }

    /// Reads a threshold from decimal notation.  `Some` exactly for the
    /// notations of numbers that are at least 0 and less than 1.
    #[verifier::loop_isolation(false)]
    pub fn from_decimal(text: &str) -> (parsed: Option<RenewalThreshold>)
        ensures
            match parsed {
                Some(threshold) => decimal_fraction(text@) == Some(threshold@),
                None => decimal_fraction(text@) is None,
            },
    {
        let n: usize = text.unicode_len();
        let negative: bool = n > 0 && text.get_char(0) == '-';
        let start: usize = if negative {
            1
        } else {
            0
        };
        let ghost body = if negative {
            text@.drop_first()
        } else {
            text@
        };
        let mut i: usize = start;
        while i < n && text.get_char(i) == '0'
            invariant
                start <= i <= n,
                forall|j: int| 0 <= j < i - start ==> #[trigger] body[j] == '0',
            decreases n - i,
        {
            assert(body[i - start] == text@[i as int]);
            i = i + 1;
        }
        let ghost zeros = i - start;
        proof {
            assert(i < n ==> body[zeros] == text@[i as int]);
            assert forall|j: int| 0 <= j < zeros implies is_digit(#[trigger] body[j]) by {
                assert(body[j] == '0');
            }
            lemma_leading_digits_at_least(body, zeros);
        }
        let ghost digits = leading_digits(body) as int;
        let ghost whole = body.subrange(0, digits);
        if i == start || i == n || text.get_char(i) != '.' {
            if i < n || i == start {
                proof {
                    // What follows the zeros is no point: the notation is broken,
                    // or a digit other than zero stands before the point.
                    if digits > zeros {
                        assert(is_digit(body[zeros]));
                        assert(whole[zeros] == body[zeros]);
                        assert(all_digits(whole)) by {
                            assert forall|j: int| 0 <= j < whole.len() implies is_digit(
                                #[trigger] whole[j],
                            ) by {
                                assert(whole[j] == body[j]);
                            }
                        }
                        lemma_other_digit_is_something(whole, zeros);
                        if read_decimal(text@) is Some {
                            lemma_whole_part_is_too_much(read_decimal(text@)->0);
                        }
                    } else {
                        assert(i < n ==> body.subrange(digits, body.len() as int).first()
                            == body[zeros]);
                    }
                }
                return None;
            }
            proof {
                lemma_leading_digits_exact(body, zeros);
                assert forall|j: int| 0 <= j < whole.len() implies #[trigger] whole[j] == '0' by {
                    assert(whole[j] == body[j]);
                }
                lemma_zeros_are_nothing(whole);
                let d = Decimal { negative, whole, fraction: Seq::empty() };
                assert(all_digits(d.fraction));
                lemma_zeros_are_nothing(d.fraction);
                lemma_fraction_alone(d);
                assert(digit_values(d.fraction) == Seq::<u8>::empty());
            }
            let threshold = RenewalThreshold { digits: Vec::new() };
            assert(threshold@ == Seq::<u8>::empty());
            return Some(threshold);
        }
        let first: usize = i + 1;
        let ghost rest = body.subrange(zeros, body.len() as int);
        let ghost shown = rest.drop_first();
        proof {
            assert(!is_digit('.'));
            lemma_leading_digits_exact(body, zeros);
            assert(rest.first() == '.');
            assert forall|j: int| 0 <= j < whole.len() implies #[trigger] whole[j] == '0' by {
                assert(whole[j] == body[j]);
            }
            lemma_zeros_are_nothing(whole);
        }
        let mut digits_read: Vec<u8> = Vec::new();
        let mut k: usize = first;
        while k < n
            invariant
                first <= k <= n,
                shown.len() == n - first,
                forall|j: int| 0 <= j < shown.len() ==> shown[j] == text@[j + first],
                digits_read@.len() == k - first,
                forall|j: int| 0 <= j < k - first ==> is_digit(#[trigger] shown[j]),
                forall|j: int| 0 <= j < k - first ==> digits_read@[j] == digit_value(shown[j]),
                forall|j: int| 0 <= j < k - first ==> #[trigger] digits_read@[j] <= 9,
                negative ==> forall|j: int| 0 <= j < k - first ==> #[trigger] shown[j] == '0',
            decreases n - k,
        {
            let c: char = text.get_char(k);
            assert(shown[k - first] == c);
            if c < '0' || c > '9' {
                assert(!is_digit(shown[k - first]));
                return None;
            }
            if negative && c != '0' {
                proof {
                    if all_digits(shown) {
                        let d = Decimal { negative, whole, fraction: shown };
                        lemma_other_digit_is_something(shown, k - first);
                        lemma_fraction_alone(d);
                    }
                }
                return None;
            }
            let d: u8 = (c as u32 - '0' as u32) as u8;
            digits_read.push(d);
            k = k + 1;
        }
        proof {
            let d = Decimal { negative, whole, fraction: shown };
            assert(all_digits(shown));
            if negative {
                lemma_zeros_are_nothing(shown);
            }
            lemma_fraction_alone(d);
        }
        let threshold = RenewalThreshold { digits: digits_read };
        assert(threshold@ == digit_values(shown));
        Some(threshold)
    }

    /// The part of `lease_secs` that passes before renewal starts: the lease
    /// times the threshold, in whole seconds, rounded down.
    pub fn renew_after(&self, lease_secs: u64) -> (delay: u64)
        ensures
            delay == scaled(lease_secs as nat, self@),
            delay <= lease_secs,
    {
        proof {
            use_type_invariant(self);
        }
        let mut carried: u64 = 0;
        let mut i: usize = self.digits.len();
        proof {
            let none = self.digits@.subrange(i as int, self.digits@.len() as int);
            assert(none == Seq::<u8>::empty());
            assert(lease_secs as nat * numerator(none) == 0) by (nonlinear_arith)
                requires
                    numerator(none) == 0,
            ;
        }
        while i > 0
            invariant
                i <= self.digits@.len(),
                forall|j: int| 0 <= j < self.digits@.len() ==> #[trigger] self.digits@[j] <= 9,
                carried <= lease_secs,
                carried == scaled(
                    lease_secs as nat,
                    self.digits@.subrange(i as int, self.digits@.len() as int),
                ),
            decreases i,
        {
            i = i - 1;
            let digit: u8 = self.digits[i];
            let ghost suffix = self.digits@.subrange(i as int, self.digits@.len() as int);
            proof {
                assert(suffix.first() == digit);
                assert(suffix.drop_first() == self.digits@.subrange(
                    i + 1,
                    self.digits@.len() as int,
                ));
                lemma_scaled_step(lease_secs as nat, suffix, carried as nat);
                assert(digit as nat * lease_secs as nat <= 9 * lease_secs as nat)
                    by (nonlinear_arith)
                    requires
                        digit <= 9,
                ;
            }
            let total: u128 = digit as u128 * lease_secs as u128 + carried as u128;
            carried = (total / 10) as u64;
        }
        assert(self.digits@.subrange(0, self.digits@.len() as int) == self.digits@);
        carried
    }
}

impl Clone for RenewalThreshold {
    fn clone(&self) -> (copy: RenewalThreshold)
        ensures
            copy@ == self@,
    {
        proof {
            use_type_invariant(self);
        }
        let mut digits: Vec<u8> = Vec::new();
        let mut i: usize = 0;
        while i < self.digits.len()
            invariant
                i <= self.digits@.len(),
                digits@ == self.digits@.subrange(0, i as int),
                forall|j: int| 0 <= j < self.digits@.len() ==> #[trigger] self.digits@[j] <= 9,
            decreases self.digits@.len() - i,
        {
            digits.push(self.digits[i]);
            i = i + 1;
            assert(digits@ == self.digits@.subrange(0, i as int));
        }
        assert(digits@ == self.digits@);
        RenewalThreshold { digits }
    }
}

} // verus!
