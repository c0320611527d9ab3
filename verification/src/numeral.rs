//! Decimal numerals, read to their whole part.
//!
//! The remote service sometimes sends a timestamp as text: the number in
//! quotes, now and then with a fraction behind it. This module states which
//! texts are numerals and what the whole part of a numeral is, and proves the
//! reader against that statement.
//!
//! A numeral is written as a floating-point number is: sign, digits, point,
//! digits, exponent. The names of the values that are no numbers (`inf`,
//! `nan`) are no numerals. Nothing here rounds: the whole part of a numeral
//! is exact, cut off toward zero.

use crate::text::{decimal, digit, digit_char, digit_of, digits, is_digit};
use vstd::prelude::*;

verus! {

/// The largest magnitude that a 64-bit signed integer holds, two to the
/// power 63.
pub const LIMIT: u64 = 9223372036854775808;

/// The bound past which the magnitude of an exponent is no longer counted.
pub const EXPONENT_CAP: u128 = 1000000000000000000000000000000;

/// Ten to the power `n`.
pub open spec fn pow10(n: nat) -> nat
    decreases n,
{
    if n == 0 {
        1
    } else {
        10 * pow10((n - 1) as nat)
    }
}

/// The digit that `c` writes. A character that is no digit counts as zero.
pub open spec fn digit_or_zero(c: char) -> nat {
    match digit_of(c) {
        Some(d) => d,
        None => 0,
    }
}

/// The number that comes of writing the digits of `chunk` behind the number
/// `before`.
pub open spec fn appended(before: nat, chunk: Seq<char>) -> nat
    decreases chunk.len(),
{
    if chunk.len() == 0 {
        before
    } else {
        appended(before, chunk.drop_last()) * 10 + digit_or_zero(chunk.last())
    }
}

/// The number that a sequence of digits writes in base ten.
pub open spec fn digits_value(s: Seq<char>) -> nat {
    appended(0, s)
}

/// The end of the run of digits that starts at `from`: the first position at
/// or after `from` that holds no digit, or the length of `s`.
pub open spec fn digit_run(s: Seq<char>, from: int) -> int
    decreases s.len() - from,
{
    if 0 <= from < s.len() && is_digit(s[from]) {
        digit_run(s, from + 1)
    } else {
        from
    }
}

/// The length of the sign at position `at`: one for `-` or `+`, else zero.
pub open spec fn sign_len(s: Seq<char>, at: int) -> int {
    if 0 <= at < s.len() && (s[at] == '-' || s[at] == '+') {
        1
    } else {
        0
    }
}

/// Whether a minus sign stands at position `at`.
pub open spec fn minus_at(s: Seq<char>, at: int) -> bool {
    0 <= at < s.len() && s[at] == '-'
}

/// Where the parts of a numeral lie in a text.
pub struct Shape {
    /// Where the whole digits start, behind the sign.
    pub start: int,
    /// Where the whole digits end.
    pub point: int,
    /// Where the fraction digits start: behind the point, or at `point`
    /// where the text has none.
    pub fraction: int,
    /// Where the fraction digits end.
    pub mark: int,
}

/// The positions that divide a text into sign, whole digits, point and
/// fraction digits.
pub open spec fn shape(s: Seq<char>) -> Shape {
    let start = sign_len(s, 0);
    let point = digit_run(s, start);
    let fraction = if point < s.len() && s[point] == '.' {
        point + 1
    } else {
        point
    };
    Shape { start, point, fraction, mark: digit_run(s, fraction) }
}

/// The digits of a text before its exponent: whole digits, then fraction
/// digits.
pub open spec fn mantissa(s: Seq<char>) -> Seq<char> {
    let at = shape(s);
    s.subrange(at.start, at.point) + s.subrange(at.fraction, at.mark)
}

/// The exponent that follows the mantissa: zero where the text ends there;
/// else `e` or `E`, an optional sign and at least one digit up to the end of
/// the text. `None` where something else follows.
pub open spec fn exponent(s: Seq<char>) -> Option<int> {
    let mark = shape(s).mark;
    if mark == s.len() {
        Some(0)
    } else if s[mark] == 'e' || s[mark] == 'E' {
        let first = mark + 1 + sign_len(s, mark + 1);
        let magnitude = digits_value(s.subrange(first, s.len() as int));
        if first < s.len() && digit_run(s, first) == s.len() {
            Some(
                if minus_at(s, mark + 1) {
                    -magnitude
                } else {
                    magnitude as int
                },
            )
        } else {
            None
        }
    } else {
        None
    }
}

/// The whole part of the number that the digits `m` write with the point
/// behind the first `k` of them: nothing for `k` below one, zeros appended
/// for `k` beyond the digits.
pub open spec fn shifted(m: Seq<char>, k: int) -> nat {
    if k <= 0 {
        0
    } else if k <= m.len() {
        digits_value(m.take(k))
    } else {
        digits_value(m) * pow10((k - m.len()) as nat)
    }
}

/// The whole part of a decimal numeral, or `None` where `s` is no numeral.
///
/// A numeral is an optional sign, then digits with at most one point among
/// them or at either end, at least one digit in all, then optionally an
/// exponent; nothing stands before or after. Its value is the mantissa with
/// the point moved by the exponent, and its whole part is what stands before
/// the moved point, negated under a minus sign: the rest is cut off toward
/// zero.
pub open spec fn numeral(s: Seq<char>) -> Option<int> {
    let at = shape(s);
    let m = mantissa(s);
    match exponent(s) {
        Some(e) => if m.len() > 0 {
            let magnitude = shifted(m, at.point - at.start + e);
            Some(
                if minus_at(s, 0) {
                    -magnitude
                } else {
                    magnitude as int
                },
            )
        } else {
            None
        },
        None => None,
    }
}

/// What [`whole_number`] returns for the text `s`: the whole part of the
/// numeral, where there is one and a 64-bit signed integer holds it.
pub open spec fn whole_number_of(s: Seq<char>) -> Option<i64> {
    match numeral(s) {
        Some(n) => in_range(n),
        None => None,
    }
}

/// A number as a 64-bit signed integer, where one holds it.
pub open spec fn in_range(n: int) -> Option<i64> {
    if i64::MIN <= n <= i64::MAX {
        Some(n as i64)
    } else {
        None
    }
}

/// A stretch of digits that ends at the end of the text, or before a
/// character that is no digit, is a run of digits.
pub proof fn lemma_digit_run_ends(s: Seq<char>, from: int, to: int)
    requires
        0 <= from <= to <= s.len(),
        forall|i: int| from <= i < to ==> is_digit(#[trigger] s[i]),
        to == s.len() || !is_digit(s[to]),
    ensures
        digit_run(s, from) == to,
    decreases to - from,
{
    if from < to {
        lemma_digit_run_ends(s, from + 1, to);
    }
}

/// Digits written behind a number make it no smaller.
pub proof fn lemma_appended_grows(before: nat, chunk: Seq<char>)
    ensures
        appended(before, chunk) >= before,
    decreases chunk.len(),
{
    if chunk.len() > 0 {
        lemma_appended_grows(before, chunk.drop_last());
    }
}

/// Writing two chunks behind a number is writing their concatenation.
pub proof fn lemma_appended_concat(before: nat, first: Seq<char>, second: Seq<char>)
    ensures
        appended(before, first + second) == appended(appended(before, first), second),
    decreases second.len(),
{
    if second.len() == 0 {
        assert(first + second =~= first);
    } else {
        lemma_appended_concat(before, first, second.drop_last());
        assert((first + second).drop_last() =~= first + second.drop_last());
        assert((first + second).last() == second.last());
    }
}

/// A power of ten is positive, and grows with its exponent.
pub proof fn lemma_pow10_grows(n: nat, m: nat)
    requires
        n <= m,
    ensures
        1 <= pow10(n) <= pow10(m),
    decreases m,
{
    if m > 0 {
        if n < m {
            lemma_pow10_grows(n, (m - 1) as nat);
        } else {
            lemma_pow10_grows((n - 1) as nat, (m - 1) as nat);
        }
    }
}

/// Ten to the power 19 exceeds two to the power 63.
pub proof fn lemma_pow10_19()
    ensures
        pow10(19) == 10000000000000000000,
{
    reveal_with_fuel(pow10, 20);
}

/// A whole part of the mantissa's first digits alone does not depend on the
/// digits behind them.
pub proof fn lemma_shifted_within(whole: Seq<char>, part: Seq<char>, k: int)
    requires
        k <= whole.len(),
    ensures
        shifted(whole + part, k) == shifted(whole, k),
{
    if k > 0 {
        assert((whole + part).take(k) =~= whole.take(k));
    }
}

/// Reads the run of digits that starts at `from`.
fn scan_digits(text: &str, len: usize, from: usize) -> (to: usize)
    requires
        len == text@.len(),
        from <= len,
    ensures
        from <= to <= len,
        to == digit_run(text@, from as int),
{
    let mut i = from;
    while i < len
        invariant
            len == text@.len(),
            from <= i <= len,
            digit_run(text@, from as int) == digit_run(text@, i as int),
        ensures
            from <= i <= len,
            i == digit_run(text@, from as int),
        decreases len - i,
    {
        if digit(text.get_char(i)).is_none() {
            break ;
        }
        i = i + 1;
    }
    i
}

/// Writes the digits between `from` and `to` behind `before`. `None` where
/// the number exceeds [`LIMIT`].
fn accumulate(text: &str, len: usize, from: usize, to: usize, before: u64) -> (res: Option<u64>)
    requires
        len == text@.len(),
        from <= to <= len,
        before <= LIMIT,
    ensures
        match res {
            Some(value) => value == appended(
                before as nat,
                text@.subrange(from as int, to as int),
            ) && value <= LIMIT,
            None => appended(before as nat, text@.subrange(from as int, to as int)) > LIMIT,
        },
{
    let mut value = before;
    let mut i = from;
    assert(text@.subrange(from as int, from as int) =~= Seq::<char>::empty());
    while i < to
        invariant
            len == text@.len(),
            from <= i <= to <= len,
            value <= LIMIT,
            value == appended(before as nat, text@.subrange(from as int, i as int)),
        decreases to - i,
    {
        let d: u8 = match digit(text.get_char(i)) {
            Some(d) => d,
            None => 0,
        };
        proof {
            let longer = text@.subrange(from as int, i + 1);
            assert(longer.drop_last() =~= text@.subrange(from as int, i as int));
            assert(longer.last() == text@[i as int]);
        }
        let next: u128 = value as u128 * 10 + d as u128;
        if next > LIMIT as u128 {
            proof {
                let rest = text@.subrange(i + 1, to as int);
                assert(text@.subrange(from as int, i + 1) + rest =~= text@.subrange(
                    from as int,
                    to as int,
                ));
                lemma_appended_concat(before as nat, text@.subrange(from as int, i + 1), rest);
                lemma_appended_grows(next as nat, rest);
            }
            return None;
        }
        value = next as u64;
        i = i + 1;
    }
    Some(value)
}

/// Whether `res` holds the number `value`: the number itself where it does
/// not exceed [`LIMIT`], and nothing where it does.
pub open spec fn held(res: Option<u64>, value: nat) -> bool {
    match res {
        Some(kept) => kept == value && kept <= LIMIT,
        None => value > LIMIT,
    }
}

/// Whether `counted` is the magnitude of `e`, counted up to
/// [`EXPONENT_CAP`].
pub open spec fn counts(counted: u128, e: int) -> bool {
    let magnitude = if e < 0 {
        -e
    } else {
        e
    };
    &&& counted <= EXPONENT_CAP
    &&& counted < EXPONENT_CAP ==> counted == magnitude
    &&& counted == EXPONENT_CAP ==> magnitude >= EXPONENT_CAP
}

/// The positions of the parts of a numeral.
struct Parts {
    negative: bool,
    start: usize,
    point: usize,
    fraction: usize,
    mark: usize,
}

/// The exponent of a numeral: its sign, and its magnitude counted up to
/// [`EXPONENT_CAP`].
struct Exponent {
    negative: bool,
    counted: u128,
}

/// Finds sign, whole digits, point and fraction digits.
fn read_parts(text: &str, len: usize) -> (parts: Parts)
    requires
        len == text@.len(),
    ensures
        parts.start == shape(text@).start,
        parts.point == shape(text@).point,
        parts.fraction == shape(text@).fraction,
        parts.mark == shape(text@).mark,
        parts.negative == minus_at(text@, 0),
        parts.start <= parts.point <= parts.fraction <= parts.mark <= len,
{
    let mut negative = false;
    let mut start: usize = 0;
    if len > 0 {
        let first = text.get_char(0);
        if first == '-' {
            negative = true;
            start = 1;
        } else if first == '+' {
            start = 1;
        }
    }
    let point = scan_digits(text, len, start);
    let fraction = if point < len && text.get_char(point) == '.' {
        point + 1
    } else {
        point
    };
    let mark = scan_digits(text, len, fraction);
    Parts { negative, start, point, fraction, mark }
}

/// The number that the digits between `from` and the end of the text write,
/// counted up to [`EXPONENT_CAP`].
fn capped_value(text: &str, len: usize, from: usize) -> (value: u128)
    requires
        len == text@.len(),
        from <= len,
    ensures
        counts(value, digits_value(text@.subrange(from as int, len as int)) as int),
{
    let mut value: u128 = 0;
    let mut i = from;
    assert(text@.subrange(from as int, from as int) =~= Seq::<char>::empty());
    while i < len
        invariant
            len == text@.len(),
            from <= i <= len,
            counts(value, digits_value(text@.subrange(from as int, i as int)) as int),
        decreases len - i,
    {
        let d: u8 = match digit(text.get_char(i)) {
            Some(d) => d,
            None => 0,
        };
        proof {
            let longer = text@.subrange(from as int, i + 1);
            assert(longer.drop_last() =~= text@.subrange(from as int, i as int));
            assert(longer.last() == text@[i as int]);
        }
        if value < EXPONENT_CAP {
            let next: u128 = value * 10 + d as u128;
            value = if next > EXPONENT_CAP {
                EXPONENT_CAP
            } else {
                next
            };
        }
        i = i + 1;
    }
    value
}

/// Reads what follows the mantissa: nothing, or an exponent.
fn read_exponent(text: &str, len: usize, mark: usize) -> (res: Option<Exponent>)
    requires
        len == text@.len(),
        mark <= len,
        mark == shape(text@).mark,
    ensures
        match res {
            Some(read) => exponent(text@) matches Some(e) && counts(read.counted, e) && (
            read.negative ==> e <= 0) && (!read.negative ==> e >= 0),
            None => exponent(text@) is None,
        },
{
    if mark == len {
        return Some(Exponent { negative: false, counted: 0 });
    }
    let c = text.get_char(mark);
    if c != 'e' && c != 'E' {
        return None;
    }
    let mut negative = false;
    let mut first = mark + 1;
    if first < len {
        let sign = text.get_char(first);
        if sign == '-' {
            negative = true;
            first = first + 1;
        } else if sign == '+' {
            first = first + 1;
        }
    }
    if first >= len {
        return None;
    }
    if scan_digits(text, len, first) != len {
        return None;
    }
    Some(Exponent { negative, counted: capped_value(text, len, first) })
}

/// The whole part where the point moves to the left by the exponent `e`:
/// into the whole digits, or past them.
fn moved_left(text: &str, len: usize, start: usize, point: usize, counted: u128, Ghost(e): Ghost<
    int,
>) -> (res: Option<u64>)
    requires
        len == text@.len(),
        start <= point <= len,
        e <= 0,
        counts(counted, e),
    ensures
        held(res, shifted(text@.subrange(start as int, point as int), point - start + e)),
{
    let whole_len = point - start;
    if counted >= whole_len as u128 {
        return Some(0);
    }
    let kept = whole_len - counted as usize;
    proof {
        let whole = text@.subrange(start as int, point as int);
        assert(whole.take(kept as int) =~= text@.subrange(start as int, start + kept));
    }
    accumulate(text, len, start, start + kept, 0)
}

/// Appends zeros to a magnitude. `zeros` counts them up to a cap far above
/// what 64 bits hold; `true_zeros` is their number.
fn with_zeros(magnitude: u64, zeros: u128, Ghost(true_zeros): Ghost<nat>) -> (res: Option<u64>)
    requires
        magnitude <= LIMIT,
        zeros <= true_zeros,
        zeros <= 19 ==> zeros == true_zeros,
    ensures
        held(res, magnitude as nat * pow10(true_zeros)),
{
    if magnitude == 0 {
        assert(0 * pow10(true_zeros) == 0) by (nonlinear_arith);
        return Some(0);
    }
    if zeros > 19 {
        proof {
            lemma_pow10_19();
            lemma_pow10_grows(19, true_zeros);
            assert(magnitude as nat * pow10(true_zeros) > LIMIT) by (nonlinear_arith)
                requires
                    magnitude >= 1,
                    pow10(true_zeros) >= 10000000000000000000,
            ;
        }
        return None;
    }
    let mut grown = magnitude;
    let mut left: u128 = zeros;
    assert(magnitude as nat * pow10(0) == magnitude) by (nonlinear_arith)
        requires
            pow10(0) == 1,
    ;
    while left > 0
        invariant
            left <= zeros,
            zeros == true_zeros,
            1 <= grown <= LIMIT,
            grown == magnitude as nat * pow10((zeros - left) as nat),
        decreases left,
    {
        let ghost done = (zeros - left) as nat;
        assert(pow10(done + 1) == 10 * pow10(done));
        if grown > LIMIT / 10 {
            proof {
                lemma_pow10_grows(done + 1, true_zeros);
                assert(magnitude as nat * pow10(true_zeros) > LIMIT) by (nonlinear_arith)
                    requires
                        grown == magnitude as nat * pow10(done),
                        pow10(done + 1) == 10 * pow10(done),
                        pow10(done + 1) <= pow10(true_zeros),
                        grown > 922337203685477580,
                        magnitude >= 1,
                ;
            }
            return None;
        }
        assert(grown * 10 == magnitude as nat * pow10(done + 1)) by (nonlinear_arith)
            requires
                grown == magnitude as nat * pow10(done),
                pow10(done + 1) == 10 * pow10(done),
        ;
        grown = grown * 10;
        left = left - 1;
    }
    Some(grown)
}

/// The whole part where the point moves to the right by the exponent `e`:
/// into the fraction digits, or past them.
fn moved_right(
    text: &str,
    len: usize,
    start: usize,
    point: usize,
    fraction: usize,
    mark: usize,
    counted: u128,
    Ghost(e): Ghost<int>,
) -> (res: Option<u64>)
    requires
        len == text@.len(),
        start <= point <= fraction <= mark <= len,
        e >= 0,
        counts(counted, e),
    ensures
        held(
            res,
            shifted(
                text@.subrange(start as int, point as int) + text@.subrange(
                    fraction as int,
                    mark as int,
                ),
                point - start + e,
            ),
        ),
{
    let fraction_len = mark - fraction;
    let taken = if counted <= fraction_len as u128 {
        counted as usize
    } else {
        fraction_len
    };
    let zeros: u128 = counted - taken as u128;
    let ghost whole = text@.subrange(start as int, point as int);
    let ghost part = text@.subrange(fraction as int, mark as int);
    let ghost kept = text@.subrange(fraction as int, fraction + taken);
    let ghost m = whole + part;
    let ghost k = point - start + e;
    let ghost true_zeros: nat = if k > m.len() {
        (k - m.len()) as nat
    } else {
        0
    };
    proof {
        assert(m.take(whole.len() + taken) =~= whole + kept);
        lemma_appended_concat(0, whole, kept);
        lemma_appended_grows(digits_value(whole), kept);
        if k > m.len() {
            assert(whole + kept =~= m);
        } else {
            assert(pow10(0) == 1);
            assert(digits_value(whole + kept) * pow10(0) == digits_value(whole + kept))
                by (nonlinear_arith)
                requires
                    pow10(0) == 1,
            ;
        }
        assert(shifted(m, k) == digits_value(whole + kept) * pow10(true_zeros));
        lemma_pow10_grows(0, true_zeros);
    }
    let written = match accumulate(text, len, start, point, 0) {
        Some(written) => written,
        None => {
            assert(shifted(m, k) > LIMIT) by (nonlinear_arith)
                requires
                    shifted(m, k) == digits_value(whole + kept) * pow10(true_zeros),
                    digits_value(whole + kept) > LIMIT,
                    pow10(true_zeros) >= 1,
            ;
            return None;
        },
    };
    match accumulate(text, len, fraction, fraction + taken, written) {
        Some(magnitude) => with_zeros(magnitude, zeros, Ghost(true_zeros)),
        None => {
            assert(shifted(m, k) > LIMIT) by (nonlinear_arith)
                requires
                    shifted(m, k) == digits_value(whole + kept) * pow10(true_zeros),
                    digits_value(whole + kept) > LIMIT,
                    pow10(true_zeros) >= 1,
            ;
            None
        },
    }
}

/// What is left of a magnitude once its sign is applied: `None` where a
/// 64-bit signed integer does not hold the number.
fn signed(negative: bool, magnitude: u64) -> (res: Option<i64>)
    requires
        magnitude <= LIMIT,
    ensures
        res == in_range(
            if negative {
                -(magnitude as int)
            } else {
                magnitude as int
            },
        ),
{
    if negative {
        if magnitude == LIMIT {
            Some(i64::MIN)
        } else {
            Some(-(magnitude as i64))
        }
    } else if magnitude == LIMIT {
        None
    } else {
        Some(magnitude as i64)
    }
}

/// Reads the whole part of a decimal numeral.
///
/// `None` where `text` is no numeral, or where its whole part does not fit
/// a 64-bit signed integer.
pub fn whole_number(text: &str) -> (res: Option<i64>)
    ensures
        res == whole_number_of(text@),
{
    let len = text.unicode_len();
    let parts = read_parts(text, len);
    if parts.point == parts.start && parts.mark == parts.fraction {
        return None;
    }
    let read = match read_exponent(text, len, parts.mark) {
        Some(read) => read,
        None => {
            return None;
        },
    };
    let ghost e = exponent(text@).unwrap();
    let magnitude = if read.negative {
        proof {
            lemma_shifted_within(
                text@.subrange(parts.start as int, parts.point as int),
                text@.subrange(parts.fraction as int, parts.mark as int),
                parts.point - parts.start + e,
            );
        }
        moved_left(text, len, parts.start, parts.point, read.counted, Ghost(e))
    } else {
        moved_right(
            text,
            len,
            parts.start,
            parts.point,
            parts.fraction,
            parts.mark,
            read.counted,
            Ghost(e),
        )
    };
    match magnitude {
        Some(magnitude) => signed(parts.negative, magnitude),
        None => None,
    }
}

/// The digits of a number are digits, at least one, and write that number.
pub proof fn lemma_digits_write(n: nat)
    ensures
        digits(n).len() >= 1,
        forall|i: int| 0 <= i < digits(n).len() ==> is_digit(#[trigger] digits(n)[i]),
        digits_value(digits(n)) == n,
    decreases n,
{
    let shown = digits(n);
    if n < 10 {
        assert(digit_of(digit_char(n)) == Some(n));
        assert(shown.last() == digit_char(n));
        assert(shown.drop_last() =~= Seq::<char>::empty());
        assert(appended(0, shown.drop_last()) == 0);
    } else {
        lemma_digits_write(n / 10);
        assert(digit_of(digit_char(n % 10)) == Some(n % 10));
        assert(shown.last() == digit_char(n % 10));
        assert(shown.drop_last() =~= digits(n / 10));
        assert(digits_value(shown) == digits_value(digits(n / 10)) * 10 + n % 10);
    }
}

/// The decimal rendering of an integer is a numeral of that integer, and so
/// is the rendering with a fraction of zero behind it.
pub proof fn lemma_numeral_of_decimal(n: int)
    ensures
        numeral(decimal(n)) == Some(n),
        numeral(decimal(n) + seq!['.', '0']) == Some(n),
{
    let magnitude: nat = if n < 0 {
        (-n) as nat
    } else {
        n as nat
    };
    let shown = digits(magnitude);
    lemma_digits_write(magnitude);
    let start: int = if n < 0 {
        1
    } else {
        0
    };
    let point = start + shown.len();
    let plain = decimal(n);
    let dotted = decimal(n) + seq!['.', '0'];
    assert(is_digit(shown[0]));
    assert(sign_len(plain, 0) == start);
    assert(sign_len(dotted, 0) == start);
    assert forall|i: int| start <= i < point implies is_digit(#[trigger] plain[i]) by {
        assert(plain[i] == shown[i - start]);
    }
    assert forall|i: int| start <= i < point implies is_digit(#[trigger] dotted[i]) by {
        assert(dotted[i] == shown[i - start]);
    }
    lemma_digit_run_ends(plain, start, point);
    lemma_digit_run_ends(plain, point, point);
    lemma_digit_run_ends(dotted, start, point);
    assert(dotted[point + 1] == '0');
    lemma_digit_run_ends(dotted, point + 1, point + 2);
    assert(plain.subrange(start, point) =~= shown);
    assert(dotted.subrange(start, point) =~= shown);
    assert(mantissa(plain) =~= shown);
    assert(mantissa(plain).take(shown.len() as int) =~= shown);
    assert(mantissa(dotted).take(shown.len() as int) =~= shown);
}

} // verus!
