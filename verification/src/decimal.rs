//! Decimal numbers as text, read as fractions.
//!
//! A number is written as an optional sign, digits with an optional point
//! among them, and an optional exponent: `12`, `-0.5`, `.25`, `2.5e-1`. It is
//! read in millionths; what is written past the sixth decimal place is
//! dropped, and a number too large to hold is held as the largest.

use crate::fraction::Fraction;
use vstd::arithmetic::div_mod::{lemma_basic_div, lemma_div_denominator};
use vstd::prelude::*;

verus! {

/// Whether the byte is one of the digits `0` to `9`.
pub open spec fn is_digit(byte: u8) -> bool {
    0x30 <= byte <= 0x39
}

/// The number that a run of digits writes in base ten.
pub open spec fn digits_value(digits: Seq<u8>) -> nat
    decreases digits.len(),
{
    if digits.len() == 0 {
        0
    } else {
        digits_value(digits.drop_last()) * 10 + (digits.last() - 0x30) as nat
    }
}

/// Where the run of digits that starts at `from` ends: the place of the
/// first byte from there on that is no digit, or the end of the text.
pub open spec fn digits_end(text: Seq<u8>, from: int) -> int
    decreases text.len() - from,
{
    if 0 <= from < text.len() && is_digit(text[from]) {
        digits_end(text, from + 1)
    } else {
        from
    }
}

/// Ten to the power of `exponent`.
pub open spec fn pow10(exponent: nat) -> nat
    decreases exponent,
{
    if exponent == 0 {
        1
    } else {
        10 * pow10((exponent - 1) as nat)
    }
}

/// `value` with its decimal point moved `shift` places to the right, or to
/// the left if `shift` is negative; what comes to stand behind the point is
/// dropped.
pub open spec fn shifted_value(value: nat, shift: int) -> nat {
    if shift >= 0 {
        value * pow10(shift as nat)
    } else {
        value / pow10((-shift) as nat)
    }
}

/// The parts of a decimal number as it is written.
pub struct Decimal {
    pub negative: bool,
    /// The digits before the point.
    pub whole: Seq<u8>,
    /// The digits after the point.
    pub fraction: Seq<u8>,
    /// The power of ten that the digits are to be multiplied with.
    pub exponent: int,
}

/// Whether the byte is a sign, `+` or `-`.
pub open spec fn is_sign(byte: u8) -> bool {
    byte == 0x2b || byte == 0x2d
}

/// Whether the byte marks an exponent, as `e` or `E`.
pub open spec fn is_exponent_mark(byte: u8) -> bool {
    byte == 0x65 || byte == 0x45
}

/// Where the parts of a decimal number stand in a text. A part that is
/// not there is empty: it ends where it starts.
pub struct Layout {
    /// Where the digits before the point start: behind the sign, if there
    /// is one.
    pub whole_start: int,
    pub whole_end: int,
    /// Where the digits after the point start: behind the point, if there
    /// is one.
    pub fraction_start: int,
    pub fraction_end: int,
    /// Whether an exponent follows the digits.
    pub has_exponent: bool,
    /// Where the digits of the exponent start: behind the mark and the
    /// sign, if there is one.
    pub exponent_start: int,
    pub exponent_end: int,
}

/// Lays the text out as a decimal number: an optional sign, then digits, of
/// which a point may stand before, between or behind, then optionally an
/// exponent: `e` or `E`, an optional sign and digits.
pub open spec fn layout(text: Seq<u8>) -> Layout {
    let whole_start: int = if text.len() > 0 && is_sign(text[0]) {
        1
    } else {
        0
    };
    let whole_end = digits_end(text, whole_start);
    let fraction_start = if whole_end < text.len() && text[whole_end] == 0x2e {
        whole_end + 1
    } else {
        whole_end
    };
    let fraction_end = digits_end(text, fraction_start);
    let exponent_start = if fraction_end + 1 < text.len() && is_sign(text[fraction_end + 1]) {
        fraction_end + 2
    } else {
        fraction_end + 1
    };
    Layout {
        whole_start,
        whole_end,
        fraction_start,
        fraction_end,
        has_exponent: fraction_end < text.len() && is_exponent_mark(text[fraction_end]),
        exponent_start,
        exponent_end: digits_end(text, exponent_start),
    }
}

impl Layout {
    /// Whether the layout makes a decimal number of the whole text: there
    /// is a digit before the exponent and one in it, if there is an
    /// exponent, and nothing else stands in the text.
    pub open spec fn fits(self, text: Seq<u8>) -> bool {
        &&& (self.whole_end - self.whole_start) + (self.fraction_end - self.fraction_start) > 0
        &&& if self.has_exponent {
            self.exponent_start < self.exponent_end == text.len()
        } else {
            self.fraction_end == text.len()
        }
    }

    /// The number that the text writes in this layout.
    pub open spec fn decimal(self, text: Seq<u8>) -> Decimal {
        let exponent = digits_value(text.subrange(self.exponent_start, self.exponent_end));
        Decimal {
            negative: text[0] == 0x2d,
            whole: text.subrange(self.whole_start, self.whole_end),
            fraction: text.subrange(self.fraction_start, self.fraction_end),
            exponent: if !self.has_exponent {
                0
            } else if text[self.fraction_end + 1] == 0x2d {
                -exponent
            } else {
                exponent as int
            },
        }
    }
}

/// Reads the text as a decimal number, such as `12`, `-0.5`, `.25` or
/// `2.5e-1`. The result is `None` if the text is laid out otherwise.
pub open spec fn written_decimal(text: Seq<u8>) -> Option<Decimal> {
    if layout(text).fits(text) {
        Some(layout(text).decimal(text))
    } else {
        None
    }
}

/// How many decimal places a [`Fraction`] keeps.
pub const DECIMAL_PLACES: usize = 6;

impl Decimal {
    /// The digits of the number, without the point.
    pub open spec fn digits(self) -> Seq<u8> {
        self.whole + self.fraction
    }

    /// The number in millionths; what is written past the sixth decimal
    /// place is dropped.
    pub open spec fn millionths(self) -> int {
        let magnitude = shifted_value(
            digits_value(self.digits()),
            self.exponent + DECIMAL_PLACES - self.fraction.len(),
        );
        if self.negative {
            -magnitude
        } else {
            magnitude as int
        }
    }
}

/// The number as a [`Fraction`] holds it: numbers beyond the largest that
/// fits are held as the largest, on either side of zero.
pub open spec fn held(millionths: int) -> i64 {
    if millionths > i64::MAX {
        i64::MAX
    } else if millionths < -i64::MAX {
        (-i64::MAX) as i64
    } else {
        millionths as i64
    }
}

/// The fraction that the text writes, if it writes a decimal number.
pub open spec fn written_fraction(text: Seq<u8>) -> Option<Fraction> {
    match written_decimal(text) {
        Some(decimal) => Some(Fraction { millionths: held(decimal.millionths()) }),
        None => None,
    }
}

/// Beyond this no number fits a [`Fraction`]: ten to the power of
/// [`LIMIT_PLACES`].
const LIMIT: u128 = 10_000_000_000_000_000_000;

/// The number of zeros in [`LIMIT`].
const LIMIT_PLACES: u128 = 19;

/// Beyond this an exponent outweighs every text that fits into memory.
const EXPONENT_LIMIT: u128 = 10_000_000_000_000_000_000_000_000;

/// A shift of the decimal point by this many places or more, to either
/// side, outweighs every text that fits into memory.
const HUGE_SHIFT: i128 = 1_000_000_000_000_000_000_000_000;

/// Whether `shift` does for `exact` in moving a decimal point: they are the
/// same, or both lie so far out on the same side that no text can tell them
/// apart.
spec fn stands_for(shift: i128, exact: int) -> bool {
    ||| shift == exact
    ||| shift >= HUGE_SHIFT && exact >= shift
    ||| shift <= -HUGE_SHIFT && exact <= shift
}

/// `value`, or the limit if the value lies beyond it.
spec fn limited(value: nat, limit: nat) -> nat {
    if value < limit {
        value
    } else {
        limit
    }
}

proof fn lemma_pow10_adds(a: nat, b: nat)
    ensures
        pow10(a + b) == pow10(a) * pow10(b),
        pow10(a) > 0,
    decreases a,
{
    if a == 0 {
        assert(pow10(0) == 1);
        assert(1 * pow10(b) == pow10(b)) by (nonlinear_arith);
    } else {
        lemma_pow10_adds((a - 1) as nat, b);
        assert(pow10(a + b) == 10 * pow10((a - 1 + b) as nat));
        assert(10 * (pow10((a - 1) as nat) * pow10(b)) == (10 * pow10((a - 1) as nat)) * pow10(b))
            by (nonlinear_arith);
    }
}

proof fn lemma_pow10_grows(a: nat, b: nat)
    requires
        a <= b,
    ensures
        pow10(a) <= pow10(b),
{
    lemma_pow10_adds(a, (b - a) as nat);
    lemma_pow10_adds((b - a) as nat, 0);
    assert(pow10(a) <= pow10(a) * pow10((b - a) as nat)) by (nonlinear_arith)
        requires
            pow10(a) > 0,
            pow10((b - a) as nat) > 0,
    ;
}

proof fn lemma_pow10_of_limit()
    ensures
        pow10(LIMIT_PLACES as nat) == LIMIT,
{
    reveal_with_fuel(pow10, 20);
}

proof fn lemma_digits_value_below(digits: Seq<u8>)
    requires
        forall|i: int| 0 <= i < digits.len() ==> is_digit(#[trigger] digits[i]),
    ensures
        digits_value(digits) < pow10(digits.len()),
    decreases digits.len(),
{
    if digits.len() > 0 {
        lemma_digits_value_below(digits.drop_last());
    }
}

/// Dropping the last `dropped` digits of a number divides it by that power
/// of ten.
proof fn lemma_digits_value_of_prefix(digits: Seq<u8>, dropped: nat)
    requires
        forall|i: int| 0 <= i < digits.len() ==> is_digit(#[trigger] digits[i]),
        dropped <= digits.len(),
    ensures
        digits_value(digits.take(digits.len() - dropped)) == digits_value(digits) / pow10(dropped),
    decreases dropped,
{
    if dropped == 0 {
        assert(digits.take(digits.len() as int) =~= digits);
        assert(pow10(0) == 1);
    } else {
        let shorter = digits.drop_last();
        lemma_digits_value_of_prefix(shorter, (dropped - 1) as nat);
        assert(shorter.take(shorter.len() - (dropped - 1)) =~= digits.take(
            digits.len() - dropped,
        ));
        let last = (digits.last() - 0x30) as int;
        let value = digits_value(shorter) as int;
        assert((value * 10 + last) / 10 == value);
        lemma_pow10_adds((dropped - 1) as nat, 0);
        lemma_div_denominator(value * 10 + last, 10, pow10((dropped - 1) as nat) as int);
    }
}

/// The end of the run of digits that starts at `from`.
fn scan_digits(text: &[u8], from: usize) -> (end: usize)
    requires
        from <= text@.len(),
    ensures
        end == digits_end(text@, from as int),
        from <= end <= text@.len(),
        forall|i: int| from <= i < end ==> is_digit(#[trigger] text@[i]),
{
    let mut at = from;
    while at < text.len() && 0x30 <= text[at] && text[at] <= 0x39
        invariant
            from <= at <= text@.len(),
            digits_end(text@, from as int) == digits_end(text@, at as int),
            forall|i: int| from <= i < at ==> is_digit(#[trigger] text@[i]),
        decreases text@.len() - at,
    {
        at = at + 1;
    }
    at
}

/// The number that the digits from `from` to `to` write, or `limit` if the
/// number lies beyond it.
fn read_digits(text: &[u8], from: usize, to: usize, limit: u128) -> (value: u128)
    requires
        from <= to <= text@.len(),
        forall|i: int| from <= i < to ==> is_digit(#[trigger] text@[i]),
        limit <= EXPONENT_LIMIT,
    ensures
        value == limited(digits_value(text@.subrange(from as int, to as int)), limit as nat),
{
    let mut at = from;
    let mut value: u128 = 0;
    assert(text@.subrange(from as int, from as int).len() == 0);
    while at < to
        invariant
            from <= at <= to <= text@.len(),
            forall|i: int| from <= i < to ==> is_digit(#[trigger] text@[i]),
            limit <= EXPONENT_LIMIT,
            value == limited(digits_value(text@.subrange(from as int, at as int)), limit as nat),
        decreases to - at,
    {
        proof {
            assert(text@.subrange(from as int, at + 1).drop_last() =~= text@.subrange(
                from as int,
                at as int,
            ));
        }
        let next = value * 10 + (text[at] - 0x30) as u128;
        value = if next < limit {
            next
        } else {
            limit
        };
        at = at + 1;
    }
    value
}

/// The number that the first `count` digits of a decimal write, whose
/// digits before the point start at `whole` and number `whole_count` and
/// whose digits after the point start at `fraction`; or [`LIMIT`] if the
/// number lies beyond it.
fn read_leading_digits(
    text: &[u8],
    whole: usize,
    whole_count: usize,
    fraction: usize,
    fraction_count: usize,
    count: usize,
) -> (value: u128)
    requires
        whole + whole_count <= text@.len(),
        fraction + fraction_count <= text@.len(),
        count <= whole_count + fraction_count,
        forall|i: int| whole <= i < whole + whole_count ==> is_digit(#[trigger] text@[i]),
        forall|i: int| fraction <= i < fraction + fraction_count ==> is_digit(#[trigger] text@[i]),
    ensures
        value == limited(
            digits_value(
                (text@.subrange(whole as int, whole + whole_count) + text@.subrange(
                    fraction as int,
                    fraction + fraction_count,
                )).take(count as int),
            ),
            LIMIT as nat,
        ),
{
    let ghost digits = text@.subrange(whole as int, whole + whole_count) + text@.subrange(
        fraction as int,
        fraction + fraction_count,
    );
    let length = text.len();
    let mut taken: usize = 0;
    let mut value: u128 = 0;
    assert(digits.take(0).len() == 0);
    while taken < count
        invariant
            taken <= count <= whole_count + fraction_count,
            whole + whole_count <= text@.len(),
            fraction + fraction_count <= text@.len(),
            length == text@.len(),
            digits == text@.subrange(whole as int, whole + whole_count) + text@.subrange(
                fraction as int,
                fraction + fraction_count,
            ),
            value == limited(digits_value(digits.take(taken as int)), LIMIT as nat),
            forall|i: int| whole <= i < whole + whole_count ==> is_digit(#[trigger] text@[i]),
            forall|i: int|
                fraction <= i < fraction + fraction_count ==> is_digit(#[trigger] text@[i]),
        decreases count - taken,
    {
        let byte = if taken < whole_count {
            text[whole + taken]
        } else {
            text[fraction + (taken - whole_count)]
        };
        proof {
            assert(digits[taken as int] == byte);
            assert(digits.take(taken + 1).drop_last() =~= digits.take(taken as int));
            assert(digits.take(taken + 1).last() == byte);
        }
        let next = value * 10 + (byte - 0x30) as u128;
        value = if next < LIMIT {
            next
        } else {
            LIMIT
        };
        taken = taken + 1;
    }
    value
}

/// `value` with `places` zeros appended, or [`LIMIT`] if that lies beyond
/// it.
fn append_zeros(value: u128, places: u128, Ghost(exact): Ghost<nat>) -> (scaled: u128)
    requires
        value == limited(exact, LIMIT as nat),
        places <= LIMIT_PLACES,
    ensures
        scaled == limited(exact * pow10(places as nat), LIMIT as nat),
{
    let mut scaled = value;
    let mut done: u128 = 0;
    proof {
        assert(exact * pow10(0) == exact) by (nonlinear_arith)
            requires
                pow10(0) == 1,
        ;
    }
    while done < places
        invariant
            done <= places <= LIMIT_PLACES,
            scaled == limited(exact * pow10(done as nat), LIMIT as nat),
        decreases places - done,
    {
        proof {
            assert(pow10((done + 1) as nat) == 10 * pow10(done as nat));
            assert(exact * (10 * pow10(done as nat)) == (exact * pow10(done as nat)) * 10)
                by (nonlinear_arith);
        }
        let next = scaled * 10;
        scaled = if next < LIMIT {
            next
        } else {
            LIMIT
        };
        done = done + 1;
    }
    scaled
}

/// The number that the digits of a decimal write once the decimal point
/// has been moved by `exact` places, for which `shift` stands; or [`LIMIT`]
/// if the number lies beyond it. The digits before the point start at
/// `whole` and number `whole_count`, those after it start at `fraction`.
fn read_shifted(
    text: &[u8],
    whole: usize,
    whole_count: usize,
    fraction: usize,
    fraction_count: usize,
    shift: i128,
    Ghost(exact): Ghost<int>,
) -> (value: u128)
    requires
        whole + whole_count <= text@.len(),
        fraction + fraction_count <= text@.len(),
        whole_count + fraction_count <= text@.len(),
        forall|i: int| whole <= i < whole + whole_count ==> is_digit(#[trigger] text@[i]),
        forall|i: int| fraction <= i < fraction + fraction_count ==> is_digit(#[trigger] text@[i]),
        stands_for(shift, exact),
        -2 * HUGE_SHIFT * 10 <= shift <= 2 * HUGE_SHIFT * 10,
    ensures
        value == limited(
            shifted_value(
                digits_value(
                    text@.subrange(whole as int, whole + whole_count) + text@.subrange(
                        fraction as int,
                        fraction + fraction_count,
                    ),
                ),
                exact,
            ),
            LIMIT as nat,
        ),
{
    let ghost digits = text@.subrange(whole as int, whole + whole_count) + text@.subrange(
        fraction as int,
        fraction + fraction_count,
    );
    let ghost number = digits_value(digits);
    let length = text.len();
    let count = whole_count + fraction_count;
    proof {
        assert forall|i: int| 0 <= i < digits.len() implies is_digit(#[trigger] digits[i]) by {
            if i < whole_count {
                assert(digits[i] == text@[whole + i]);
            } else {
                assert(digits[i] == text@[fraction + (i - whole_count)]);
            }
        }
        lemma_pow10_of_limit();
    }
    if shift >= 0 {
        let value = read_leading_digits(
            text,
            whole,
            whole_count,
            fraction,
            fraction_count,
            count,
        );
        let zeros: u128 = if shift > LIMIT_PLACES as i128 {
            LIMIT_PLACES
        } else {
            shift as u128
        };
        proof {
            assert(digits.take(digits.len() as int) =~= digits);
            if shift > LIMIT_PLACES {
                lemma_pow10_grows(LIMIT_PLACES as nat, exact as nat);
                if number > 0 {
                    assert(number * pow10(exact as nat) >= LIMIT) by (nonlinear_arith)
                        requires
                            number >= 1,
                            pow10(exact as nat) >= LIMIT,
                    ;
                    assert(number * pow10(LIMIT_PLACES as nat) >= LIMIT) by (nonlinear_arith)
                        requires
                            number >= 1,
                            pow10(LIMIT_PLACES as nat) >= LIMIT,
                    ;
                } else {
                    assert(number * pow10(exact as nat) == 0) by (nonlinear_arith)
                        requires
                            number == 0,
                    ;
                    assert(number * pow10(LIMIT_PLACES as nat) == 0) by (nonlinear_arith)
                        requires
                            number == 0,
                    ;
                }
            }
        }
        append_zeros(value, zeros, Ghost(number))
    } else {
        let dropped: u128 = (-shift) as u128;
        if dropped >= count as u128 {
            proof {
                lemma_digits_value_below(digits);
                lemma_pow10_grows(digits.len(), (-exact) as nat);
                lemma_basic_div(number as int, pow10((-exact) as nat) as int);
            }
            0
        } else {
            proof {
                lemma_digits_value_of_prefix(digits, dropped as nat);
            }
            read_leading_digits(
                text,
                whole,
                whole_count,
                fraction,
                fraction_count,
                count - dropped as usize,
            )
        }
    }
}

/// Where the parts of a decimal number stand in a text.
struct Places {
    whole_start: usize,
    whole_end: usize,
    fraction_start: usize,
    fraction_end: usize,
    has_exponent: bool,
    exponent_start: usize,
    exponent_end: usize,
}

/// Lays the text out as a decimal number; `None` if it is none.
fn lay_out(text: &[u8]) -> (places: Option<Places>)
    ensures
        places is Some == layout(text@).fits(text@),
        places matches Some(found) ==> {
            &&& found.whole_start == layout(text@).whole_start
            &&& found.whole_end == layout(text@).whole_end
            &&& found.fraction_start == layout(text@).fraction_start
            &&& found.fraction_end == layout(text@).fraction_end
            &&& found.has_exponent == layout(text@).has_exponent
            &&& found.has_exponent ==> found.exponent_start == layout(text@).exponent_start
                && found.exponent_end == layout(text@).exponent_end && found.exponent_start
                <= found.exponent_end <= text@.len() && found.fraction_end + 1 < text@.len()
            &&& found.whole_start <= found.whole_end <= found.fraction_start <= found.fraction_end
                <= text@.len()
            &&& forall|i: int|
                found.whole_start <= i < found.whole_end ==> is_digit(#[trigger] text@[i])
            &&& forall|i: int|
                found.fraction_start <= i < found.fraction_end ==> is_digit(#[trigger] text@[i])
            &&& forall|i: int|
                found.has_exponent && found.exponent_start <= i < found.exponent_end ==> is_digit(
                    #[trigger] text@[i],
                )
        },
{
    let length = text.len();
    let whole_start: usize = if length > 0 && (text[0] == 0x2b || text[0] == 0x2d) {
        1
    } else {
        0
    };
    let whole_end = scan_digits(text, whole_start);
    let fraction_start = if whole_end < length && text[whole_end] == 0x2e {
        whole_end + 1
    } else {
        whole_end
    };
    let fraction_end = scan_digits(text, fraction_start);
    if (whole_end - whole_start) + (fraction_end - fraction_start) == 0 {
        return None;
    }
    let has_exponent = fraction_end < length && (text[fraction_end] == 0x65 || text[fraction_end]
        == 0x45);
    if !has_exponent {
        if fraction_end != length {
            return None;
        }
        return Some(
            Places {
                whole_start,
                whole_end,
                fraction_start,
                fraction_end,
                has_exponent,
                exponent_start: fraction_end,
                exponent_end: fraction_end,
            },
        );
    }
    let exponent_start = if fraction_end + 1 < length && (text[fraction_end + 1] == 0x2b
        || text[fraction_end + 1] == 0x2d) {
        fraction_end + 2
    } else {
        fraction_end + 1
    };
    let exponent_end = scan_digits(text, exponent_start);
    if exponent_end != length || exponent_end == exponent_start {
        return None;
    }
    Some(
        Places {
            whole_start,
            whole_end,
            fraction_start,
            fraction_end,
            has_exponent,
            exponent_start,
            exponent_end,
        },
    )
}

/// The exponent of a decimal number that is laid out as `places`, as far
/// as it matters: an exponent beyond [`EXPONENT_LIMIT`] is read as that.
fn read_exponent(text: &[u8], places: &Places) -> (exponent: i128)
    requires
        places.has_exponent ==> places.exponent_start <= places.exponent_end <= text@.len()
            && places.fraction_end + 1 < text@.len(),
        forall|i: int|
            places.has_exponent && places.exponent_start <= i < places.exponent_end ==> is_digit(
                #[trigger] text@[i],
            ),
    ensures
        -EXPONENT_LIMIT <= exponent <= EXPONENT_LIMIT,
        !places.has_exponent ==> exponent == 0,
        places.has_exponent && text@[places.fraction_end + 1] == 0x2d ==> exponent == -limited(
            digits_value(text@.subrange(places.exponent_start as int, places.exponent_end as int)),
            EXPONENT_LIMIT as nat,
        ),
        places.has_exponent && text@[places.fraction_end + 1] != 0x2d ==> exponent == limited(
            digits_value(text@.subrange(places.exponent_start as int, places.exponent_end as int)),
            EXPONENT_LIMIT as nat,
        ),
{
    if !places.has_exponent {
        return 0;
    }
    let length = text.len();
    let size = read_digits(text, places.exponent_start, places.exponent_end, EXPONENT_LIMIT);
    if text[places.fraction_end + 1] == 0x2d {
        -(size as i128)
    } else {
        size as i128
    }
}

/// Reads a decimal number, such as `0.25` or `2.5e-1`, as a fraction. The
/// result is `None` exactly if the text does not write a decimal number.
pub fn parse_fraction(text: &[u8]) -> (parsed: Option<Fraction>)
    ensures
        parsed == written_fraction(text@),
{
    let places = match lay_out(text) {
        Some(places) => places,
        None => {
            return None;
        },
    };
    let exponent = read_exponent(text, &places);
    let fraction_count = places.fraction_end - places.fraction_start;
    let ghost decimal = layout(text@).decimal(text@);
    let ghost exact = decimal.exponent + DECIMAL_PLACES - decimal.fraction.len();
    let shift: i128 = exponent + DECIMAL_PLACES as i128 - fraction_count as i128;
    let magnitude = read_shifted(
        text,
        places.whole_start,
        places.whole_end - places.whole_start,
        places.fraction_start,
        fraction_count,
        shift,
        Ghost(exact),
    );
    let limited: i64 = if magnitude > i64::MAX as u128 {
        i64::MAX
    } else {
        magnitude as i64
    };
    Some(
        Fraction {
            millionths: if text[0] == 0x2d {
                -limited
            } else {
                limited
            },
        },
    )
}

} // verus!
