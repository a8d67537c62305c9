//! Fractions with six decimal places, and positions part of the way between
//! two others.

use crate::error::DriverError;
use vstd::prelude::*;

verus! {

/// How many millionths make one.
pub const MILLION: i64 = 1_000_000;

/// A number in steps of one millionth. A partial opening is such a number
/// between zero (closed) and one (open); the type also holds the numbers
/// outside of that range, so that they can be told apart and refused.
#[derive(Clone, Copy, Debug, PartialEq, Eq, Structural)]
pub struct Fraction {
    pub millionths: i64,
}

/// `numerator / denominator`, rounded to the nearest whole number, halves
/// away from zero.
pub open spec fn round_div(numerator: int, denominator: int) -> int
    recommends
        denominator > 0,
{
    if numerator >= 0 {
        (2 * numerator + denominator) / (2 * denominator)
    } else {
        -((denominator - 2 * numerator) / (2 * denominator))
    }
}

/// The position that lies the fraction `millionths / 1_000_000` of the way
/// from `from` to `to`.
pub open spec fn interpolate(from: int, to: int, millionths: int) -> int {
    from + round_div(millionths * (to - from), MILLION as int)
}

proof fn lemma_round_div_bounds(part: int, whole: int, denominator: int)
    requires
        denominator > 0,
        0 <= part <= denominator,
    ensures
        whole >= 0 ==> 0 <= round_div(part * whole, denominator) <= whole,
        whole <= 0 ==> whole <= round_div(part * whole, denominator) <= 0,
        part == 0 ==> round_div(part * whole, denominator) == 0,
        part == denominator ==> round_div(part * whole, denominator) == whole,
{
    let product = part * whole;
    let twice = 2 * denominator;
    // The size of the product, of which `round_div` takes the rounded
    // quotient before it puts the sign back.
    let size = if product >= 0 {
        product
    } else {
        -product
    };
    let reach = if whole >= 0 {
        whole
    } else {
        -whole
    };
    assert(0 <= size <= denominator * reach && (part == 0 ==> size == 0) && (part == denominator
        ==> size == denominator * reach) && (product >= 0 <==> whole >= 0 || part == 0))
        by (nonlinear_arith)
        requires
            0 <= part <= denominator,
            denominator > 0,
            product == part * whole,
            size == (if product >= 0 {
                product
            } else {
                -product
            }),
            reach == (if whole >= 0 {
                whole
            } else {
                -whole
            }),
    ;
    let top = 2 * size + denominator;
    assert(0 <= top / twice <= reach && (size == 0 ==> top / twice == 0) && (size == denominator
        * reach ==> top / twice == reach)) by (nonlinear_arith)
        requires
            0 <= size <= denominator * reach,
            top == 2 * size + denominator,
            twice == 2 * denominator,
            denominator > 0,
    ;
}

impl Fraction {
    /// Whether the number lies between zero and one, both included.
    pub open spec fn in_unit_interval(self) -> bool {
        0 <= self.millionths <= MILLION
    }

    pub fn from_millionths(millionths: i64) -> (fraction: Fraction)
        ensures
            fraction.millionths == millionths,
    {
        Fraction { millionths }
    }

    /// Decides whether the number lies between zero and one.
    pub fn is_in_unit_interval(self) -> (yes: bool)
        ensures
            yes == self.in_unit_interval(),
    {
        0 <= self.millionths && self.millionths <= MILLION
    }
}

/// The position of a partial opening: `fraction` of the way from `closed`
/// to `open`. Fails, with the out-of-range error, exactly on the fractions
/// outside of `[0, 1]`.
pub fn partial_position(closed: i32, open: i32, fraction: Fraction) -> (target: Result<
    i32,
    DriverError,
>)
    ensures
        fraction.in_unit_interval() ==> target == Ok::<i32, DriverError>(
            interpolate(closed as int, open as int, fraction.millionths as int) as i32,
        ) && i32::MIN <= interpolate(closed as int, open as int, fraction.millionths as int)
            <= i32::MAX,
        !fraction.in_unit_interval() ==> target == Err::<i32, DriverError>(
            DriverError::PartialPositionOutOfRange,
        ),
        target matches Ok(position) ==> {
            &&& closed <= open ==> closed <= position <= open
            &&& open <= closed ==> open <= position <= closed
            &&& fraction.millionths == 0 ==> position == closed
            &&& fraction.millionths == MILLION ==> position == open
        },
{
    if !fraction.is_in_unit_interval() {
        return Err(DriverError::PartialPositionOutOfRange);
    }
    let span: i64 = open as i64 - closed as i64;
    proof {
        lemma_round_div_bounds(fraction.millionths as int, span as int, MILLION as int);
    }
    assert(-0x1_0000_0000 * MILLION <= fraction.millionths * span <= 0x1_0000_0000 * MILLION)
        by (nonlinear_arith)
        requires
            0 <= fraction.millionths <= MILLION,
            -0x1_0000_0000 < span < 0x1_0000_0000,
    ;
    let product: i64 = fraction.millionths * span;
    let offset: i64 = if product >= 0 {
        (2 * product + MILLION) / (2 * MILLION)
    } else {
        -((MILLION - 2 * product) / (2 * MILLION))
    };
    Ok((closed as i64 + offset) as i32)
}

} // verus!
