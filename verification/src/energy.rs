//! Energy amounts and their arithmetic.

use vstd::prelude::*;

verus! {

/// An amount of energy, in whole units. Costs and gains are amounts too, and
/// may be negative.
pub type Energy = i64;

/// How many units make up one point of energy in the default configuration.
pub const UNITS_PER_POINT: Energy = 1000;

/// Whether an [`Energy`] can hold `v`.
pub open spec fn representable(v: int) -> bool {
    i64::MIN <= v <= i64::MAX
}

/// The amount closest to `v` that an [`Energy`] can hold.
pub open spec fn saturate(v: int) -> int {
    if v < i64::MIN {
        i64::MIN as int
    } else if v > i64::MAX {
        i64::MAX as int
    } else {
        v
    }
}

/// The lesser of two amounts.
pub open spec fn lesser(a: int, b: int) -> int {
    if a <= b {
        a
    } else {
        b
    }
}

/// `v` held between `low` and `high`; where the bounds cross, `low` wins.
pub open spec fn clamped(v: int, low: int, high: int) -> int {
    if v < low || high < low {
        low
    } else if v > high {
        high
    } else {
        v
    }
}

/// The part of `amount` that can move from a holder of `from` to a holder
/// of `to`: as much of it as leaves both `from - part` and `to + part` in
/// the range of [`Energy`]. A negative amount moves the other way.
pub open spec fn fitting(amount: int, from: int, to: int) -> int {
    let least = if from - i64::MAX >= i64::MIN - to {
        from - i64::MAX
    } else {
        i64::MIN - to
    };
    let most = if from - i64::MIN <= i64::MAX - to {
        from - i64::MIN
    } else {
        i64::MAX - to
    };
    if amount < least {
        least
    } else if amount > most {
        most
    } else {
        amount
    }
}

/// Sum of two amounts, held within the range of [`Energy`].
pub fn plus(a: Energy, b: Energy) -> (r: Energy)
    ensures
        r == saturate(a + b),
{
    if b >= 0 {
        if a > i64::MAX - b {
            i64::MAX
        } else {
            a + b
        }
    } else {
        if a < i64::MIN - b {
            i64::MIN
        } else {
            a + b
        }
    }
}

/// Difference of two amounts, held within the range of [`Energy`].
pub fn minus(a: Energy, b: Energy) -> (r: Energy)
    ensures
        r == saturate(a - b),
{
    if b >= 0 {
        if a < i64::MIN + b {
            i64::MIN
        } else {
            a - b
        }
    } else {
        if a > i64::MAX + b {
            i64::MAX
        } else {
            a - b
        }
    }
}

/// The lesser of two amounts.
pub fn least(a: Energy, b: Energy) -> (r: Energy)
    ensures
        r == lesser(a as int, b as int),
{
    if a <= b {
        a
    } else {
        b
    }
}

/// `v` held between `low` and `high`; where the bounds cross, `low` wins.
pub fn clamp(v: Energy, low: Energy, high: Energy) -> (r: Energy)
    ensures
        r == clamped(v as int, low as int, high as int),
{
    if v < low || high < low {
        low
    } else if v > high {
        high
    } else {
        v
    }
}

/// The part of `amount` that can move from a holder of `from` to a holder
/// of `to` without taking either out of the range of [`Energy`].
pub fn fit(amount: Energy, from: Energy, to: Energy) -> (r: Energy)
    ensures
        r == fitting(amount as int, from as int, to as int),
        representable(from - r),
        representable(to + r),
        representable(from - amount) && representable(to + amount) ==> r == amount,
{
    let low_by_giver: i128 = from as i128 - i64::MAX as i128;
    let low_by_taker: i128 = i64::MIN as i128 - to as i128;
    let high_by_giver: i128 = from as i128 - i64::MIN as i128;
    let high_by_taker: i128 = i64::MAX as i128 - to as i128;
    let low = if low_by_giver >= low_by_taker {
        low_by_giver
    } else {
        low_by_taker
    };
    let high = if high_by_giver <= high_by_taker {
        high_by_giver
    } else {
        high_by_taker
    };
    if (amount as i128) < low {
        low as Energy
    } else if (amount as i128) > high {
        high as Energy
    } else {
        amount
    }
}

/// What is moved leaves one side and arrives at the other: the two hold
/// together what they held before, and each stays in range.
pub proof fn lemma_fitting_conserves(amount: int, from: int, to: int)
    requires
        representable(amount),
        representable(from),
        representable(to),
    ensures
        representable(fitting(amount, from, to)),
        representable(from - fitting(amount, from, to)),
        representable(to + fitting(amount, from, to)),
        (from - fitting(amount, from, to)) + (to + fitting(amount, from, to)) == from + to,
        representable(from - amount) && representable(to + amount) ==> fitting(amount, from, to)
            == amount,
        0 <= amount ==> 0 <= fitting(amount, from, to) <= amount,
        amount <= 0 ==> amount <= fitting(amount, from, to) <= 0,
{
}

} // verus!
