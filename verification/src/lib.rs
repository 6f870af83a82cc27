//! Saturating fixed-width 128-bit magnitudes.
//!
//! Two plain value types — an unsigned and a signed 128-bit magnitude —
//! whose addition and subtraction clamp at the bounds of the representable
//! range instead of wrapping around or faulting. Every operation is total:
//! it is defined for all inputs and cannot fail at run time.

use vstd::prelude::*;

verus! {

/// The value of an unsigned saturating addition: the exact sum,
/// clamped from above at `u128::MAX`.
pub open spec fn sat_add_unsigned(a: int, b: int) -> int {
    if a + b > u128::MAX as int {
        u128::MAX as int
    } else {
        a + b
    }
}

/// The value of an unsigned saturating subtraction: the exact
/// difference, clamped from below at zero.
pub open spec fn sat_sub_unsigned(a: int, b: int) -> int {
    if a - b < 0 {
        0
    } else {
        a - b
    }
}

/// The value of a signed saturating operation: the exact result,
/// clamped into `[i128::MIN, i128::MAX]`.
pub open spec fn clamp_signed(x: int) -> int {
    if x > i128::MAX as int {
        i128::MAX as int
    } else if x < i128::MIN as int {
        i128::MIN as int
    } else {
        x
    }
}

/// A non-negative 128-bit magnitude in `[0, u128::MAX]`.
///
/// Immutable once constructed: every operation returns a new value.
#[derive(Clone, Copy, Debug, PartialEq, Eq, Structural)]
pub struct U128(u128);

impl View for U128 {
    type V = int;

    closed spec fn view(&self) -> int {
        self.0 as int
    }
}

impl U128 {
    /// Every unsigned magnitude's value lies in `[0, u128::MAX]`.
    pub proof fn lemma_in_range(self)
        ensures
            0 <= self@ <= u128::MAX as int,
    {
    }

    /// The distinguished zero magnitude.
    pub fn zero() -> (r: Self)
        ensures
            r@ == 0,
    {
        U128(0)
    }

    /// Wraps a raw unsigned 128-bit value; cannot fail.
    pub fn new(v: u128) -> (r: Self)
        ensures
            r@ == v as int,
    {
        U128(v)
    }

    /// Returns the underlying raw value unchanged.
    pub fn get(&self) -> (r: u128)
        ensures
            r as int == self@,
    {
        self.0
    }

    /// True exactly when the magnitude is zero.
    pub fn is_zero(&self) -> (r: bool)
        ensures
            r == (self@ == 0),
    {
        self.0 == 0
    }

    /// Adds, clamping at `u128::MAX` instead of wrapping.
    pub fn saturating_add(self, other: Self) -> (r: Self)
        ensures
            r@ == sat_add_unsigned(self@, other@),
    {
        U128(self.0.saturating_add(other.0))
    }

    /// Adds, clamping at `u128::MAX`; same contract as `saturating_add`,
    /// under the explicitly-typed name.
    pub fn saturating_add_u128(self, other: Self) -> (r: Self)
        ensures
            r@ == sat_add_unsigned(self@, other@),
    {
        U128(self.0.saturating_add(other.0))
    }

    /// Subtracts, clamping at zero instead of wrapping.
    pub fn saturating_sub(self, other: Self) -> (r: Self)
        ensures
            r@ == sat_sub_unsigned(self@, other@),
    {
        U128(self.0.saturating_sub(other.0))
    }
}

/// A signed 128-bit magnitude in `[i128::MIN, i128::MAX]`.
///
/// Immutable once constructed: every operation returns a new value.
/// Its arithmetic takes a raw signed delta rather than a wrapped
/// instance; this asymmetry with [`U128`] is part of the contract
/// downstream callers rely on and is kept deliberately.
#[derive(Clone, Copy, Debug, PartialEq, Eq, Structural)]
pub struct I128(i128);

impl View for I128 {
    type V = int;

    closed spec fn view(&self) -> int {
        self.0 as int
    }
}

impl I128 {
    /// Every signed magnitude's value lies in `[i128::MIN, i128::MAX]`.
    pub proof fn lemma_in_range(self)
        ensures
            i128::MIN as int <= self@ <= i128::MAX as int,
    {
    }

    /// The distinguished zero magnitude.
    pub fn zero() -> (r: Self)
        ensures
            r@ == 0,
    {
        I128(0)
    }

    /// Wraps a raw signed 128-bit value; cannot fail.
    pub fn new(v: i128) -> (r: Self)
        ensures
            r@ == v as int,
    {
        I128(v)
    }

    /// Returns the underlying raw value unchanged.
    pub fn get(&self) -> (r: i128)
        ensures
            r as int == self@,
    {
        self.0
    }

    /// True exactly when the value is strictly negative.
    pub fn is_negative(&self) -> (r: bool)
        ensures
            r == (self@ < 0),
    {
        self.0 < 0
    }

    /// True exactly when the value is strictly positive.
    pub fn is_positive(&self) -> (r: bool)
        ensures
            r == (self@ > 0),
    {
        self.0 > 0
    }

    /// True exactly when the value is zero.
    pub fn is_zero(&self) -> (r: bool)
        ensures
            r == (self@ == 0),
    {
        self.0 == 0
    }

    /// Adds a raw signed delta, clamping into `[i128::MIN, i128::MAX]`
    /// on overflow or underflow in either direction.
    pub fn saturating_add(self, v: i128) -> (r: Self)
        ensures
            r@ == clamp_signed(self@ + v),
    {
        if v >= 0 {
            if self.0 > i128::MAX - v {
                I128(i128::MAX)
            } else {
                I128(self.0 + v)
            }
        } else {
            if self.0 < i128::MIN - v {
                I128(i128::MIN)
            } else {
                I128(self.0 + v)
            }
        }
    }

    /// Subtracts a raw signed delta, clamping symmetrically into
    /// `[i128::MIN, i128::MAX]`.
    pub fn saturating_sub(self, v: i128) -> (r: Self)
        ensures
            r@ == clamp_signed(self@ - v),
    {
        if v >= 0 {
            if self.0 < i128::MIN + v {
                I128(i128::MIN)
            } else {
                I128(self.0 - v)
            }
        } else {
            if self.0 > i128::MAX + v {
                I128(i128::MAX)
            } else {
                I128(self.0 - v)
            }
        }
    }
}

/// Law: a signed saturating result always lies in the signed 128-bit
/// range, and equals the exact sum or difference whenever that exact
/// value is itself representable.
pub proof fn lemma_signed_saturation(a: I128, delta: i128)
    ensures
        i128::MIN as int <= clamp_signed(a@ + delta) <= i128::MAX as int,
        i128::MIN as int <= clamp_signed(a@ - delta) <= i128::MAX as int,
        i128::MIN as int <= a@ + delta <= i128::MAX as int ==> clamp_signed(a@ + delta) == a@ + delta,
        i128::MIN as int <= a@ - delta <= i128::MAX as int ==> clamp_signed(a@ - delta) == a@ - delta,
{
    a.lemma_in_range();
}

/// Law: an unsigned saturating result always lies in the unsigned
/// 128-bit range, and equals the exact sum or difference whenever that
/// exact value is itself representable.
pub proof fn lemma_unsigned_saturation(a: U128, b: U128)
    ensures
        0 <= sat_add_unsigned(a@, b@) <= u128::MAX as int,
        0 <= sat_sub_unsigned(a@, b@) <= u128::MAX as int,
        a@ + b@ <= u128::MAX as int ==> sat_add_unsigned(a@, b@) == a@ + b@,
        a@ - b@ >= 0 ==> sat_sub_unsigned(a@, b@) == a@ - b@,
{
    a.lemma_in_range();
    b.lemma_in_range();
}

/// Law: for every signed magnitude exactly one of the three sign
/// queries holds — negative, zero, or positive — including at the two
/// extreme representable values.
pub proof fn lemma_sign_trichotomy(v: I128)
    ensures
        v@ < 0 || v@ == 0 || v@ > 0,
        !(v@ < 0 && v@ == 0),
        !(v@ < 0 && v@ > 0),
        !(v@ == 0 && v@ > 0),
{
}

} // verus!
