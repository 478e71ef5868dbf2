//! The [`Interval`] enum: a confidence interval over a partially ordered type,
//! either bounded on both sides or bounded on a single side.
//!
//! Bounds are inclusive.  Because the element type is only partially ordered,
//! every contract below is stated over `partial_cmp_spec` and holds exactly
//! whenever the element type's comparison obeys its specification
//! (`obeys_partial_cmp_spec`); integer instantiations always do.

use vstd::prelude::*;

use core::cmp::Ordering;
use crate::error::IntervalError;
use vstd::pervasive::cloned;
use vstd::std_specs::cmp::PartialEqSpec;
use vstd::std_specs::cmp::PartialEqSpecImpl;
use vstd::std_specs::cmp::PartialOrdIs;
use vstd::std_specs::cmp::PartialOrdSpec;
use vstd::std_specs::cmp::PartialOrdSpecImpl;
use vstd::std_specs::ops::AddSpec;
use vstd::std_specs::ops::DivSpec;
use vstd::std_specs::ops::MulSpec;
use vstd::std_specs::ops::NegSpec;
use vstd::std_specs::ops::SubSpec;

verus! {

/// Interval over a partially ordered type.
///
/// * `TwoSided(low, high)` is the interval `[low, high]`.
/// * `UpperOneSided(low)` is the interval `[low, +oo)`.
/// * `LowerOneSided(high)` is the interval `(-oo, high]`.
#[derive(Debug, Clone, Copy, Hash)]
pub enum Interval<T> {
    /// Two-sided interval `[low, high]`; both bounds are included.
    TwoSided(T, T),
    /// Upper one-sided interval `[low, +oo)`; the lower bound is included.
    UpperOneSided(T),
    /// Lower one-sided interval `(-oo, high]`; the upper bound is included.
    LowerOneSided(T),
}

impl<T: PartialOrd> Interval<T> {
    /// The lower bound, if the interval has one.
    pub open spec fn spec_left(self) -> Option<T> {
        match self {
            Interval::TwoSided(low, _) => Some(low),
            Interval::UpperOneSided(low) => Some(low),
            Interval::LowerOneSided(_) => None,
        }
    }

    /// The upper bound, if the interval has one.
    pub open spec fn spec_right(self) -> Option<T> {
        match self {
            Interval::TwoSided(_, high) => Some(high),
            Interval::UpperOneSided(_) => None,
            Interval::LowerOneSided(high) => Some(high),
        }
    }

    /// Whether `x` lies in the interval, bounds included.
    pub open spec fn spec_contains(self, x: T) -> bool {
        match self {
            Interval::TwoSided(low, high) => low.is_le(&x) && x.is_le(&high),
            Interval::UpperOneSided(low) => low.is_le(&x),
            Interval::LowerOneSided(high) => x.is_le(&high),
        }
    }

    /// The case analysis behind [`Interval::intersects`]: one-sided intervals
    /// of the same direction always meet, and otherwise the relevant finite
    /// bounds are compared.
    pub open spec fn spec_intersects(self, other: Self) -> bool {
        match (self, other) {
            (Interval::UpperOneSided(_), Interval::UpperOneSided(_)) => true,
            (Interval::LowerOneSided(_), Interval::LowerOneSided(_)) => true,
            (Interval::UpperOneSided(x), Interval::LowerOneSided(y)) => x.is_le(&y),
            (Interval::UpperOneSided(x), Interval::TwoSided(_, y)) => x.is_le(&y),
            (Interval::LowerOneSided(x), Interval::UpperOneSided(y)) => y.is_le(&x),
            (Interval::LowerOneSided(x), Interval::TwoSided(_, y)) => x.is_le(&y),
            (Interval::TwoSided(x, y), Interval::UpperOneSided(z)) => x.is_le(&z) && z.is_le(&y),
            (Interval::TwoSided(x, y), Interval::LowerOneSided(z)) => x.is_le(&z) && z.is_le(&y),
            (Interval::TwoSided(x, y), Interval::TwoSided(a, b)) => x.is_le(&b) && a.is_le(&y),
        }
    }

    /// The case analysis behind [`Interval::includes`]: a one-sided interval
    /// never fits inside a two-sided one, and otherwise the bounds on the
    /// corresponding sides are compared.
    pub open spec fn spec_includes(self, other: Self) -> bool {
        match (self, other) {
            (Interval::UpperOneSided(x), Interval::UpperOneSided(y)) => x.is_le(&y),
            (Interval::LowerOneSided(x), Interval::LowerOneSided(y)) => x.is_ge(&y),
            (Interval::UpperOneSided(x), Interval::TwoSided(y, _)) => x.is_le(&y),
            (Interval::LowerOneSided(x), Interval::TwoSided(_, y)) => x.is_ge(&y),
            (Interval::TwoSided(x, y), Interval::TwoSided(a, b)) => x.is_le(&a) && b.is_le(&y),
            _ => false,
        }
    }

    /// Whether the interval is a single point.
    pub open spec fn spec_is_degenerate(self) -> bool {
        match self {
            Interval::TwoSided(x, y) => x.eq_spec(&y),
            _ => false,
        }
    }

    /// Create a two-sided interval `[low, high]`.
    ///
    /// Fails with [`IntervalError::InvalidBounds`] exactly when `low > high`
    /// compares true; elements that do not compare (and every pair, for a
    /// well-behaved order, with `low <= high`) build the interval.
    pub fn new(low: T, high: T) -> (r: Result<Self, IntervalError>)
        ensures
            T::obeys_partial_cmp_spec() ==> ((r matches Err(_)) <==> low.is_gt(&high)),
            r matches Ok(iv) ==> iv == Interval::TwoSided(low, high),
            r matches Err(e) ==> e == IntervalError::InvalidBounds,
    {
        if low > high {
            Err(IntervalError::InvalidBounds)
        } else {
            Ok(Interval::TwoSided(low, high))
        }
    }

    /// Create the upper one-sided interval `[low, +oo)`.
    pub fn new_upper(low: T) -> (r: Self)
        ensures
            r == Interval::UpperOneSided(low),
    {
        Interval::UpperOneSided(low)
    }

    /// Create the lower one-sided interval `(-oo, high]`.
    pub fn new_lower(high: T) -> (r: Self)
        ensures
            r == Interval::LowerOneSided(high),
    {
        Interval::LowerOneSided(high)
    }

    /// Whether the interval is two-sided.
    pub fn is_two_sided(&self) -> (r: bool)
        ensures
            r == (self matches Interval::TwoSided(_, _)),
    {
        matches!(self, Interval::TwoSided(_, _))
    }

    /// Whether the interval is one-sided.
    pub fn is_one_sided(&self) -> (r: bool)
        ensures
            r == !(self matches Interval::TwoSided(_, _)),
    {
        !self.is_two_sided()
    }

    /// Whether the interval is upper one-sided.
    pub fn is_upper(&self) -> (r: bool)
        ensures
            r == (self matches Interval::UpperOneSided(_)),
    {
        matches!(self, Interval::UpperOneSided(_))
    }

    /// Whether the interval is lower one-sided.
    pub fn is_lower(&self) -> (r: bool)
        ensures
            r == (self matches Interval::LowerOneSided(_)),
    {
        matches!(self, Interval::LowerOneSided(_))
    }

    /// Whether the interval contains `x`, bounds included.
    pub fn contains(&self, x: &T) -> (r: bool)
        ensures
            T::obeys_partial_cmp_spec() ==> r == self.spec_contains(*x),
    {
        match self {
            Interval::TwoSided(low, high) => low <= x && x <= high,
            Interval::UpperOneSided(low) => low <= x,
            Interval::LowerOneSided(high) => x <= high,
        }
    }

    /// Whether the interval meets `other`; intervals sharing only a single
    /// point still intersect.
    ///
    /// The mixed case of a two-sided against a one-sided interval tests
    /// whether the one-sided interval's finite bound lies within the
    /// two-sided interval, so that case is not symmetric in its arguments.
    pub fn intersects(&self, other: &Self) -> (r: bool)
        ensures
            T::obeys_partial_cmp_spec() ==> r == self.spec_intersects(*other),
    {
        match (self, other) {
            (Interval::UpperOneSided(_), Interval::UpperOneSided(_)) => true,
            (Interval::LowerOneSided(_), Interval::LowerOneSided(_)) => true,
            (Interval::UpperOneSided(x), Interval::LowerOneSided(y)) => x <= y,
            (Interval::UpperOneSided(x), Interval::TwoSided(_, y)) => x <= y,
            (Interval::LowerOneSided(x), Interval::UpperOneSided(y)) => y <= x,
            (Interval::LowerOneSided(x), Interval::TwoSided(_, y)) => x <= y,
            (Interval::TwoSided(x, y), Interval::UpperOneSided(z)) => x <= z && z <= y,
            (Interval::TwoSided(x, y), Interval::LowerOneSided(z)) => x <= z && z <= y,
            (Interval::TwoSided(x, y), Interval::TwoSided(a, b)) => x <= b && a <= y,
        }
    }

    /// Whether the interval lies inside `other` (not strictly: every interval
    /// is included in itself).
    pub fn is_included_in(&self, other: &Self) -> (r: bool)
        ensures
            T::obeys_partial_cmp_spec() ==> r == other.spec_includes(*self),
    {
        other.includes(self)
    }

    /// Whether the interval covers `other` (not strictly: every interval
    /// includes itself).
    pub fn includes(&self, other: &Self) -> (r: bool)
        ensures
            T::obeys_partial_cmp_spec() ==> r == self.spec_includes(*other),
    {
        match (self, other) {
            (Interval::UpperOneSided(x), Interval::UpperOneSided(y)) => x <= y,
            (Interval::LowerOneSided(x), Interval::LowerOneSided(y)) => x >= y,
            (Interval::UpperOneSided(x), Interval::TwoSided(y, _)) => x <= y,
            (Interval::LowerOneSided(x), Interval::TwoSided(_, y)) => x >= y,
            (Interval::TwoSided(x, y), Interval::TwoSided(a, b)) => x <= a && b <= y,
            _ => false,
        }
    }

    /// Whether the interval is a single point, such as `[0, 0]`.
    pub fn is_degenerate(&self) -> (r: bool)
        ensures
            T::obeys_eq_spec() ==> r == self.spec_is_degenerate(),
    {
        match self {
            Interval::TwoSided(x, y) => x == y,
            _ => false,
        }
    }

    /// A reference to the left (lower) bound, if the interval has one.
    pub fn left(&self) -> (r: Option<&T>)
        ensures
            (r is Some) == (self.spec_left() is Some),
            r matches Some(v) ==> self.spec_left() == Some(*v),
    {
        match self {
            Interval::TwoSided(low, _) => Some(low),
            Interval::UpperOneSided(low) => Some(low),
            Interval::LowerOneSided(_) => None,
        }
    }

    /// A reference to the right (upper) bound, if the interval has one.
    pub fn right(&self) -> (r: Option<&T>)
        ensures
            (r is Some) == (self.spec_right() is Some),
            r matches Some(v) ==> self.spec_right() == Some(*v),
    {
        match self {
            Interval::TwoSided(_, high) => Some(high),
            Interval::LowerOneSided(high) => Some(high),
            Interval::UpperOneSided(_) => None,
        }
    }

    /// A reference to the lower bound, if any; the borrowing twin of
    /// [`Interval::low`].
    pub fn low_as_ref(&self) -> (r: Option<&T>)
        ensures
            (r is Some) == (self.spec_left() is Some),
            r matches Some(v) ==> self.spec_left() == Some(*v),
    {
        self.left()
    }

    /// A reference to the upper bound, if any; the borrowing twin of
    /// [`Interval::high`].
    pub fn high_as_ref(&self) -> (r: Option<&T>)
        ensures
            (r is Some) == (self.spec_right() is Some),
            r matches Some(v) ==> self.spec_right() == Some(*v),
    {
        self.right()
    }
}

impl<T: PartialOrd + Clone> Interval<T> {
    /// The lower bound, cloned, if the interval has one.
    pub fn low(&self) -> (r: Option<T>)
        ensures
            (r is Some) == (self.spec_left() is Some),
            r matches Some(v) ==> (self.spec_left() matches Some(l) && cloned(l, v)),
    {
        match self {
            Interval::TwoSided(low, _) => Some(low.clone()),
            Interval::UpperOneSided(low) => Some(low.clone()),
            Interval::LowerOneSided(_) => None,
        }
    }

    /// The upper bound, cloned, if the interval has one.
    pub fn high(&self) -> (r: Option<T>)
        ensures
            (r is Some) == (self.spec_right() is Some),
            r matches Some(v) ==> (self.spec_right() matches Some(h) && cloned(h, v)),
    {
        match self {
            Interval::TwoSided(_, high) => Some(high.clone()),
            Interval::LowerOneSided(high) => Some(high.clone()),
            Interval::UpperOneSided(_) => None,
        }
    }
}

/// Executable access to the smallest and largest values of a bounded numeric
/// type, and to the difference of two of its values.  The bound-extraction
/// and width operations of [`Interval`] build on it.
pub trait Bounded: Sized + Copy {
    /// The smallest value of the type.
    spec fn spec_min() -> Self;

    /// The largest value of the type.
    spec fn spec_max() -> Self;

    /// Whether `self - rhs` stays within the type.
    spec fn diff_ok(self, rhs: Self) -> bool;

    /// The difference `self - rhs`.
    spec fn spec_diff(self, rhs: Self) -> Self;

    /// Return the smallest value of the type.
    fn min_value() -> (r: Self)
        ensures
            r == Self::spec_min(),
    ;

    /// Return the largest value of the type.
    fn max_value() -> (r: Self)
        ensures
            r == Self::spec_max(),
    ;

    /// Return `self - rhs`.
    fn sub_value(self, rhs: Self) -> (r: Self)
        requires
            self.diff_ok(rhs),
        ensures
            r == self.spec_diff(rhs),
    ;
}

impl Bounded for i32 {
    open spec fn spec_min() -> i32 {
        i32::MIN
    }

    open spec fn spec_max() -> i32 {
        i32::MAX
    }

    open spec fn diff_ok(self, rhs: i32) -> bool {
        i32::MIN <= self - rhs <= i32::MAX
    }

    open spec fn spec_diff(self, rhs: i32) -> i32 {
        (self - rhs) as i32
    }

    fn min_value() -> i32 {
        i32::MIN
    }

    fn max_value() -> i32 {
        i32::MAX
    }

    fn sub_value(self, rhs: i32) -> i32 {
        self - rhs
    }
}

impl Bounded for i64 {
    open spec fn spec_min() -> i64 {
        i64::MIN
    }

    open spec fn spec_max() -> i64 {
        i64::MAX
    }

    open spec fn diff_ok(self, rhs: i64) -> bool {
        i64::MIN <= self - rhs <= i64::MAX
    }

    open spec fn spec_diff(self, rhs: i64) -> i64 {
        (self - rhs) as i64
    }

    fn min_value() -> i64 {
        i64::MIN
    }

    fn max_value() -> i64 {
        i64::MAX
    }

    fn sub_value(self, rhs: i64) -> i64 {
        self - rhs
    }
}

impl Bounded for u32 {
    open spec fn spec_min() -> u32 {
        0u32
    }

    open spec fn spec_max() -> u32 {
        u32::MAX
    }

    open spec fn diff_ok(self, rhs: u32) -> bool {
        rhs <= self
    }

    open spec fn spec_diff(self, rhs: u32) -> u32 {
        (self - rhs) as u32
    }

    fn min_value() -> u32 {
        0u32
    }

    fn max_value() -> u32 {
        u32::MAX
    }

    fn sub_value(self, rhs: u32) -> u32 {
        self - rhs
    }
}

impl Bounded for u64 {
    open spec fn spec_min() -> u64 {
        0u64
    }

    open spec fn spec_max() -> u64 {
        u64::MAX
    }

    open spec fn diff_ok(self, rhs: u64) -> bool {
        rhs <= self
    }

    open spec fn spec_diff(self, rhs: u64) -> u64 {
        (self - rhs) as u64
    }

    fn min_value() -> u64 {
        0u64
    }

    fn max_value() -> u64 {
        u64::MAX
    }

    fn sub_value(self, rhs: u64) -> u64 {
        self - rhs
    }
}

impl Bounded for usize {
    open spec fn spec_min() -> usize {
        0usize
    }

    open spec fn spec_max() -> usize {
        usize::MAX
    }

    open spec fn diff_ok(self, rhs: usize) -> bool {
        rhs <= self
    }

    open spec fn spec_diff(self, rhs: usize) -> usize {
        (self - rhs) as usize
    }

    fn min_value() -> usize {
        0usize
    }

    fn max_value() -> usize {
        usize::MAX
    }

    fn sub_value(self, rhs: usize) -> usize {
        self - rhs
    }
}

impl<T: PartialOrd + Bounded> Interval<T> {
    /// The lower bound for a signed bounded type; a lower one-sided interval
    /// reports the type's smallest value.
    pub fn low_i(&self) -> (r: T)
        ensures
            match *self {
                Interval::TwoSided(low, _) => r == low,
                Interval::UpperOneSided(low) => r == low,
                Interval::LowerOneSided(_) => r == T::spec_min(),
            },
    {
        match self {
            Interval::TwoSided(low, _) => *low,
            Interval::UpperOneSided(low) => *low,
            Interval::LowerOneSided(_) => T::min_value(),
        }
    }

    /// The upper bound for a signed bounded type; an upper one-sided interval
    /// reports the type's largest value.
    pub fn high_i(&self) -> (r: T)
        ensures
            match *self {
                Interval::TwoSided(_, high) => r == high,
                Interval::LowerOneSided(high) => r == high,
                Interval::UpperOneSided(_) => r == T::spec_max(),
            },
    {
        match self {
            Interval::TwoSided(_, high) => *high,
            Interval::LowerOneSided(high) => *high,
            Interval::UpperOneSided(_) => T::max_value(),
        }
    }

    /// The lower bound for an unsigned bounded type; a lower one-sided
    /// interval reports the type's smallest value, which is zero.
    pub fn low_u(&self) -> (r: T)
        ensures
            match *self {
                Interval::TwoSided(low, _) => r == low,
                Interval::UpperOneSided(low) => r == low,
                Interval::LowerOneSided(_) => r == T::spec_min(),
            },
    {
        match self {
            Interval::TwoSided(low, _) => *low,
            Interval::UpperOneSided(low) => *low,
            Interval::LowerOneSided(_) => T::min_value(),
        }
    }

    /// The upper bound for an unsigned bounded type; an upper one-sided
    /// interval reports the type's largest value.
    pub fn high_u(&self) -> (r: T)
        ensures
            match *self {
                Interval::TwoSided(_, high) => r == high,
                Interval::LowerOneSided(high) => r == high,
                Interval::UpperOneSided(_) => r == T::spec_max(),
            },
    {
        match self {
            Interval::TwoSided(_, high) => *high,
            Interval::LowerOneSided(high) => *high,
            Interval::UpperOneSided(_) => T::max_value(),
        }
    }

    /// The width `high - low` of a two-sided interval; one-sided intervals
    /// have none.
    pub fn width(&self) -> (r: Option<T>)
        requires
            self matches Interval::TwoSided(low, high) ==> high.diff_ok(*low),
        ensures
            match *self {
                Interval::TwoSided(low, high) => r == Some(high.spec_diff(low)),
                _ => r is None,
            },
    {
        match self {
            Interval::TwoSided(low, high) => Some((*high).sub_value(*low)),
            _ => None,
        }
    }
}

impl<T: PartialOrd> PartialEq for Interval<T> {
    /// Structural equality: same variant, and bounds that compare equal.
    fn eq(&self, other: &Self) -> (r: bool) {
        match (self, other) {
            (Interval::TwoSided(a, b), Interval::TwoSided(x, y)) => a == x && b == y,
            (Interval::UpperOneSided(a), Interval::UpperOneSided(x)) => a == x,
            (Interval::LowerOneSided(a), Interval::LowerOneSided(x)) => a == x,
            _ => false,
        }
    }
}

impl<T: PartialOrd> PartialEqSpecImpl for Interval<T> {
    open spec fn obeys_eq_spec() -> bool {
        T::obeys_eq_spec()
    }

    open spec fn eq_spec(&self, other: &Self) -> bool {
        match (*self, *other) {
            (Interval::TwoSided(a, b), Interval::TwoSided(x, y)) => a.eq_spec(&x) && b.eq_spec(&y),
            (Interval::UpperOneSided(a), Interval::UpperOneSided(x)) => a.eq_spec(&x),
            (Interval::LowerOneSided(a), Interval::LowerOneSided(x)) => a.eq_spec(&x),
            _ => false,
        }
    }
}

impl<T: PartialOrd> Interval<T> {
    /// Whether the finite lower bound of `self` sits at or above the finite
    /// upper bound of `other`, so that every point of `self` is at or above
    /// every point of `other`.
    pub open spec fn spec_above(self, other: Self) -> bool {
        match (self, other) {
            (Interval::UpperOneSided(low), Interval::LowerOneSided(high)) => low.is_ge(&high),
            (Interval::UpperOneSided(low), Interval::TwoSided(_, high)) => low.is_ge(&high),
            (Interval::TwoSided(low, _), Interval::LowerOneSided(high)) => low.is_ge(&high),
            (Interval::TwoSided(low, _), Interval::TwoSided(_, high)) => low.is_ge(&high),
            _ => false,
        }
    }
}

impl<T: PartialOrd> PartialOrd for Interval<T> {
    /// Interval order: `a < b` when the upper bound of `a` is at or below the
    /// lower bound of `b`; equal intervals compare equal; overlapping
    /// intervals do not compare.
    fn partial_cmp(&self, other: &Self) -> (r: Option<Ordering>) {
        if self == other {
            Some(Ordering::Equal)
        } else {
            let above = match (self, other) {
                (Interval::UpperOneSided(low), Interval::LowerOneSided(high)) => low >= high,
                (Interval::UpperOneSided(low), Interval::TwoSided(_, high)) => low >= high,
                (Interval::TwoSided(low, _), Interval::LowerOneSided(high)) => low >= high,
                (Interval::TwoSided(low, _), Interval::TwoSided(_, high)) => low >= high,
                _ => false,
            };
            if above {
                Some(Ordering::Greater)
            } else {
                let below = match (self, other) {
                    (Interval::LowerOneSided(high), Interval::UpperOneSided(low)) => low >= high,
                    (Interval::LowerOneSided(high), Interval::TwoSided(low, _)) => low >= high,
                    (Interval::TwoSided(_, high), Interval::UpperOneSided(low)) => low >= high,
                    (Interval::TwoSided(_, high), Interval::TwoSided(low, _)) => low >= high,
                    _ => false,
                };
                if below {
                    Some(Ordering::Less)
                } else {
                    None
                }
            }
        }
    }
}

impl<T: PartialOrd> PartialOrdSpecImpl for Interval<T> {
    open spec fn obeys_partial_cmp_spec() -> bool {
        T::obeys_eq_spec() && T::obeys_partial_cmp_spec()
    }

    open spec fn partial_cmp_spec(&self, other: &Self) -> Option<Ordering> {
        if PartialEqSpec::eq_spec(self, other) {
            Some(Ordering::Equal)
        } else if self.spec_above(*other) {
            Some(Ordering::Greater)
        } else if other.spec_above(*self) {
            Some(Ordering::Less)
        } else {
            None
        }
    }
}

impl<T: PartialOrd> TryFrom<(T, T)> for Interval<T> {
    type Error = IntervalError;

    /// Build a two-sided interval from `(low, high)`; fails when the bounds
    /// do not compare as `low <= high`.
    fn try_from(value: (T, T)) -> (r: Result<Self, IntervalError>) {
        if value.0 <= value.1 {
            Interval::new(value.0, value.1)
        } else {
            Err(IntervalError::InvalidBounds)
        }
    }
}

impl<T: PartialOrd> vstd::std_specs::convert::TryFromSpecImpl<(T, T)> for Interval<T> {
    open spec fn obeys_try_from_spec() -> bool {
        T::obeys_partial_cmp_spec()
    }

    open spec fn try_from_spec(value: (T, T)) -> Result<Self, IntervalError> {
        if value.0.is_le(&value.1) {
            Ok(Interval::TwoSided(value.0, value.1))
        } else {
            Err(IntervalError::InvalidBounds)
        }
    }
}

impl<T: PartialOrd> TryFrom<(Option<T>, Option<T>)> for Interval<T> {
    type Error = IntervalError;

    /// Build an interval from optional bounds: both present gives a two-sided
    /// interval, one present gives the matching one-sided interval, and none
    /// fails with [`IntervalError::EmptyInterval`].
    fn try_from(value: (Option<T>, Option<T>)) -> (r: Result<Self, IntervalError>) {
        match value {
            (Some(low), Some(high)) => Interval::new(low, high),
            (Some(low), None) => Ok(Interval::new_upper(low)),
            (None, Some(high)) => Ok(Interval::new_lower(high)),
            (None, None) => Err(IntervalError::EmptyInterval),
        }
    }
}

impl<T: PartialOrd> vstd::std_specs::convert::TryFromSpecImpl<(Option<T>, Option<T>)> for Interval<T> {
    open spec fn obeys_try_from_spec() -> bool {
        T::obeys_partial_cmp_spec()
    }

    open spec fn try_from_spec(value: (Option<T>, Option<T>)) -> Result<Self, IntervalError> {
        match value {
            (Some(low), Some(high)) => if low.is_gt(&high) {
                Err(IntervalError::InvalidBounds)
            } else {
                Ok(Interval::TwoSided(low, high))
            },
            (Some(low), None) => Ok(Interval::UpperOneSided(low)),
            (None, Some(high)) => Ok(Interval::LowerOneSided(high)),
            (None, None) => Err(IntervalError::EmptyInterval),
        }
    }
}

/// Relies on `core::ops::RangeInclusive::into_inner`: it hands back the pair
/// of the lower and the upper bound the range was built from.
pub assume_specification<Idx>[ core::ops::RangeInclusive::<Idx>::into_inner ](
    r: core::ops::RangeInclusive<Idx>,
) -> (ret: (Idx, Idx))
    ensures
        ret.0 == r@.start,
        ret.1 == r@.end,
;

impl<T: PartialOrd> TryFrom<core::ops::RangeInclusive<T>> for Interval<T> {
    type Error = IntervalError;

    /// Build a two-sided interval from an inclusive range; fails when the
    /// range's bounds do not compare as `start <= end`.
    fn try_from(range: core::ops::RangeInclusive<T>) -> (r: Result<Self, IntervalError>) {
        let (start, end) = range.into_inner();
        Interval::new(start, end)
    }
}

impl<T: PartialOrd> vstd::std_specs::convert::TryFromSpecImpl<core::ops::RangeInclusive<T>> for Interval<T> {
    open spec fn obeys_try_from_spec() -> bool {
        T::obeys_partial_cmp_spec()
    }

    open spec fn try_from_spec(range: core::ops::RangeInclusive<T>) -> Result<
        Self,
        IntervalError,
    > {
        if range@.start.is_gt(&range@.end) {
            Err(IntervalError::InvalidBounds)
        } else {
            Ok(Interval::TwoSided(range@.start, range@.end))
        }
    }
}

/// The std type `core::ops::RangeFrom`, declared so that a range such as
/// `low..` can stand in signatures; its single public field is `start`.
#[verifier::external_type_specification]
#[verifier::reject_recursive_types(Idx)]
pub struct ExRangeFrom<Idx>(core::ops::RangeFrom<Idx>);

/// The std type `core::ops::RangeToInclusive`, declared so that a range such
/// as `..=high` can stand in signatures; its single public field is `end`.
#[verifier::external_type_specification]
#[verifier::reject_recursive_types(Idx)]
pub struct ExRangeToInclusive<Idx>(core::ops::RangeToInclusive<Idx>);

impl<T: PartialOrd> From<core::ops::RangeFrom<T>> for Interval<T> {
    /// `low..` becomes the upper one-sided interval `[low, +oo)`.
    fn from(range: core::ops::RangeFrom<T>) -> (r: Self) {
        Interval::UpperOneSided(range.start)
    }
}

impl<T: PartialOrd> vstd::std_specs::convert::FromSpecImpl<core::ops::RangeFrom<T>> for Interval<T> {
    open spec fn obeys_from_spec() -> bool {
        true
    }

    open spec fn from_spec(range: core::ops::RangeFrom<T>) -> Self {
        Interval::UpperOneSided(range.start)
    }
}

impl<T: PartialOrd> From<core::ops::RangeToInclusive<T>> for Interval<T> {
    /// `..=high` becomes the lower one-sided interval `(-oo, high]`.
    fn from(range: core::ops::RangeToInclusive<T>) -> (r: Self) {
        Interval::LowerOneSided(range.end)
    }
}

impl<T: PartialOrd> vstd::std_specs::convert::FromSpecImpl<core::ops::RangeToInclusive<T>> for Interval<T> {
    open spec fn obeys_from_spec() -> bool {
        true
    }

    open spec fn from_spec(range: core::ops::RangeToInclusive<T>) -> Self {
        Interval::LowerOneSided(range.end)
    }
}

impl<T: PartialOrd> From<Interval<T>> for (Option<T>, Option<T>) {
    /// The pair of optional bounds of the interval; a one-sided interval
    /// leaves the missing side as `None`.
    fn from(interval: Interval<T>) -> (r: (Option<T>, Option<T>)) {
        match interval {
            Interval::TwoSided(low, high) => (Some(low), Some(high)),
            Interval::UpperOneSided(low) => (Some(low), None),
            Interval::LowerOneSided(high) => (None, Some(high)),
        }
    }
}

impl<T: PartialOrd> vstd::std_specs::convert::FromSpecImpl<Interval<T>> for (Option<T>, Option<T>) {
    open spec fn obeys_from_spec() -> bool {
        true
    }

    open spec fn from_spec(interval: Interval<T>) -> Self {
        match interval {
            Interval::TwoSided(low, high) => (Some(low), Some(high)),
            Interval::UpperOneSided(low) => (Some(low), None),
            Interval::LowerOneSided(high) => (None, Some(high)),
        }
    }
}

impl<T: PartialOrd + core::ops::Add<Output = T> + Copy> core::ops::Add<T> for Interval<T> {
    type Output = Interval<T>;

    /// Shift the interval by a scalar: the addition is applied to each finite
    /// bound, and the variant is kept.
    fn add(self, rhs: T) -> (r: Interval<T>) {
        match self {
            Interval::TwoSided(low, high) => Interval::TwoSided(low.add(rhs), high.add(rhs)),
            Interval::UpperOneSided(low) => Interval::UpperOneSided(low.add(rhs)),
            Interval::LowerOneSided(high) => Interval::LowerOneSided(high.add(rhs)),
        }
    }
}

impl<T: PartialOrd + core::ops::Add<Output = T> + Copy> vstd::std_specs::ops::AddSpecImpl<T> for Interval<T> {
    open spec fn obeys_add_spec() -> bool {
        T::obeys_add_spec()
    }

    open spec fn add_req(self, rhs: T) -> bool {
        match self {
            Interval::TwoSided(low, high) => low.add_req(rhs) && high.add_req(rhs),
            Interval::UpperOneSided(low) => low.add_req(rhs),
            Interval::LowerOneSided(high) => high.add_req(rhs),
        }
    }

    open spec fn add_spec(self, rhs: T) -> Interval<T> {
        match self {
            Interval::TwoSided(low, high) => Interval::TwoSided(
                low.add_spec(rhs),
                high.add_spec(rhs),
            ),
            Interval::UpperOneSided(low) => Interval::UpperOneSided(low.add_spec(rhs)),
            Interval::LowerOneSided(high) => Interval::LowerOneSided(high.add_spec(rhs)),
        }
    }
}

impl<T: PartialOrd + core::ops::Sub<Output = T> + Copy> core::ops::Sub<T> for Interval<T> {
    type Output = Interval<T>;

    /// Shift the interval down by a scalar: the subtraction is applied to
    /// each finite bound, and the variant is kept.
    fn sub(self, rhs: T) -> (r: Interval<T>) {
        match self {
            Interval::TwoSided(low, high) => Interval::TwoSided(low.sub(rhs), high.sub(rhs)),
            Interval::UpperOneSided(low) => Interval::UpperOneSided(low.sub(rhs)),
            Interval::LowerOneSided(high) => Interval::LowerOneSided(high.sub(rhs)),
        }
    }
}

impl<T: PartialOrd + core::ops::Sub<Output = T> + Copy> vstd::std_specs::ops::SubSpecImpl<T> for Interval<T> {
    open spec fn obeys_sub_spec() -> bool {
        T::obeys_sub_spec()
    }

    open spec fn sub_req(self, rhs: T) -> bool {
        match self {
            Interval::TwoSided(low, high) => low.sub_req(rhs) && high.sub_req(rhs),
            Interval::UpperOneSided(low) => low.sub_req(rhs),
            Interval::LowerOneSided(high) => high.sub_req(rhs),
        }
    }

    open spec fn sub_spec(self, rhs: T) -> Interval<T> {
        match self {
            Interval::TwoSided(low, high) => Interval::TwoSided(
                low.sub_spec(rhs),
                high.sub_spec(rhs),
            ),
            Interval::UpperOneSided(low) => Interval::UpperOneSided(low.sub_spec(rhs)),
            Interval::LowerOneSided(high) => Interval::LowerOneSided(high.sub_spec(rhs)),
        }
    }
}

/// Executable access to the zero of a numeric type.  The scalar
/// multiplication of [`Interval`] compares its factor against zero to know
/// whether the scaling reverses order.
pub trait Zeroed: Sized + Copy {
    /// The zero of the type.
    spec fn spec_zero() -> Self;

    /// Return the zero of the type.
    fn zero_value() -> (r: Self)
        ensures
            r == Self::spec_zero(),
    ;
}

impl Zeroed for i32 {
    open spec fn spec_zero() -> i32 {
        0i32
    }

    fn zero_value() -> i32 {
        0i32
    }
}

impl Zeroed for i64 {
    open spec fn spec_zero() -> i64 {
        0i64
    }

    fn zero_value() -> i64 {
        0i64
    }
}

impl Zeroed for u32 {
    open spec fn spec_zero() -> u32 {
        0u32
    }

    fn zero_value() -> u32 {
        0u32
    }
}

impl Zeroed for u64 {
    open spec fn spec_zero() -> u64 {
        0u64
    }

    fn zero_value() -> u64 {
        0u64
    }
}

impl Zeroed for usize {
    open spec fn spec_zero() -> usize {
        0usize
    }

    fn zero_value() -> usize {
        0usize
    }
}

impl<T: PartialOrd + core::ops::Mul<Output = T> + Copy + Zeroed> core::ops::Mul<T> for Interval<T> {
    type Output = Interval<T>;

    /// Scale the interval by a scalar.  Scaling by a negative factor reverses
    /// order, so the bounds of a two-sided interval swap to keep `low <=
    /// high`, and a one-sided interval changes direction; for a non-negative
    /// factor each finite bound is scaled in place and the variant is kept.
    fn mul(self, rhs: T) -> (r: Interval<T>) {
        if rhs < T::zero_value() {
            match self {
                Interval::TwoSided(low, high) => Interval::TwoSided(high.mul(rhs), low.mul(rhs)),
                Interval::UpperOneSided(low) => Interval::LowerOneSided(low.mul(rhs)),
                Interval::LowerOneSided(high) => Interval::UpperOneSided(high.mul(rhs)),
            }
        } else {
            match self {
                Interval::TwoSided(low, high) => Interval::TwoSided(low.mul(rhs), high.mul(rhs)),
                Interval::UpperOneSided(low) => Interval::UpperOneSided(low.mul(rhs)),
                Interval::LowerOneSided(high) => Interval::LowerOneSided(high.mul(rhs)),
            }
        }
    }
}

impl<T: PartialOrd + core::ops::Mul<Output = T> + Copy + Zeroed> vstd::std_specs::ops::MulSpecImpl<T> for Interval<T> {
    open spec fn obeys_mul_spec() -> bool {
        T::obeys_mul_spec() && T::obeys_partial_cmp_spec()
    }

    open spec fn mul_req(self, rhs: T) -> bool {
        match self {
            Interval::TwoSided(low, high) => low.mul_req(rhs) && high.mul_req(rhs),
            Interval::UpperOneSided(low) => low.mul_req(rhs),
            Interval::LowerOneSided(high) => high.mul_req(rhs),
        }
    }

    open spec fn mul_spec(self, rhs: T) -> Interval<T> {
        if rhs.is_lt(&T::spec_zero()) {
            match self {
                Interval::TwoSided(low, high) => Interval::TwoSided(
                    high.mul_spec(rhs),
                    low.mul_spec(rhs),
                ),
                Interval::UpperOneSided(low) => Interval::LowerOneSided(low.mul_spec(rhs)),
                Interval::LowerOneSided(high) => Interval::UpperOneSided(high.mul_spec(rhs)),
            }
        } else {
            match self {
                Interval::TwoSided(low, high) => Interval::TwoSided(
                    low.mul_spec(rhs),
                    high.mul_spec(rhs),
                ),
                Interval::UpperOneSided(low) => Interval::UpperOneSided(low.mul_spec(rhs)),
                Interval::LowerOneSided(high) => Interval::LowerOneSided(high.mul_spec(rhs)),
            }
        }
    }
}

impl<T: PartialOrd + core::ops::Div<Output = T> + Copy> core::ops::Div<T> for Interval<T> {
    type Output = Interval<T>;

    /// Divide the interval by a scalar: the division is applied to each
    /// finite bound, and the variant is kept.
    fn div(self, rhs: T) -> (r: Interval<T>) {
        match self {
            Interval::TwoSided(low, high) => Interval::TwoSided(low.div(rhs), high.div(rhs)),
            Interval::UpperOneSided(low) => Interval::UpperOneSided(low.div(rhs)),
            Interval::LowerOneSided(high) => Interval::LowerOneSided(high.div(rhs)),
        }
    }
}

impl<T: PartialOrd + core::ops::Div<Output = T> + Copy> vstd::std_specs::ops::DivSpecImpl<T> for Interval<T> {
    open spec fn obeys_div_spec() -> bool {
        T::obeys_div_spec()
    }

    open spec fn div_req(self, rhs: T) -> bool {
        match self {
            Interval::TwoSided(low, high) => low.div_req(rhs) && high.div_req(rhs),
            Interval::UpperOneSided(low) => low.div_req(rhs),
            Interval::LowerOneSided(high) => high.div_req(rhs),
        }
    }

    open spec fn div_spec(self, rhs: T) -> Interval<T> {
        match self {
            Interval::TwoSided(low, high) => Interval::TwoSided(
                low.div_spec(rhs),
                high.div_spec(rhs),
            ),
            Interval::UpperOneSided(low) => Interval::UpperOneSided(low.div_spec(rhs)),
            Interval::LowerOneSided(high) => Interval::LowerOneSided(high.div_spec(rhs)),
        }
    }
}

impl<T: PartialOrd + core::ops::Neg<Output = T> + Copy> core::ops::Neg for Interval<T> {
    type Output = Interval<T>;

    /// Mirror the interval at zero.  Negation reverses order, so the bounds
    /// of a two-sided interval swap to keep `low <= high`, and a one-sided
    /// interval changes direction: `-[low, high]` is `[-high, -low]`.
    fn neg(self) -> (r: Interval<T>) {
        match self {
            Interval::TwoSided(low, high) => Interval::TwoSided(high.neg(), low.neg()),
            Interval::UpperOneSided(low) => Interval::LowerOneSided(low.neg()),
            Interval::LowerOneSided(high) => Interval::UpperOneSided(high.neg()),
        }
    }
}

impl<T: PartialOrd + core::ops::Neg<Output = T> + Copy> vstd::std_specs::ops::NegSpecImpl for Interval<T> {
    open spec fn obeys_neg_spec() -> bool {
        T::obeys_neg_spec()
    }

    open spec fn neg_req(self) -> bool {
        match self {
            Interval::TwoSided(low, high) => low.neg_req() && high.neg_req(),
            Interval::UpperOneSided(low) => low.neg_req(),
            Interval::LowerOneSided(high) => high.neg_req(),
        }
    }

    open spec fn neg_spec(self) -> Interval<T> {
        match self {
            Interval::TwoSided(low, high) => Interval::TwoSided(high.neg_spec(), low.neg_spec()),
            Interval::UpperOneSided(low) => Interval::LowerOneSided(low.neg_spec()),
            Interval::LowerOneSided(high) => Interval::UpperOneSided(high.neg_spec()),
        }
    }
}

impl<T: PartialOrd + core::ops::Add<Output = T> + Copy> core::ops::Add for Interval<T> {
    type Output = Interval<T>;

    /// Interval addition: lower bounds add and upper bounds add, a missing
    /// side stays missing.  Two one-sided intervals of opposite directions
    /// cannot be added, since the sum would be unbounded on both sides; the
    /// precondition excludes that pair.
    fn add(self, rhs: Self) -> (r: Interval<T>) {
        match (self, rhs) {
            (Interval::TwoSided(a, b), Interval::TwoSided(x, y)) => Interval::TwoSided(
                a.add(x),
                b.add(y),
            ),
            (Interval::TwoSided(a, _), Interval::UpperOneSided(x)) => Interval::UpperOneSided(
                a.add(x),
            ),
            (Interval::UpperOneSided(a), Interval::UpperOneSided(x)) => Interval::UpperOneSided(
                a.add(x),
            ),
            (Interval::TwoSided(_, b), Interval::LowerOneSided(y)) => Interval::LowerOneSided(
                b.add(y),
            ),
            (Interval::LowerOneSided(b), Interval::LowerOneSided(y)) => Interval::LowerOneSided(
                b.add(y),
            ),
            (Interval::UpperOneSided(a), Interval::TwoSided(x, _)) => Interval::UpperOneSided(
                a.add(x),
            ),
            (Interval::LowerOneSided(b), Interval::TwoSided(_, y)) => Interval::LowerOneSided(
                b.add(y),
            ),
            (Interval::UpperOneSided(_), Interval::LowerOneSided(_)) => unreached(),
            (Interval::LowerOneSided(_), Interval::UpperOneSided(_)) => unreached(),
        }
    }
}

impl<T: PartialOrd + core::ops::Add<Output = T> + Copy> vstd::std_specs::ops::AddSpecImpl for Interval<T> {
    open spec fn obeys_add_spec() -> bool {
        T::obeys_add_spec()
    }

    open spec fn add_req(self, rhs: Self) -> bool {
        match (self, rhs) {
            (Interval::TwoSided(a, b), Interval::TwoSided(x, y)) => a.add_req(x) && b.add_req(y),
            (Interval::TwoSided(a, _), Interval::UpperOneSided(x)) => a.add_req(x),
            (Interval::UpperOneSided(a), Interval::UpperOneSided(x)) => a.add_req(x),
            (Interval::TwoSided(_, b), Interval::LowerOneSided(y)) => b.add_req(y),
            (Interval::LowerOneSided(b), Interval::LowerOneSided(y)) => b.add_req(y),
            (Interval::UpperOneSided(a), Interval::TwoSided(x, _)) => a.add_req(x),
            (Interval::LowerOneSided(b), Interval::TwoSided(_, y)) => b.add_req(y),
            (Interval::UpperOneSided(_), Interval::LowerOneSided(_)) => false,
            (Interval::LowerOneSided(_), Interval::UpperOneSided(_)) => false,
        }
    }

    open spec fn add_spec(self, rhs: Self) -> Interval<T> {
        match (self, rhs) {
            (Interval::TwoSided(a, b), Interval::TwoSided(x, y)) => Interval::TwoSided(
                a.add_spec(x),
                b.add_spec(y),
            ),
            (Interval::TwoSided(a, _), Interval::UpperOneSided(x)) => Interval::UpperOneSided(
                a.add_spec(x),
            ),
            (Interval::UpperOneSided(a), Interval::UpperOneSided(x)) => Interval::UpperOneSided(
                a.add_spec(x),
            ),
            (Interval::TwoSided(_, b), Interval::LowerOneSided(y)) => Interval::LowerOneSided(
                b.add_spec(y),
            ),
            (Interval::LowerOneSided(b), Interval::LowerOneSided(y)) => Interval::LowerOneSided(
                b.add_spec(y),
            ),
            (Interval::UpperOneSided(a), Interval::TwoSided(x, _)) => Interval::UpperOneSided(
                a.add_spec(x),
            ),
            (Interval::LowerOneSided(b), Interval::TwoSided(_, y)) => Interval::LowerOneSided(
                b.add_spec(y),
            ),
            (Interval::UpperOneSided(a), Interval::LowerOneSided(_)) => Interval::UpperOneSided(a),
            (Interval::LowerOneSided(b), Interval::UpperOneSided(_)) => Interval::LowerOneSided(b),
        }
    }
}

impl<T: PartialOrd + core::ops::Sub<Output = T> + Copy> core::ops::Sub for Interval<T> {
    type Output = Interval<T>;

    /// Interval subtraction: each bound of the difference pairs a bound of
    /// `self` with the opposite bound of `rhs`.  Two one-sided intervals of
    /// the same direction cannot be subtracted, since the difference would be
    /// unbounded on both sides; the precondition excludes that pair.
    fn sub(self, rhs: Self) -> (r: Interval<T>) {
        match (self, rhs) {
            (Interval::TwoSided(a, b), Interval::TwoSided(x, y)) => Interval::TwoSided(
                a.sub(y),
                b.sub(x),
            ),
            (Interval::TwoSided(_, b), Interval::UpperOneSided(x)) => Interval::LowerOneSided(
                b.sub(x),
            ),
            (Interval::LowerOneSided(b), Interval::UpperOneSided(x)) => Interval::LowerOneSided(
                b.sub(x),
            ),
            (Interval::TwoSided(a, _), Interval::LowerOneSided(y)) => Interval::UpperOneSided(
                a.sub(y),
            ),
            (Interval::UpperOneSided(a), Interval::LowerOneSided(y)) => Interval::UpperOneSided(
                a.sub(y),
            ),
            (Interval::UpperOneSided(a), Interval::TwoSided(_, y)) => Interval::UpperOneSided(
                a.sub(y),
            ),
            (Interval::LowerOneSided(b), Interval::TwoSided(x, _)) => Interval::LowerOneSided(
                b.sub(x),
            ),
            (Interval::UpperOneSided(_), Interval::UpperOneSided(_)) => unreached(),
            (Interval::LowerOneSided(_), Interval::LowerOneSided(_)) => unreached(),
        }
    }
}

impl<T: PartialOrd + core::ops::Sub<Output = T> + Copy> vstd::std_specs::ops::SubSpecImpl for Interval<T> {
    open spec fn obeys_sub_spec() -> bool {
        T::obeys_sub_spec()
    }

    open spec fn sub_req(self, rhs: Self) -> bool {
        match (self, rhs) {
            (Interval::TwoSided(a, b), Interval::TwoSided(x, y)) => a.sub_req(y) && b.sub_req(x),
            (Interval::TwoSided(_, b), Interval::UpperOneSided(x)) => b.sub_req(x),
            (Interval::LowerOneSided(b), Interval::UpperOneSided(x)) => b.sub_req(x),
            (Interval::TwoSided(a, _), Interval::LowerOneSided(y)) => a.sub_req(y),
            (Interval::UpperOneSided(a), Interval::LowerOneSided(y)) => a.sub_req(y),
            (Interval::UpperOneSided(a), Interval::TwoSided(_, y)) => a.sub_req(y),
            (Interval::LowerOneSided(b), Interval::TwoSided(x, _)) => b.sub_req(x),
            (Interval::UpperOneSided(_), Interval::UpperOneSided(_)) => false,
            (Interval::LowerOneSided(_), Interval::LowerOneSided(_)) => false,
        }
    }

    open spec fn sub_spec(self, rhs: Self) -> Interval<T> {
        match (self, rhs) {
            (Interval::TwoSided(a, b), Interval::TwoSided(x, y)) => Interval::TwoSided(
                a.sub_spec(y),
                b.sub_spec(x),
            ),
            (Interval::TwoSided(_, b), Interval::UpperOneSided(x)) => Interval::LowerOneSided(
                b.sub_spec(x),
            ),
            (Interval::LowerOneSided(b), Interval::UpperOneSided(x)) => Interval::LowerOneSided(
                b.sub_spec(x),
            ),
            (Interval::TwoSided(a, _), Interval::LowerOneSided(y)) => Interval::UpperOneSided(
                a.sub_spec(y),
            ),
            (Interval::UpperOneSided(a), Interval::LowerOneSided(y)) => Interval::UpperOneSided(
                a.sub_spec(y),
            ),
            (Interval::UpperOneSided(a), Interval::TwoSided(_, y)) => Interval::UpperOneSided(
                a.sub_spec(y),
            ),
            (Interval::LowerOneSided(b), Interval::TwoSided(x, _)) => Interval::LowerOneSided(
                b.sub_spec(x),
            ),
            (Interval::UpperOneSided(a), Interval::UpperOneSided(_)) => Interval::UpperOneSided(a),
            (Interval::LowerOneSided(b), Interval::LowerOneSided(_)) => Interval::LowerOneSided(b),
        }
    }
}

impl<T: PartialOrd + Bounded> From<Interval<T>> for (T, T) {
    /// The pair of bounds of the interval; a missing side is filled with the
    /// smallest or the largest value of the type.
    fn from(interval: Interval<T>) -> (r: (T, T)) {
        match interval {
            Interval::TwoSided(low, high) => (low, high),
            Interval::UpperOneSided(low) => (low, T::max_value()),
            Interval::LowerOneSided(high) => (T::min_value(), high),
        }
    }
}

impl<T: PartialOrd + Bounded> vstd::std_specs::convert::FromSpecImpl<Interval<T>> for (T, T) {
    open spec fn obeys_from_spec() -> bool {
        true
    }

    open spec fn from_spec(interval: Interval<T>) -> Self {
        match interval {
            Interval::TwoSided(low, high) => (low, high),
            Interval::UpperOneSided(low) => (low, T::spec_max()),
            Interval::LowerOneSided(high) => (T::spec_min(), high),
        }
    }
}

} // verus!
