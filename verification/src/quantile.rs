//! The sample counter behind quantile estimates.
//!
//! A quantile confidence interval is resolved as a pair of order-statistic
//! indices into sorted data; the only running state it needs is the
//! population size, kept here.  Counters over disjoint samples merge by
//! addition, in any order and grouping.

use vstd::prelude::*;

use crate::error::IntervalError;
use crate::interval::Interval;
use vstd::pervasive::cloned;

verus! {

/// Resolve an interval of order-statistic indices against sorted data: each
/// finite index bound becomes the element at that position, and the variant
/// is kept.  Fails with [`IntervalError::InvalidBounds`] only when the two
/// selected elements do not compare as ordered, which cannot happen on
/// properly sorted data.
pub fn select_indices<T: PartialOrd + Clone>(sorted: &[T], indices: &Interval<usize>) -> (r:
    Result<Interval<T>, IntervalError>)
    requires
        indices.spec_left() matches Some(i) ==> i < sorted@.len(),
        indices.spec_right() matches Some(i) ==> i < sorted@.len(),
    ensures
        match *indices {
            Interval::TwoSided(lo, hi) => {
                &&& (r matches Ok(iv) ==> (iv matches Interval::TwoSided(a, b) && cloned(
                    sorted@[lo as int],
                    a,
                ) && cloned(sorted@[hi as int], b)))
                &&& (r matches Err(e) ==> e == IntervalError::InvalidBounds)
            },
            Interval::UpperOneSided(lo) => r matches Ok(iv) && (iv matches
                Interval::UpperOneSided(a) && cloned(sorted@[lo as int], a)),
            Interval::LowerOneSided(hi) => r matches Ok(iv) && (iv matches
                Interval::LowerOneSided(b) && cloned(sorted@[hi as int], b)),
        },
{
    match indices {
        Interval::TwoSided(lo, hi) => {
            let a = sorted[*lo].clone();
            let b = sorted[*hi].clone();
            Interval::new(a, b)
        },
        Interval::UpperOneSided(lo) => Ok(Interval::new_upper(sorted[*lo].clone())),
        Interval::LowerOneSided(hi) => Ok(Interval::new_lower(sorted[*hi].clone())),
    }
}

/// Running statistics for quantile estimation: the size of the population
/// observed so far.
#[derive(Debug, Clone, Copy, PartialEq, Eq, Structural, PartialOrd, Ord)]
pub struct Stats {
    population: usize,
}

impl Stats {
    /// The recorded population size.
    pub closed spec fn spec_population(self) -> usize {
        self.population
    }

    /// The merge of two counters: the populations add.  The sum is truncated
    /// to the machine word; the executable merge excludes that case by
    /// precondition.
    pub closed spec fn spec_combine(self, rhs: Stats) -> Stats {
        Stats { population: (self.population + rhs.population) as usize }
    }

    /// Create a counter for a population of the given size.
    pub fn new(population: usize) -> (r: Self)
        ensures
            r.spec_population() == population,
    {
        Stats { population }
    }

    /// The population size observed so far.
    pub fn population(&self) -> (r: usize)
        ensures
            r == self.spec_population(),
    {
        self.population
    }
}

impl Default for Stats {
    /// An empty counter: no observations yet.
    fn default() -> (r: Self)
        ensures
            r.spec_population() == 0,
    {
        Stats { population: 0 }
    }
}

impl core::ops::Add for Stats {
    type Output = Stats;

    /// Merge the counters of two disjoint samples by adding the populations.
    fn add(self, rhs: Stats) -> (r: Stats)
        ensures
            r == self.spec_combine(rhs),
            r.spec_population() == self.spec_population() + rhs.spec_population(),
    {
        Stats { population: self.population + rhs.population }
    }
}

impl vstd::std_specs::ops::AddSpecImpl for Stats {
    open spec fn obeys_add_spec() -> bool {
        true
    }

    open spec fn add_req(self, rhs: Stats) -> bool {
        self.spec_population() + rhs.spec_population() <= usize::MAX
    }

    open spec fn add_spec(self, rhs: Stats) -> Stats {
        self.spec_combine(rhs)
    }
}

impl core::ops::AddAssign for Stats {
    /// Merge another counter into this one.
    fn add_assign(&mut self, rhs: Stats)
        requires
            old(self).spec_population() + rhs.spec_population() <= usize::MAX,
        ensures
            *final(self) == old(self).spec_combine(rhs),
            final(self).spec_population() == old(self).spec_population()
                + rhs.spec_population(),
    {
        self.population = self.population + rhs.population;
    }
}

/// Merging sample counters is commutative.
pub proof fn lemma_combine_commutative(a: Stats, b: Stats)
    ensures
        a.spec_combine(b) == b.spec_combine(a),
{
}

/// Merging sample counters is associative, as long as the total population
/// fits in the machine word.
pub proof fn lemma_combine_associative(a: Stats, b: Stats, c: Stats)
    requires
        a.spec_population() + b.spec_population() + c.spec_population() <= usize::MAX,
    ensures
        a.spec_combine(b).spec_combine(c) == a.spec_combine(b.spec_combine(c)),
{
}

} // verus!
