//! Counting statistics for proportion estimates: how many observations a
//! Boolean sample holds and how many of them are successes.
//!
//! The counters merge: two disjoint samples may be counted separately and the
//! counts added, in any order and grouping, with the same outcome as counting
//! the whole sample at once.  The lemmas at the end of this module state that
//! law.

use vstd::prelude::*;

verus! {

/// How many `true` values the sequence holds.
pub open spec fn count_true(s: Seq<bool>) -> int
    decreases s.len(),
{
    if s.len() == 0 {
        0
    } else {
        count_true(s.drop_last()) + if s.last() {
            1int
        } else {
            0int
        }
    }
}

/// The number of `true` values lies between zero and the sample size.
pub proof fn lemma_count_true_bounds(s: Seq<bool>)
    ensures
        0 <= count_true(s) <= s.len(),
    decreases s.len(),
{
    if s.len() > 0 {
        lemma_count_true_bounds(s.drop_last());
    }
}

/// Counting `true` values distributes over concatenation.
pub proof fn lemma_count_true_concat(s1: Seq<bool>, s2: Seq<bool>)
    ensures
        count_true(s1 + s2) == count_true(s1) + count_true(s2),
    decreases s2.len(),
{
    if s2.len() == 0 {
        assert(s1 + s2 =~= s1);
    } else {
        assert((s1 + s2).drop_last() =~= s1 + s2.drop_last());
        lemma_count_true_concat(s1, s2.drop_last());
    }
}

/// The classical validity conditions for the Wilson score interval: a sample
/// of more than thirty observations with more than five successes and more
/// than five failures.
pub open spec fn spec_is_significant(population: int, successes: int) -> bool {
    population > 30 && successes > 5 && population - successes > 5
}

/// Whether a sample is large enough for the Wilson score interval to be
/// statistically trustworthy; this check is advisory and does not block the
/// interval computation.
pub fn is_significant(population: usize, successes: usize) -> (r: bool)
    requires
        successes <= population,
    ensures
        r == spec_is_significant(population as int, successes as int),
{
    population > 30 && successes > 5 && population - successes > 5
}

/// The sufficient statistics of a Boolean sample: the number of observations
/// and the number of successes among them.
#[derive(Debug, Clone, Copy, PartialEq, Eq, Structural)]
pub struct Stats {
    population: usize,
    successes: usize,
}

impl Stats {
    /// Successes can never outnumber observations.
    #[verifier::type_invariant]
    spec fn inv(self) -> bool {
        self.successes <= self.population
    }

    /// The number of observations.
    pub closed spec fn spec_population(self) -> usize {
        self.population
    }

    /// The number of successes.
    pub closed spec fn spec_successes(self) -> usize {
        self.successes
    }

    /// The merge of two counters: observations and successes both add.  The
    /// sums are truncated to the machine word; the executable merge excludes
    /// that case by precondition.
    pub closed spec fn spec_combine(self, rhs: Stats) -> Stats {
        Stats {
            population: (self.population + rhs.population) as usize,
            successes: (self.successes + rhs.successes) as usize,
        }
    }

    /// Create statistics for `population` observations, `successes` of which
    /// succeeded.
    pub fn new(population: usize, successes: usize) -> (r: Self)
        requires
            successes <= population,
        ensures
            r.spec_population() == population,
            r.spec_successes() == successes,
    {
        Stats { population, successes }
    }

    /// The population size: the total number of observations.
    pub fn population(&self) -> (r: usize)
        ensures
            r == self.spec_population(),
            self.spec_successes() <= self.spec_population(),
    {
        proof {
            use_type_invariant(&*self);
        }
        self.population
    }

    /// The number of successes: the `true` observations in the sample.
    pub fn successes(&self) -> (r: usize)
        ensures
            r == self.spec_successes(),
            self.spec_successes() <= self.spec_population(),
    {
        proof {
            use_type_invariant(&*self);
        }
        self.successes
    }

    /// Record one successful observation.
    pub fn add_success(&mut self)
        requires
            old(self).spec_population() < usize::MAX,
        ensures
            final(self).spec_population() == old(self).spec_population() + 1,
            final(self).spec_successes() == old(self).spec_successes() + 1,
    {
        proof {
            use_type_invariant(&*self);
        }
        self.population = self.population + 1;
        self.successes = self.successes + 1;
    }

    /// Record one failed observation.
    pub fn add_failure(&mut self)
        requires
            old(self).spec_population() < usize::MAX,
        ensures
            final(self).spec_population() == old(self).spec_population() + 1,
            final(self).spec_successes() == old(self).spec_successes(),
    {
        proof {
            use_type_invariant(&*self);
        }
        self.population = self.population + 1;
    }

    /// Whether the sample meets the classical validity conditions of the
    /// Wilson score interval; see [`is_significant`].
    pub fn is_significant(&self) -> (r: bool)
        ensures
            r == spec_is_significant(
                self.spec_population() as int,
                self.spec_successes() as int,
            ),
    {
        proof {
            use_type_invariant(&*self);
        }
        is_significant(self.population, self.successes)
    }

    /// Count a further Boolean sample into the statistics: every observation
    /// raises the population, every `true` one also raises the successes.
    pub fn extend(&mut self, data: &Vec<bool>)
        requires
            old(self).spec_population() + data@.len() <= usize::MAX,
        ensures
            final(self).spec_population() == old(self).spec_population() + data@.len(),
            final(self).spec_successes() == old(self).spec_successes() + count_true(data@),
    {
        let mut i: usize = 0;
        while i < data.len()
            invariant
                i <= data.len(),
                old(self).spec_population() + data@.len() <= usize::MAX,
                self.spec_population() == old(self).spec_population() + i,
                self.spec_successes() == old(self).spec_successes() + count_true(
                    data@.take(i as int),
                ),
            decreases data.len() - i,
        {
            proof {
                lemma_count_true_bounds(data@.take(i as int));
                assert(data@.take(i as int + 1).drop_last() =~= data@.take(i as int));
            }
            if data[i] {
                self.add_success();
            } else {
                self.add_failure();
            }
            i = i + 1;
        }
        proof {
            assert(data@.take(data@.len() as int) =~= data@);
        }
    }

    /// Count a further sample, taking each observation as a success exactly
    /// when `is_success` accepts it.
    pub fn extend_if<T: Copy, F: Fn(T) -> bool>(&mut self, data: &Vec<T>, is_success: F)
        requires
            old(self).spec_population() + data@.len() <= usize::MAX,
            forall|j: int| 0 <= j < data@.len() ==> call_requires(is_success, (data@[j],)),
        ensures
            final(self).spec_population() == old(self).spec_population() + data@.len(),
            exists|picks: Seq<bool>|
                {
                    &&& picks.len() == data@.len()
                    &&& forall|j: int|
                        0 <= j < data@.len() ==> call_ensures(is_success, (data@[j],), picks[j])
                    &&& final(self).spec_successes() == old(self).spec_successes() + count_true(
                        picks,
                    )
                },
    {
        let ghost mut picks: Seq<bool> = Seq::empty();
        let mut i: usize = 0;
        while i < data.len()
            invariant
                i <= data.len(),
                old(self).spec_population() + data@.len() <= usize::MAX,
                forall|j: int| 0 <= j < data@.len() ==> call_requires(is_success, (data@[j],)),
                self.spec_population() == old(self).spec_population() + i,
                picks.len() == i,
                forall|j: int| 0 <= j < i ==> call_ensures(is_success, (data@[j],), picks[j]),
                self.spec_successes() == old(self).spec_successes() + count_true(picks),
            decreases data.len() - i,
        {
            let b = is_success(data[i]);
            proof {
                lemma_count_true_bounds(picks);
                assert(picks.push(b).drop_last() =~= picks);
            }
            if b {
                self.add_success();
            } else {
                self.add_failure();
            }
            proof {
                picks = picks.push(b);
            }
            i = i + 1;
        }
    }

    /// Build statistics from a Boolean sample, counting its `true` values as
    /// successes.
    pub fn from_iter(data: &Vec<bool>) -> (r: Self)
        ensures
            r == spec_stats_of(data@),
            r.spec_population() == data@.len(),
            r.spec_successes() == count_true(data@),
    {
        proof {
            vstd::std_specs::vec::axiom_spec_len(data);
        }
        let mut stats = Stats::new(0, 0);
        stats.extend(data);
        proof {
            lemma_count_true_bounds(data@);
            assert(stats == spec_stats_of(data@));
        }
        stats
    }
}

impl Default for Stats {
    /// Empty statistics: no observations and no successes.
    fn default() -> (r: Self)
        ensures
            r.spec_population() == 0,
            r.spec_successes() == 0,
    {
        Stats { population: 0, successes: 0 }
    }
}

impl core::ops::Add for Stats {
    type Output = Stats;

    /// Merge the statistics of two disjoint samples by adding their counts.
    fn add(self, rhs: Stats) -> (r: Stats)
        ensures
            r == self.spec_combine(rhs),
            r.spec_population() == self.spec_population() + rhs.spec_population(),
            r.spec_successes() == self.spec_successes() + rhs.spec_successes(),
    {
        proof {
            use_type_invariant(&self);
            use_type_invariant(&rhs);
        }
        Stats {
            population: self.population + rhs.population,
            successes: self.successes + rhs.successes,
        }
    }
}

impl vstd::std_specs::ops::AddSpecImpl for Stats {
    open spec fn obeys_add_spec() -> bool {
        true
    }

    open spec fn add_req(self, rhs: Stats) -> bool {
        self.spec_population() + rhs.spec_population() <= usize::MAX
    }

    open spec fn add_spec(self, rhs: Stats) -> Stats {
        self.spec_combine(rhs)
    }
}

/// The statistics that counting a whole sample yields: its length and its
/// number of `true` values.
pub closed spec fn spec_stats_of(s: Seq<bool>) -> Stats {
    Stats { population: s.len() as usize, successes: count_true(s) as usize }
}

/// What [`spec_stats_of`] counts, stated over the sample.
pub proof fn lemma_stats_of_counts(s: Seq<bool>)
    requires
        s.len() <= usize::MAX,
    ensures
        spec_stats_of(s).spec_population() == s.len(),
        spec_stats_of(s).spec_successes() == count_true(s),
{
    lemma_count_true_bounds(s);
}

/// Merging proportion counts is commutative.
pub proof fn lemma_combine_commutative(a: Stats, b: Stats)
    ensures
        a.spec_combine(b) == b.spec_combine(a),
{
}

/// Merging proportion counts is associative, as long as the total population
/// fits in the machine word.
pub proof fn lemma_combine_associative(a: Stats, b: Stats, c: Stats)
    requires
        a.spec_successes() <= a.spec_population(),
        b.spec_successes() <= b.spec_population(),
        c.spec_successes() <= c.spec_population(),
        a.spec_population() + b.spec_population() + c.spec_population() <= usize::MAX,
    ensures
        a.spec_combine(b).spec_combine(c) == a.spec_combine(b.spec_combine(c)),
{
}

/// Splitting a sample into two chunks, counting each chunk on its own and
/// merging the counts gives exactly the counts of the whole sample: partial
/// counters may be built in parallel and reduced.
pub proof fn lemma_merge_partition(s1: Seq<bool>, s2: Seq<bool>)
    requires
        s1.len() + s2.len() <= usize::MAX,
    ensures
        spec_stats_of(s1 + s2) == spec_stats_of(s1).spec_combine(spec_stats_of(s2)),
{
    lemma_count_true_bounds(s1);
    lemma_count_true_bounds(s2);
    lemma_count_true_concat(s1, s2);
}

} // verus!
