//! The benchmark harness: pass bookkeeping and timing aggregation.
//!
//! A benchmark session runs the full-image render repeatedly: first a fixed
//! number of untimed warm-up passes, then a fixed number of timed sequential
//! passes, then as many timed parallel passes. The harness here decides which
//! pass comes next and records each elapsed duration in the right place; the
//! caller performs the pass (the rendering, the clock reads, the spawning and
//! joining of one worker per row) and hands back the elapsed nanoseconds.
//! The report at the end is the arithmetic mean of each timed phase and the
//! speedup ratio `sequential mean / parallel mean`, both in truncated integer
//! nanoseconds.

use vstd::prelude::*;

verus! {

/// What the caller should run next.
#[derive(Clone, Copy, PartialEq, Eq, Structural, Debug)]
pub enum Action {
    /// One more untimed warm-up pass.
    WarmupPass,
    /// One more timed sequential pass.
    SequentialPass,
    /// One more timed parallel pass.
    ParallelPass,
    /// Every pass is done; only the report is left.
    Finished,
}

/// The sum of a sequence of nanosecond samples.
pub open spec fn sum_nanos(s: Seq<u64>) -> int
    decreases s.len(),
{
    if s.len() == 0 {
        0
    } else {
        sum_nanos(s.drop_last()) + s.last()
    }
}

/// The arithmetic mean of the samples, truncated to whole nanoseconds.
pub open spec fn mean_of(s: Seq<u64>) -> int
    recommends
        s.len() > 0,
{
    sum_nanos(s) / (s.len() as int)
}

/// The arithmetic mean of the recorded samples, truncated to whole
/// nanoseconds.
pub fn mean_nanos(runs: &Vec<u64>) -> (m: u64)
    requires
        runs@.len() > 0,
    ensures
        m == mean_of(runs@),
{
    let mut acc: u128 = 0;
    let mut i: usize = 0;
    while i < runs.len()
        invariant
            i <= runs@.len(),
            acc == sum_nanos(runs@.take(i as int)),
            acc <= (i as int) * 0xffff_ffff_ffff_ffffu64,
        decreases runs@.len() - i,
    {
        proof {
            assert(runs@.take(i + 1).drop_last() =~= runs@.take(i as int));
            assert(runs@.take(i + 1).last() == runs@[i as int]);
        }
        acc = acc + (runs[i] as u128);
        i = i + 1;
    }
    proof {
        assert(runs@.take(runs@.len() as int) =~= runs@);
        vstd::arithmetic::div_mod::lemma_div_is_ordered(
            acc as int,
            (runs@.len() as int) * 0xffff_ffff_ffff_ffff,
            runs@.len() as int,
        );
        vstd::arithmetic::div_mod::lemma_div_by_multiple(
            0xffff_ffff_ffff_ffff,
            runs@.len() as int,
        );
    }
    (acc / (runs.len() as u128)) as u64
}

/// One benchmark session: how many passes each phase takes, and what has
/// been recorded so far. Warm-up passes are only counted; the timed phases
/// keep one nanosecond sample per pass, in the order the passes ran.
pub struct Bench {
    /// How many untimed warm-up passes the session starts with.
    pub warmup_passes: usize,
    /// How many timed passes each measured phase takes.
    pub reps: usize,
    /// Warm-up passes completed so far.
    pub warmup_done: usize,
    /// Elapsed nanoseconds of each completed sequential pass.
    pub sequential_runs: Vec<u64>,
    /// Elapsed nanoseconds of each completed parallel pass.
    pub parallel_runs: Vec<u64>,
}

/// The aggregated result of a finished session, in nanoseconds.
#[derive(Clone, Copy, PartialEq, Eq, Structural, Debug)]
pub struct BenchReport {
    /// Mean elapsed nanoseconds of one sequential pass.
    pub sequential_mean: u64,
    /// Mean elapsed nanoseconds of one parallel pass.
    pub parallel_mean: u64,
    /// `sequential_mean / parallel_mean`, truncated.
    pub speedup: u64,
}

impl Bench {
    /// The phases run in order and never overrun their pass counts.
    pub open spec fn well_formed(self) -> bool {
        &&& self.warmup_done <= self.warmup_passes
        &&& self.sequential_runs@.len() <= self.reps
        &&& self.parallel_runs@.len() <= self.reps
        &&& (self.warmup_done < self.warmup_passes ==> self.sequential_runs@.len() == 0
            && self.parallel_runs@.len() == 0)
        &&& (self.sequential_runs@.len() < self.reps ==> self.parallel_runs@.len() == 0)
    }

    /// The next pass owed: warm-up until its quota is filled, then the
    /// sequential phase, then the parallel one.
    pub open spec fn next_action_spec(self) -> Action {
        if self.warmup_done < self.warmup_passes {
            Action::WarmupPass
        } else if self.sequential_runs@.len() < self.reps {
            Action::SequentialPass
        } else if self.parallel_runs@.len() < self.reps {
            Action::ParallelPass
        } else {
            Action::Finished
        }
    }

    /// A fresh session: `warmup_passes` untimed passes, then `reps` timed
    /// passes per phase, nothing recorded yet.
    pub fn new(warmup_passes: usize, reps: usize) -> (b: Bench)
        ensures
            b.well_formed(),
            b.warmup_passes == warmup_passes,
            b.reps == reps,
            b.warmup_done == 0,
            b.sequential_runs@ == Seq::<u64>::empty(),
            b.parallel_runs@ == Seq::<u64>::empty(),
    {
        let b = Bench {
            warmup_passes,
            reps,
            warmup_done: 0,
            sequential_runs: Vec::new(),
            parallel_runs: Vec::new(),
        };
        proof {
            assert(b.sequential_runs@ =~= Seq::<u64>::empty());
            assert(b.parallel_runs@ =~= Seq::<u64>::empty());
        }
        b
    }

    /// What the caller should run next.
    pub fn next_action(&self) -> (a: Action)
        ensures
            a == self.next_action_spec(),
    {
        if self.warmup_done < self.warmup_passes {
            Action::WarmupPass
        } else if self.sequential_runs.len() < self.reps {
            Action::SequentialPass
        } else if self.parallel_runs.len() < self.reps {
            Action::ParallelPass
        } else {
            Action::Finished
        }
    }

    /// Records one completed pass. A warm-up pass only advances the count and
    /// discards the duration; a timed pass appends `elapsed_nanos` to the
    /// samples of its phase.
    pub fn record_pass(&mut self, elapsed_nanos: u64)
        requires
            old(self).well_formed(),
            old(self).next_action_spec() != Action::Finished,
        ensures
            final(self).well_formed(),
            final(self).warmup_passes == old(self).warmup_passes,
            final(self).reps == old(self).reps,
            old(self).next_action_spec() == Action::WarmupPass ==> {
                &&& final(self).warmup_done == old(self).warmup_done + 1
                &&& final(self).sequential_runs@ == old(self).sequential_runs@
                &&& final(self).parallel_runs@ == old(self).parallel_runs@
            },
            old(self).next_action_spec() == Action::SequentialPass ==> {
                &&& final(self).warmup_done == old(self).warmup_done
                &&& final(self).sequential_runs@ == old(self).sequential_runs@.push(elapsed_nanos)
                &&& final(self).parallel_runs@ == old(self).parallel_runs@
            },
            old(self).next_action_spec() == Action::ParallelPass ==> {
                &&& final(self).warmup_done == old(self).warmup_done
                &&& final(self).sequential_runs@ == old(self).sequential_runs@
                &&& final(self).parallel_runs@ == old(self).parallel_runs@.push(elapsed_nanos)
            },
    {
        if self.warmup_done < self.warmup_passes {
            self.warmup_done = self.warmup_done + 1;
        } else if self.sequential_runs.len() < self.reps {
            self.sequential_runs.push(elapsed_nanos);
        } else {
            self.parallel_runs.push(elapsed_nanos);
        }
    }

    /// Aggregates a finished session: the mean of each timed phase and the
    /// speedup ratio, all truncated to whole nanoseconds. Returns `None`
    /// exactly when the parallel mean truncates to zero nanoseconds, where
    /// the ratio would divide by zero.
    pub fn report(&self) -> (r: Option<BenchReport>)
        requires
            self.well_formed(),
            self.next_action_spec() == Action::Finished,
            self.reps > 0,
        ensures
            match r {
                None => mean_of(self.parallel_runs@) == 0,
                Some(rep) => {
                    &&& mean_of(self.parallel_runs@) != 0
                    &&& rep.sequential_mean == mean_of(self.sequential_runs@)
                    &&& rep.parallel_mean == mean_of(self.parallel_runs@)
                    &&& rep.speedup == mean_of(self.sequential_runs@) / mean_of(
                        self.parallel_runs@,
                    )
                },
            },
    {
        let sequential_mean = mean_nanos(&self.sequential_runs);
        let parallel_mean = mean_nanos(&self.parallel_runs);
        if parallel_mean == 0 {
            None
        } else {
            Some(BenchReport { sequential_mean, parallel_mean, speedup: sequential_mean / parallel_mean })
        }
    }
}

} // verus!
