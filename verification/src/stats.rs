//! Resource-usage bookkeeping for the service front end: a bounded ring of
//! the most recent performance samples and running peak values, all
//! resettable. One tracker is process-wide state, constructed at server
//! start and fed by every stats request.

use vstd::prelude::*;

verus! {

/// How many samples the history keeps by default.
pub const DEFAULT_HISTORY_CAPACITY: usize = 60;

/// One observation of the process: when it was taken, CPU usage in
/// thousandths of a percent, and memory used in megabytes.
#[derive(Clone, Copy, Debug, PartialEq, Eq, Structural)]
pub struct PerfSample {
    pub timestamp: u64,
    pub cpu_milli: u64,
    pub mem_used_mb: u64,
}

/// One recording step of the ring: the new sample goes to the back, and
/// when the history would grow past `cap`, the oldest sample leaves.
pub open spec fn ring_step(h: Seq<PerfSample>, s: PerfSample, cap: int) -> Seq<PerfSample> {
    if h.len() + 1 <= cap {
        h.push(s)
    } else {
        h.push(s).subrange(1, h.len() as int + 1)
    }
}

/// The history after recording `samples` in order into an empty ring of
/// capacity `cap`.
pub open spec fn ring_after(samples: Seq<PerfSample>, cap: int) -> Seq<PerfSample>
    decreases samples.len(),
{
    if samples.len() == 0 {
        Seq::empty()
    } else {
        ring_step(ring_after(samples.drop_last(), cap), samples.last(), cap)
    }
}

/// While no more samples have arrived than the ring holds, nothing is
/// evicted: the history is exactly the samples in arrival order.
pub proof fn lemma_ring_all_kept(samples: Seq<PerfSample>, cap: int)
    requires
        cap >= 1,
        samples.len() <= cap,
    ensures
        ring_after(samples, cap) == samples,
    decreases samples.len(),
{
    if samples.len() == 0 {
        assert(ring_after(samples, cap) =~= samples);
    } else {
        lemma_ring_all_kept(samples.drop_last(), cap);
        assert(samples.drop_last().push(samples.last()) =~= samples);
    }
}

/// Once at least as many samples have arrived as the ring holds, the
/// history is exactly the most recent `cap` of them, the oldest evicted
/// first.
pub proof fn lemma_ring_retains_recent(samples: Seq<PerfSample>, cap: int)
    requires
        cap >= 1,
        samples.len() >= cap,
    ensures
        ring_after(samples, cap) == samples.subrange(samples.len() - cap, samples.len() as int),
    decreases samples.len(),
{
    if samples.len() == cap {
        lemma_ring_all_kept(samples, cap);
        assert(samples.subrange(samples.len() - cap, samples.len() as int) =~= samples);
    } else {
        let prev = samples.drop_last();
        lemma_ring_retains_recent(prev, cap);
        let kept = prev.subrange(prev.len() - cap, prev.len() as int);
        assert(kept.len() == cap);
        assert(ring_after(samples, cap) == kept.push(samples.last()).subrange(1, cap + 1));
        assert(kept.push(samples.last()).subrange(1, cap + 1) =~= samples.subrange(
            samples.len() - cap,
            samples.len() as int,
        )) by {
            assert(forall|i: int| 0 <= i < cap - 1 ==> #[trigger] kept.push(samples.last())[i + 1]
                == samples[samples.len() - cap + i]);
        }
    }
}

/// The ring of recent performance samples with running peak values.
pub struct PerfTracker {
    pub peak_cpu_milli: u64,
    pub peak_mem_mb: u64,
    pub history: Vec<PerfSample>,
    pub max_history: usize,
}

impl PerfTracker {
    /// The history never outgrows its capacity, which is at least one.
    pub open spec fn well_formed(&self) -> bool {
        self.max_history >= 1 && self.history@.len() <= self.max_history
    }

    /// An empty tracker that will keep the most recent `max_history` samples.
    pub fn new(max_history: usize) -> (r: PerfTracker)
        requires
            max_history >= 1,
        ensures
            r.well_formed(),
            r.peak_cpu_milli == 0,
            r.peak_mem_mb == 0,
            r.history@ == Seq::<PerfSample>::empty(),
            r.max_history == max_history,
    {
        let r = PerfTracker {
            peak_cpu_milli: 0,
            peak_mem_mb: 0,
            history: Vec::new(),
            max_history,
        };
        proof {
            assert(r.history@ =~= Seq::<PerfSample>::empty());
        }
        r
    }

    /// Records one sample: peaks rise to it where it exceeds them, it joins
    /// the back of the history, and the oldest sample leaves once the
    /// history is full.
    pub fn record(&mut self, s: PerfSample)
        requires
            old(self).well_formed(),
        ensures
            final(self).well_formed(),
            final(self).max_history == old(self).max_history,
            final(self).peak_cpu_milli == if s.cpu_milli > old(self).peak_cpu_milli {
                s.cpu_milli
            } else {
                old(self).peak_cpu_milli
            },
            final(self).peak_mem_mb == if s.mem_used_mb > old(self).peak_mem_mb {
                s.mem_used_mb
            } else {
                old(self).peak_mem_mb
            },
            final(self).history@ == ring_step(old(self).history@, s, old(self).max_history as int),
    {
        if s.cpu_milli > self.peak_cpu_milli {
            self.peak_cpu_milli = s.cpu_milli;
        }
        if s.mem_used_mb > self.peak_mem_mb {
            self.peak_mem_mb = s.mem_used_mb;
        }
        self.history.push(s);
        if self.history.len() > self.max_history {
            self.history.remove(0);
            proof {
                assert(self.history@ =~= ring_step(
                    old(self).history@,
                    s,
                    old(self).max_history as int,
                ));
            }
        }
    }

    /// Clears the history and both peaks; the capacity stays.
    pub fn reset(&mut self)
        ensures
            final(self).well_formed() == (final(self).max_history >= 1),
            final(self).max_history == old(self).max_history,
            final(self).peak_cpu_milli == 0,
            final(self).peak_mem_mb == 0,
            final(self).history@ == Seq::<PerfSample>::empty(),
    {
        self.peak_cpu_milli = 0;
        self.peak_mem_mb = 0;
        self.history.clear();
        proof {
            assert(self.history@ =~= Seq::<PerfSample>::empty());
        }
    }
}

} // verus!
