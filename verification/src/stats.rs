//! Traffic counters, the copy loop that feeds them, and the sampler that
//! turns running totals into per-interval amounts.
use vstd::prelude::*;

verus! {

/// A running byte count. Adding wraps around at 2^64, as an atomic
/// `fetch_add` does.
pub struct Counter {
    pub amt: u64,
}

impl Counter {
    /// A counter at zero.
    pub fn new() -> (c: Counter)
        ensures
            c.amt == 0,
    {
        Counter { amt: 0 }
    }

    /// Adds `n` bytes, wrapping around at 2^64.
    pub fn add(&mut self, n: u64)
        ensures
            final(self).amt == (old(self).amt + n) % 0x1_0000_0000_0000_0000,
    {
        self.amt = self.amt.wrapping_add(n);
    }
}

/// Adding to a counter twice is adding the sum once: totals do not depend on
/// how the bytes were split into writes (all modulo 2^64).
pub proof fn lemma_counter_adds_compose(c: u64, a: u64, b: u64)
    ensures
        ((c + a) % 0x1_0000_0000_0000_0000 + b) % 0x1_0000_0000_0000_0000 == (c + (a + b))
            % 0x1_0000_0000_0000_0000,
{
    let m: int = 0x1_0000_0000_0000_0000;
    vstd::arithmetic::div_mod::lemma_add_mod_noop(c + a, b as int, m);
    vstd::arithmetic::div_mod::lemma_mod_twice(c + a, m);
    assert((c + a + b) == c + (a + b));
}

/// The uplink and downlink counters of a runtime.
pub struct Stats {
    pub uplink_counter: Counter,
    pub downlink_counter: Counter,
}

impl Stats {
    /// Both counters at zero.
    pub fn new() -> (s: Stats)
        ensures
            s.uplink_counter.amt == 0,
            s.downlink_counter.amt == 0,
    {
        Stats { uplink_counter: Counter::new(), downlink_counter: Counter::new() }
    }
}

/// What the copy loop does after the reader has filled its buffer.
#[derive(Clone, Copy, Debug, PartialEq, Eq)]
pub enum FillAction {
    /// The reader is exhausted: flush the writer and finish with the total.
    Finish(u64),
    /// Write the buffered bytes.
    Write,
}

/// Why the copy loop stopped early.
#[derive(Clone, Copy, Debug, PartialEq, Eq)]
pub enum CopyError {
    /// The writer accepted no bytes.
    WriteZero,
}

/// The running state of a counted copy: bytes copied so far.
pub struct CopyProgress {
    pub amt: u64,
}

impl CopyProgress {
    /// Nothing copied yet.
    pub fn new() -> (p: CopyProgress)
        ensures
            p.amt == 0,
    {
        CopyProgress { amt: 0 }
    }

    /// An empty fill ends the copy with the total; a non-empty one is written.
    pub fn on_fill(&self, filled: usize) -> (a: FillAction)
        ensures
            filled == 0 ==> a == FillAction::Finish(self.amt),
            filled > 0 ==> a == FillAction::Write,
    {
        if filled == 0 {
            FillAction::Finish(self.amt)
        } else {
            FillAction::Write
        }
    }

    /// Records `written` bytes taken by the writer: none is an error;
    /// otherwise they are added to the total and to the shared counter, if
    /// any, and the caller consumes them from the reader.
    pub fn on_written(&mut self, written: usize, cnt: &mut Option<Counter>) -> (r: Result<
        (),
        CopyError,
    >)
        requires
            old(self).amt + written <= u64::MAX,
        ensures
            written == 0 <==> r is Err,
            written == 0 ==> final(self).amt == old(self).amt && *final(cnt) == *old(cnt),
            written > 0 ==> final(self).amt == old(self).amt + written && match *old(cnt) {
                Some(c) => *final(cnt) matches Some(c2) && c2.amt == (c.amt + written)
                    % 0x1_0000_0000_0000_0000,
                None => *final(cnt) is None,
            },
    {
        if written == 0 {
            return Err(CopyError::WriteZero);
        }
        self.amt = self.amt + written as u64;
        match cnt {
            Some(c) => {
                c.add(written as u64);
            },
            None => {},
        }
        Ok(())
    }
}

/// Turns the running totals of the counters into the amounts moved since
/// the previous sample.
pub struct TrafficSampler {
    pub last_up_total: u64,
    pub last_down_total: u64,
}

impl TrafficSampler {
    /// A sampler that has seen zero totals.
    pub fn new() -> (s: TrafficSampler)
        ensures
            s.last_up_total == 0,
            s.last_down_total == 0,
    {
        TrafficSampler { last_up_total: 0, last_down_total: 0 }
    }

    /// The bytes moved up and down since the previous sample; the new totals
    /// become the reference for the next one.
    pub fn sample(&mut self, up_total: u64, down_total: u64) -> (r: (u64, u64))
        requires
            up_total >= old(self).last_up_total,
            down_total >= old(self).last_down_total,
        ensures
            r.0 == up_total - old(self).last_up_total,
            r.1 == down_total - old(self).last_down_total,
            final(self).last_up_total == up_total,
            final(self).last_down_total == down_total,
    {
        let up = up_total - self.last_up_total;
        let down = down_total - self.last_down_total;
        self.last_up_total = up_total;
        self.last_down_total = down_total;
        (up, down)
    }
}

/// The amounts a sampler reports for a run of totals, starting from zero.
pub open spec fn deltas(totals: Seq<u64>) -> Seq<int>
    decreases totals.len(),
{
    if totals.len() == 0 {
        seq![]
    } else if totals.len() == 1 {
        seq![totals[0] as int]
    } else {
        deltas(totals.drop_last()).push(totals.last() - totals[totals.len() - 2])
    }
}

/// The sum of a run of amounts.
pub open spec fn sum(s: Seq<int>) -> int
    decreases s.len(),
{
    if s.len() == 0 {
        0
    } else {
        sum(s.drop_last()) + s.last()
    }
}

/// The amounts a sampler reports add up to the last total it was given.
pub proof fn lemma_deltas_add_up(totals: Seq<u64>)
    requires
        totals.len() > 0,
    ensures
        sum(deltas(totals)) == totals.last(),
    decreases totals.len(),
{
    if totals.len() == 1 {
        assert(deltas(totals).drop_last() =~= Seq::<int>::empty());
        assert(sum(deltas(totals)) == sum(deltas(totals).drop_last()) + deltas(totals).last());
    } else {
        lemma_deltas_add_up(totals.drop_last());
        assert(totals.drop_last().last() == totals[totals.len() - 2]);
        assert(deltas(totals).drop_last() =~= deltas(totals.drop_last()));
        assert(sum(deltas(totals)) == sum(deltas(totals).drop_last()) + deltas(totals).last());
    }
}

} // verus!
