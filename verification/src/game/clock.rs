//! Server-authoritative clocks (10 minutes a side, no increment) and the
//! think-time record used to spot bot-like streaks of ultra-fast moves.
use vstd::prelude::*;

verus! {

/// Default time control: 10 minutes per side.
pub const DEFAULT_CLOCK_MS: i64 = 600000;

/// Think times under this many milliseconds count as ultra-fast.
pub const FAST_MOVE_MS: i64 = 80;

/// This many ultra-fast moves in a row flag a timing anomaly.
pub const FAST_MOVE_STREAK_FOR_ANOMALY: usize = 4;

/// At most this many think times are kept per side.
pub const TIMING_SAMPLE_CAP: usize = 12;

pub struct MatchClock {
    white_ms: i64,
    black_ms: i64,
    white_move_times_ms: Vec<i64>,
    black_move_times_ms: Vec<i64>,
    ply_count: u32,
}

/// The samples kept after appending: the newest `TIMING_SAMPLE_CAP` entries.
pub open spec fn spec_keep_recent(s: Seq<i64>) -> Seq<i64> {
    if s.len() > 12 {
        s.skip(s.len() - 12)
    } else {
        s
    }
}

/// The last four samples are all ultra-fast.
pub open spec fn spec_fast_streak(s: Seq<i64>) -> bool {
    s.len() >= 4 && forall|k: int| s.len() - 4 <= k < s.len() ==> #[trigger] s[k] < 80
}

/// Remaining time after charging `elapsed`, never below zero.
pub open spec fn spec_after_tick(remaining: int, elapsed: int) -> int {
    if remaining - elapsed > 0 {
        remaining - elapsed
    } else {
        0
    }
}

impl MatchClock {
    pub closed spec fn white_ms(&self) -> i64 {
        self.white_ms
    }

    pub closed spec fn black_ms(&self) -> i64 {
        self.black_ms
    }

    pub closed spec fn white_times(&self) -> Seq<i64> {
        self.white_move_times_ms@
    }

    pub closed spec fn black_times(&self) -> Seq<i64> {
        self.black_move_times_ms@
    }

    pub closed spec fn plies(&self) -> u32 {
        self.ply_count
    }

    /// Both clocks at ten minutes, no samples yet.
    pub fn new() -> (c: Self)
        ensures
            c.white_ms() == DEFAULT_CLOCK_MS,
            c.black_ms() == DEFAULT_CLOCK_MS,
            c.white_times() == Seq::<i64>::empty(),
            c.black_times() == Seq::<i64>::empty(),
            c.plies() == 0,
    {
        MatchClock {
            white_ms: DEFAULT_CLOCK_MS,
            black_ms: DEFAULT_CLOCK_MS,
            white_move_times_ms: Vec::new(),
            black_move_times_ms: Vec::new(),
            ply_count: 0,
        }
    }

    /// Remaining time of each side, in milliseconds.
    pub fn remaining_ms(&self) -> (r: (i64, i64))
        ensures
            r == (self.white_ms(), self.black_ms()),
    {
        (self.white_ms, self.black_ms)
    }

    /// Charges `elapsed_ms` to the side that was to move (never below zero).
    /// Returns whether that side's flag fell, and the elapsed think time.
    pub fn tick_clock_for_side(&mut self, white_to_move: bool, elapsed_ms: i64) -> (r: (bool, i64))
        requires
            elapsed_ms >= 0,
        ensures
            white_to_move ==> final(self).white_ms() == spec_after_tick(old(self).white_ms() as int, elapsed_ms as int)
                && final(self).black_ms() == old(self).black_ms() && r == (final(self).white_ms()
                == 0, elapsed_ms),
            !white_to_move ==> final(self).black_ms() == spec_after_tick(old(self).black_ms() as int, elapsed_ms as int)
                && final(self).white_ms() == old(self).white_ms() && r == (final(self).black_ms()
                == 0, elapsed_ms),
            final(self).white_times() == old(self).white_times(),
            final(self).black_times() == old(self).black_times(),
            final(self).plies() == old(self).plies(),
    {
        if white_to_move {
            let left: i128 = self.white_ms as i128 - elapsed_ms as i128;
            self.white_ms = if left > 0 {
                left as i64
            } else {
                0
            };
            (self.white_ms == 0, elapsed_ms)
        } else {
            let left: i128 = self.black_ms as i128 - elapsed_ms as i128;
            self.black_ms = if left > 0 {
                left as i64
            } else {
                0
            };
            (self.black_ms == 0, elapsed_ms)
        }
    }

    /// Records the think time of the side that just moved. Returns whether the
    /// timing looks bot-like: only from the fifth ply on, and only when that
    /// side's last four think times were all under 80 ms.
    pub fn record_think_time(&mut self, white_moved: bool, think_ms: i64) -> (anomaly: bool)
        ensures
            final(self).plies() == if old(self).plies() == u32::MAX {
                u32::MAX
            } else {
                (old(self).plies() + 1) as u32
            },
            final(self).white_ms() == old(self).white_ms(),
            final(self).black_ms() == old(self).black_ms(),
            final(self).plies() <= 4 ==> !anomaly && final(self).white_times() == old(
                self,
            ).white_times() && final(self).black_times() == old(self).black_times(),
            final(self).plies() > 4 && white_moved ==> final(self).white_times() == spec_keep_recent(
                old(self).white_times().push(think_ms),
            ) && final(self).black_times() == old(self).black_times() && anomaly == spec_fast_streak(
                final(self).white_times(),
            ),
            final(self).plies() > 4 && !white_moved ==> final(self).black_times() == spec_keep_recent(
                old(self).black_times().push(think_ms),
            ) && final(self).white_times() == old(self).white_times() && anomaly == spec_fast_streak(
                final(self).black_times(),
            ),
    {
        self.ply_count = self.ply_count.saturating_add(1);
        if self.ply_count <= 4 {
            return false;
        }
        if white_moved {
            Self::push_sample(&mut self.white_move_times_ms, think_ms)
        } else {
            Self::push_sample(&mut self.black_move_times_ms, think_ms)
        }
    }

    fn push_sample(q: &mut Vec<i64>, think_ms: i64) -> (anomaly: bool)
        ensures
            final(q)@ == spec_keep_recent(old(q)@.push(think_ms)),
            anomaly == spec_fast_streak(final(q)@),
    {
        let ghost pushed = old(q)@.push(think_ms);
        q.push(think_ms);
        let ghost mut dropped: int = 0;
        while q.len() > TIMING_SAMPLE_CAP
            invariant
                0 <= dropped <= pushed.len(),
                q@ == pushed.skip(dropped),
                pushed.len() > 12 ==> dropped <= pushed.len() - 12,
                pushed.len() <= 12 ==> dropped == 0,
            decreases q.len(),
        {
            q.remove(0);
            proof {
                dropped = dropped + 1;
                assert(q@ =~= pushed.skip(dropped));
            }
        }
        proof {
            if pushed.len() > 12 {
                assert(dropped == pushed.len() - 12);
            } else {
                assert(pushed.skip(0) =~= pushed);
            }
        }
        let n = q.len();
        if n < FAST_MOVE_STREAK_FOR_ANOMALY {
            return false;
        }
        let mut fast: usize = 0;
        let mut k: usize = n - 4;
        while k < n
            invariant
                n == q.len(),
                n >= 4,
                n - 4 <= k <= n,
                fast <= k - (n - 4),
                fast == k - (n - 4) <==> (forall|m: int| n - 4 <= m < k ==> #[trigger] q@[m] < 80),
            decreases n - k,
        {
            if q[k] < FAST_MOVE_MS {
                fast += 1;
            }
            k += 1;
        }
        fast >= FAST_MOVE_STREAK_FOR_ANOMALY
    }
}

/// A timing anomaly always rests on a full streak: four think times of that
/// side, the newest being the move just made, all under 80 ms.
pub proof fn lemma_anomaly_needs_streak(samples: Seq<i64>, think_ms: i64)
    requires
        spec_fast_streak(spec_keep_recent(samples.push(think_ms))),
    ensures
        think_ms < 80,
        samples.len() >= 3,
{
    let kept = spec_keep_recent(samples.push(think_ms));
    assert(kept[kept.len() - 1] == think_ms);
}

} // verus!
