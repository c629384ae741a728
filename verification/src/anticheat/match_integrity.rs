//! Mid-match cheat signals. A single signal never pauses a match: only two or
//! more independent signals together pause it for a fast re-verification;
//! a confirmed case removes the suspected player and the opponent wins.
use vstd::prelude::*;

use crate::game::engine::GameOutcome;

verus! {

#[derive(Debug, Clone, Copy, PartialEq, Eq, Structural)]
pub struct MidMatchSignal {
    pub engine_similarity_high: bool,
    pub timing_anomaly: bool,
    pub bot_tool_on_screen: bool,
}

pub open spec fn b2n(b: bool) -> int {
    if b {
        1
    } else {
        0
    }
}

impl MidMatchSignal {
    pub open spec fn spec_count_active(&self) -> int {
        b2n(self.engine_similarity_high) + b2n(self.timing_anomaly) + b2n(self.bot_tool_on_screen)
    }

    /// How many of the three independent signals fired.
    pub fn count_active(&self) -> (n: u8)
        ensures
            n == self.spec_count_active(),
            n <= 3,
    {
        let mut n: u8 = 0;
        if self.engine_similarity_high {
            n += 1;
        }
        if self.timing_anomaly {
            n += 1;
        }
        if self.bot_tool_on_screen {
            n += 1;
        }
        n
    }

    /// Two or more signals together pause the match.
    pub fn crosses_pause_threshold(&self) -> (r: bool)
        ensures
            r == (self.spec_count_active() >= 2),
    {
        self.count_active() >= 2
    }
}

/// What the server does on a mid-match signal report, before any re-check.
#[derive(Debug, Clone, Copy, PartialEq, Eq, Structural)]
pub enum SignalResponse {
    /// Below the threshold: no pause; the isolated signals are logged at low
    /// severity (engine similarity and timing, when they fired).
    LogIsolated { log_engine_similarity: bool, log_timing: bool },
    /// Threshold crossed: pause and re-verify.
    PauseAndReverify,
}

pub fn respond_to_signal(signal: &MidMatchSignal) -> (r: SignalResponse)
    ensures
        signal.spec_count_active() >= 2 ==> r == SignalResponse::PauseAndReverify,
        signal.spec_count_active() < 2 ==> r == (SignalResponse::LogIsolated {
            log_engine_similarity: signal.engine_similarity_high,
            log_timing: signal.timing_anomaly,
        }),
{
    if signal.crosses_pause_threshold() {
        SignalResponse::PauseAndReverify
    } else {
        SignalResponse::LogIsolated {
            log_engine_similarity: signal.engine_similarity_high,
            log_timing: signal.timing_anomaly,
        }
    }
}

/// Result of a confirmed case: the suspected player loses.
pub fn cheat_confirmed_outcome(suspected_is_white: bool) -> (o: GameOutcome)
    ensures
        o == if suspected_is_white {
            GameOutcome::BlackWins
        } else {
            GameOutcome::WhiteWins
        },
{
    if suspected_is_white {
        GameOutcome::BlackWins
    } else {
        GameOutcome::WhiteWins
    }
}

/// One signal alone never pauses a match.
pub proof fn lemma_single_signal_never_pauses(signal: MidMatchSignal)
    requires
        signal.spec_count_active() <= 1,
    ensures
        signal.spec_count_active() < 2,
{
}

} // verus!
