//! Escalation: a permanent ban happens only after a sustained High score
//! (81-100) across three consecutive, independent evaluation cycles. A first
//! High reading only routes the account to admin review.
use vstd::prelude::*;

use super::risk_score::{spec_tier_for_score, tier_for_score, RiskTier};

verus! {

/// Cycles in a row at High needed for a permanent ban.
pub const CYCLES_FOR_BAN: i64 = 3;

/// What one evaluation cycle does for one user.
#[derive(Debug, Clone, Copy, PartialEq, Eq, Structural)]
pub enum EscalationAction {
    /// Below High this cycle: only the cycle record is written.
    RecordOnly,
    /// High, but not yet for three cycles: admin review queue.
    PendingReview { consecutive_high: i64 },
    /// High for three consecutive cycles: permanent ban and blacklist.
    PermanentBan,
}

/// Score recorded in one cycle record (an unreadable record counts as 0).
pub open spec fn cycle_score(recorded: Option<i64>) -> int {
    match recorded {
        Some(s) => s as int,
        None => 0,
    }
}

pub open spec fn cycle_is_high(recorded: Option<i64>) -> bool {
    spec_tier_for_score(cycle_score(recorded)) == RiskTier::High
}

/// Length of the leading run of High cycles, newest first.
pub open spec fn spec_consecutive_high(recent: Seq<Option<i64>>) -> nat
    decreases recent.len(),
{
    if recent.len() == 0 {
        0
    } else if cycle_is_high(recent[0]) {
        1 + spec_consecutive_high(recent.drop_first())
    } else {
        0
    }
}

/// Counts the leading run of High-tier cycles in the user's most recent cycle
/// records (newest first; the caller reads the last three).
pub fn count_consecutive_high_cycles(recent: &Vec<Option<i64>>) -> (n: i64)
    requires
        recent.len() <= i64::MAX,
    ensures
        n == spec_consecutive_high(recent@),
{
    let mut i: usize = 0;
    assert(recent@.skip(0) =~= recent@);
    while i < recent.len()
        invariant
            i <= recent.len(),
            recent.len() <= i64::MAX,
            forall|k: int| 0 <= k < i ==> cycle_is_high(#[trigger] recent@[k]),
            spec_consecutive_high(recent@) == i + spec_consecutive_high(recent@.skip(i as int)),
        decreases recent.len() - i,
    {
        assert(recent@.skip(i as int)[0] == recent@[i as int]);
        assert(recent@.skip(i as int).drop_first() =~= recent@.skip(i + 1));
        let score: i64 = match recent[i] {
            Some(s) => s,
            None => 0,
        };
        match tier_for_score(score) {
            RiskTier::High => {},
            _ => {
                return i as i64;
            },
        }
        i += 1;
    }
    assert(recent@.skip(i as int).len() == 0);
    i as i64
}

pub open spec fn spec_escalation_action(score: int, consecutive_high: int) -> EscalationAction {
    if spec_tier_for_score(score) != RiskTier::High {
        EscalationAction::RecordOnly
    } else if consecutive_high >= 3 {
        EscalationAction::PermanentBan
    } else {
        EscalationAction::PendingReview { consecutive_high: consecutive_high as i64 }
    }
}

/// Decision for one user in one sweep, from the user's current score and the
/// run of High cycles counted after this cycle was recorded.
pub fn escalation_action(score: i64, consecutive_high: i64) -> (a: EscalationAction)
    ensures
        a == spec_escalation_action(score as int, consecutive_high as int),
{
    match tier_for_score(score) {
        RiskTier::High => {
            if consecutive_high >= CYCLES_FOR_BAN {
                EscalationAction::PermanentBan
            } else {
                EscalationAction::PendingReview { consecutive_high }
            }
        },
        _ => EscalationAction::RecordOnly,
    }
}

/// The only path to a permanent ban: the current score is High and the
/// three newest cycle records are all High, with nothing lower between them.
pub proof fn lemma_ban_needs_three_high_cycles(score: int, recent: Seq<Option<i64>>)
    requires
        spec_escalation_action(score, spec_consecutive_high(recent) as int)
            == EscalationAction::PermanentBan,
    ensures
        spec_tier_for_score(score) == RiskTier::High,
        recent.len() >= 3,
        cycle_is_high(recent[0]) && cycle_is_high(recent[1]) && cycle_is_high(recent[2]),
{
    assert(spec_consecutive_high(recent) >= 3);
    if !cycle_is_high(recent[0]) {
    } else {
        let r1 = recent.drop_first();
        assert(spec_consecutive_high(r1) >= 2);
        assert(r1[0] == recent[1]);
        let r2 = r1.drop_first();
        assert(spec_consecutive_high(r2) >= 1);
        assert(r2[0] == recent[2]);
    }
}

/// One cycle below High breaks the streak: a lower reading anywhere among the
/// newest three records rules out a ban.
pub proof fn lemma_low_cycle_breaks_streak(score: int, recent: Seq<Option<i64>>, k: int)
    requires
        0 <= k < 3,
        k < recent.len(),
        !cycle_is_high(recent[k]),
    ensures
        spec_escalation_action(score, spec_consecutive_high(recent) as int)
            != EscalationAction::PermanentBan,
{
    if spec_escalation_action(score, spec_consecutive_high(recent) as int)
        == EscalationAction::PermanentBan {
        lemma_ban_needs_three_high_cycles(score, recent);
    }
}

} // verus!
