//! The cumulative risk score: per-event severities, the score tiers, and how
//! a score is recomputed (90-day severity sum, minus 5 per full clean week,
//! kept within 0..=100). No single event acts on an account by itself.
use vstd::prelude::*;

verus! {

/// Severity of one security event type (unknown types still count 5).
pub open spec fn spec_severity_for(t: Seq<char>) -> i64 {
    if t == "wallet_mismatch"@ {
        50
    } else if t == "fake_or_replayed_request"@ {
        30
    } else if t == "invalid_or_tampered_jwt"@ {
        20
    } else if t == "impossible_match_result_claim"@ {
        40
    } else if t == "modified_client_payload_detected"@ {
        100
    } else if t == "repeated_chargeback"@ {
        70
    } else if t == "multi_account_same_device"@ {
        25
    } else if t == "engine_move_similarity_high"@ {
        35
    } else if t == "impossible_move_timing"@ {
        25
    } else if t == "disconnect_pattern_losing_position"@ {
        15
    } else if t == "ad_verification_failed"@ {
        20
    } else if t == "bot_tool_detected_on_screen"@ {
        40
    } else if t == "referral_fraud_pattern"@ {
        30
    } else if t == "chargeback_deficit"@ {
        70
    } else if t == "ledger_row_inconsistent"@ {
        100
    } else if t == "login_failed"@ {
        2
    } else if t == "2fa_retry"@ {
        3
    } else {
        5
    }
}

/// Severity table for security events.
pub fn severity_for(event_type: &str) -> (s: i64)
    ensures
        s == spec_severity_for(event_type@),
{
    if event_type.eq("wallet_mismatch") {
        50
    } else if event_type.eq("fake_or_replayed_request") {
        30
    } else if event_type.eq("invalid_or_tampered_jwt") {
        20
    } else if event_type.eq("impossible_match_result_claim") {
        40
    } else if event_type.eq("modified_client_payload_detected") {
        100
    } else if event_type.eq("repeated_chargeback") {
        70
    } else if event_type.eq("multi_account_same_device") {
        25
    } else if event_type.eq("engine_move_similarity_high") {
        35
    } else if event_type.eq("impossible_move_timing") {
        25
    } else if event_type.eq("disconnect_pattern_losing_position") {
        15
    } else if event_type.eq("ad_verification_failed") {
        20
    } else if event_type.eq("bot_tool_detected_on_screen") {
        40
    } else if event_type.eq("referral_fraud_pattern") {
        30
    } else if event_type.eq("chargeback_deficit") {
        70
    } else if event_type.eq("ledger_row_inconsistent") {
        100
    } else if event_type.eq("login_failed") {
        2
    } else if event_type.eq("2fa_retry") {
        3
    } else {
        5
    }
}

/// Score tiers.
#[derive(Debug, Clone, Copy, PartialEq, Eq, Structural)]
pub enum RiskTier {
    /// 0..=30
    Safe,
    /// 31..=60
    Observe,
    /// 61..=80
    Elevated,
    /// 81 and above (and anything outside the other ranges)
    High,
}

pub open spec fn spec_tier_for_score(score: int) -> RiskTier {
    if 0 <= score <= 30 {
        RiskTier::Safe
    } else if 31 <= score <= 60 {
        RiskTier::Observe
    } else if 61 <= score <= 80 {
        RiskTier::Elevated
    } else {
        RiskTier::High
    }
}

pub fn tier_for_score(score: i64) -> (t: RiskTier)
    ensures
        t == spec_tier_for_score(score as int),
{
    if 0 <= score && score <= 30 {
        RiskTier::Safe
    } else if 31 <= score && score <= 60 {
        RiskTier::Observe
    } else if 61 <= score && score <= 80 {
        RiskTier::Elevated
    } else {
        RiskTier::High
    }
}

pub open spec fn clamp_0_100(x: int) -> int {
    if x < 0 {
        0
    } else if x > 100 {
        100
    } else {
        x
    }
}

/// Score from the 90-day severity sum and, when the user has a last
/// severity-bearing event, the number of full weeks since it (negative
/// counts as zero): `clamp(raw - 5 * clean_weeks, 0, 100)`.
pub open spec fn spec_recalculated_score(raw_90d: int, clean_weeks: Option<int>) -> int {
    clamp_0_100(raw_90d - spec_decay(clean_weeks))
}

pub open spec fn spec_decay(clean_weeks: Option<int>) -> int {
    match clean_weeks {
        Some(w) => if w > 0 {
            w * 5
        } else {
            0
        },
        None => 0,
    }
}

/// Recomputes a score; also returns the decay that was applied, which is
/// recorded beside the score.
pub fn recalculated_score(raw_90d: i64, clean_weeks: Option<i64>) -> (r: (i64, i64))
    requires
        clean_weeks matches Some(w) ==> w <= i64::MAX / 5,
    ensures
        r.0 == spec_recalculated_score(
            raw_90d as int,
            match clean_weeks {
                Some(w) => Some(w as int),
                None => None,
            },
        ),
        r.1 == spec_decay(
            match clean_weeks {
                Some(w) => Some(w as int),
                None => None,
            },
        ),
        0 <= r.0 <= 100,
{
    let decay: i64 = match clean_weeks {
        Some(w) => if w > 0 {
            w * 5
        } else {
            0
        },
        None => 0,
    };
    let raw: i128 = (raw_90d as i128) - (decay as i128);
    let score: i64 = if raw < 0 {
        0
    } else if raw > 100 {
        100
    } else {
        raw as i64
    };
    (score, decay)
}

/// A recorded security event as the score reads it: its severity and its age
/// in seconds (negative for a timestamp in the future).
pub struct ScoredEvent {
    pub severity: i64,
    pub age_secs: i64,
}

/// The scoring window: 90 days.
pub const SCORE_WINDOW_SECS: i64 = 7776000;

/// One week, for the decay.
pub const WEEK_SECS: i64 = 604800;

pub open spec fn in_window(e: ScoredEvent) -> bool {
    e.age_secs < 7776000
}

/// The severity sum over the events of the last 90 days, added in order;
/// `None` when a running total leaves the `i64` range (the store refuses
/// such a sum).
pub open spec fn spec_window_sum(es: Seq<ScoredEvent>) -> Option<int>
    decreases es.len(),
{
    if es.len() == 0 {
        Some(0)
    } else {
        match spec_window_sum(es.drop_last()) {
            None => None,
            Some(t) => {
                let n = if in_window(es.last()) {
                    t + es.last().severity
                } else {
                    t
                };
                if i64::MIN <= n <= i64::MAX {
                    Some(n)
                } else {
                    None
                }
            },
        }
    }
}

/// Age of the most recent event that carries severity, if any.
pub open spec fn spec_latest_age(es: Seq<ScoredEvent>) -> Option<int>
    decreases es.len(),
{
    if es.len() == 0 {
        None
    } else {
        let rest = spec_latest_age(es.drop_last());
        let e = es.last();
        if e.severity > 0 {
            match rest {
                None => Some(e.age_secs as int),
                Some(a) => Some(
                    if e.age_secs < a {
                        e.age_secs as int
                    } else {
                        a
                    },
                ),
            }
        } else {
            rest
        }
    }
}

/// Full weeks in an age (a future timestamp counts as none).
pub open spec fn weeks_of(age: int) -> int {
    if age >= 0 {
        age / 604800
    } else {
        0
    }
}

/// The score a user's recorded events give: the 90-day sum, less five points
/// per full clean week since the latest severity-bearing event, kept within
/// 0..=100; `None` when the sum overflows.
pub open spec fn spec_score_from_events(es: Seq<ScoredEvent>) -> Option<int> {
    match spec_window_sum(es) {
        None => None,
        Some(t) => Some(
            spec_recalculated_score(
                t,
                match spec_latest_age(es) {
                    Some(a) => Some(weeks_of(a)),
                    None => None,
                },
            ),
        ),
    }
}

/// The score of a user's recorded events, with the decay applied (`None`
/// when the 90-day sum overflows).
pub fn score_from_events(events: &Vec<ScoredEvent>) -> (r: Option<(i64, i64)>)
    ensures
        match r {
            Some(x) => spec_score_from_events(events@) == Some(x.0 as int) && 0 <= x.0 <= 100,
            None => spec_score_from_events(events@) is None,
        },
{
    let mut sum: i64 = 0;
    let mut overflowed = false;
    let mut latest: Option<i64> = None;
    let mut i: usize = 0;
    while i < events.len()
        invariant
            i <= events.len(),
            spec_window_sum(events@.take(i as int)) == (if overflowed {
                None
            } else {
                Some(sum as int)
            }),
            spec_latest_age(events@.take(i as int)) == match latest {
                Some(a) => Some(a as int),
                None => None,
            },
        decreases events.len() - i,
    {
        let e = &events[i];
        proof {
            assert(events@.take(i + 1).drop_last() =~= events@.take(i as int));
            assert(events@.take(i + 1).last() == events@[i as int]);
        }
        if !overflowed && e.age_secs < SCORE_WINDOW_SECS {
            let n: i128 = sum as i128 + e.severity as i128;
            if n < i64::MIN as i128 || n > i64::MAX as i128 {
                overflowed = true;
            } else {
                sum = n as i64;
            }
        }
        if e.severity > 0 {
            latest = match latest {
                None => Some(e.age_secs),
                Some(a) => Some(
                    if e.age_secs < a {
                        e.age_secs
                    } else {
                        a
                    },
                ),
            };
        }
        i += 1;
    }
    proof {
        assert(events@.take(events.len() as int) =~= events@);
    }
    if overflowed {
        return None;
    }
    let weeks: Option<i64> = match latest {
        Some(a) => if a >= 0 {
            Some(a / WEEK_SECS)
        } else {
            Some(0)
        },
        None => None,
    };
    proof {
        if let Some(a) = latest {
            if a >= 0 {
                assert(a / 604800 <= i64::MAX / 5) by (nonlinear_arith)
                    requires
                        0 <= a <= i64::MAX,
                ;
            }
        }
    }
    Some(recalculated_score(sum, weeks))
}

/// What recording an event yields: right after a severity-bearing event is
/// written, the score is the 90-day severity sum (that event included) kept
/// within 0..=100, with no decay.
pub proof fn lemma_new_event_score(es: Seq<ScoredEvent>, e: ScoredEvent)
    requires
        e.severity > 0,
        e.age_secs == 0,
    ensures
        spec_score_from_events(es.push(e)) == match spec_window_sum(es.push(e)) {
            Some(t) => Some(clamp_0_100(t)),
            None => None,
        },
{
    let all = es.push(e);
    assert(all.drop_last() =~= es);
    assert(all.last() == e);
    assert(spec_latest_age(all) matches Some(a) && a <= 0);
}

pub open spec fn severities_nonnegative(es: Seq<ScoredEvent>) -> bool {
    forall|i: int| 0 <= i < es.len() ==> (#[trigger] es[i]).severity >= 0
}

pub open spec fn min_100(x: int) -> int {
    if x > 100 {
        100
    } else {
        x
    }
}

/// The window sum of events that all carry a non-negative severity is never negative.
proof fn lemma_window_sum_nonnegative(es: Seq<ScoredEvent>)
    requires
        severities_nonnegative(es),
    ensures
        spec_window_sum(es) matches Some(t) ==> t >= 0,
    decreases es.len(),
{
    if es.len() > 0 {
        let init = es.drop_last();
        assert forall|i: int| 0 <= i < init.len() implies (#[trigger] init[i]).severity >= 0 by {
            assert(init[i] == es[i]);
        }
        lemma_window_sum_nonnegative(init);
        assert(es.last() == es[es.len() - 1]);
    }
}

/// Recording an event of type `event_type` (of positive severity) on top of
/// the user's earlier events: the score it yields is the 90-day severity sum,
/// the new event included, capped at 100.
pub proof fn lemma_record_event_score(es: Seq<ScoredEvent>, event_type: Seq<char>)
    requires
        spec_severity_for(event_type) > 0,
        severities_nonnegative(es),
    ensures
        ({
            let all = es.push(ScoredEvent { severity: spec_severity_for(event_type), age_secs: 0 });
            spec_score_from_events(all) == match spec_window_sum(all) {
                Some(t) => Some(min_100(t)),
                None => None,
            }
        }),
{
    let e = ScoredEvent { severity: spec_severity_for(event_type), age_secs: 0 };
    let all = es.push(e);
    lemma_new_event_score(es, e);
    assert forall|i: int| 0 <= i < all.len() implies (#[trigger] all[i]).severity >= 0 by {
        if i < es.len() {
            assert(all[i] == es[i]);
        }
    }
    lemma_window_sum_nonnegative(all);
}

/// An admin's signed adjustment to a score, kept within 0..=100.
pub fn adjusted_risk_score(current: i64, adjustment: i64) -> (score: i64)
    ensures
        score == clamp_0_100(current + adjustment),
        0 <= score <= 100,
{
    let sum: i128 = (current as i128) + (adjustment as i128);
    if sum < 0 {
        0
    } else if sum > 100 {
        100
    } else {
        sum as i64
    }
}

/// Every recomputed score lands in a tier by its own range, never outside 0..=100.
pub proof fn lemma_recalculated_score_in_range(raw_90d: int, clean_weeks: Option<int>)
    ensures
        0 <= spec_recalculated_score(raw_90d, clean_weeks) <= 100,
        spec_recalculated_score(raw_90d, clean_weeks) > 80 ==> spec_tier_for_score(
            spec_recalculated_score(raw_90d, clean_weeks),
        ) == RiskTier::High,
{
}

/// Clean weeks never raise a score: more clean weeks, same or lower score.
pub proof fn lemma_decay_never_raises(raw_90d: int, w1: int, w2: int)
    requires
        w1 <= w2,
    ensures
        spec_recalculated_score(raw_90d, Some(w2)) <= spec_recalculated_score(raw_90d, Some(w1)),
{
}

} // verus!
