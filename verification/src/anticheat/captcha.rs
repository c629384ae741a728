//! Chess-themed CAPTCHA: when it is required, the three challenge types, and
//! how an answer is checked (the correct answer never leaves the server).
use vstd::prelude::*;

use super::risk_score::{spec_tier_for_score, tier_for_score, RiskTier};
use crate::text::{eq_ignore_ascii_case, spec_eq_ignore_ascii_case, spec_trim, trim};

use rand::seq::SliceRandom;

verus! {

/// A challenge as shown to the client.
pub struct CaptchaChallenge {
    pub challenge_id: String,
    /// "tap_the_knight" | "move_to_square" | "which_side_in_check"
    pub kind: String,
    pub board_fen: String,
    pub prompt: String,
}

/// A client's answer to a challenge.
pub struct VerifyCaptchaRequest {
    pub challenge_id: String,
    pub answer: String,
}

/// Bot-behaviour signals reported by the frontend; the server decides what they mean.
pub struct BotSignalReport {
    pub honeypot_filled: bool,
    pub mouse_movement_absent: bool,
    pub request_too_fast: bool,
}

#[derive(Debug, Clone, Copy, PartialEq, Eq, Structural)]
pub enum CaptchaKind {
    TapTheKnight,
    MoveToSquare,
    WhichSideInCheck,
}

/// Any reported bot signal counts.
pub fn bot_signals_present(report: &BotSignalReport) -> (r: bool)
    ensures
        r == (report.honeypot_filled || report.mouse_movement_absent || report.request_too_fast),
{
    report.honeypot_filled || report.mouse_movement_absent || report.request_too_fast
}

pub open spec fn spec_should_trigger_captcha(
    recent_attempt_count: int,
    bot_signals: bool,
    user_score: Option<int>,
) -> bool {
    recent_attempt_count >= 3 || bot_signals || match user_score {
        Some(s) => spec_tier_for_score(s) == RiskTier::Elevated || spec_tier_for_score(s)
            == RiskTier::High,
        None => false,
    }
}

/// A CAPTCHA is required after 3 recent attempts, on any bot signal, or when
/// the (known) user's risk score is Elevated or High.
pub fn should_trigger_captcha(
    recent_attempt_count: i64,
    bot_signals: bool,
    user_score: Option<i64>,
) -> (r: bool)
    ensures
        r == spec_should_trigger_captcha(
            recent_attempt_count as int,
            bot_signals,
            match user_score {
                Some(s) => Some(s as int),
                None => None,
            },
        ),
{
    if recent_attempt_count >= 3 {
        return true;
    }
    if bot_signals {
        return true;
    }
    match user_score {
        Some(score) => match tier_for_score(score) {
            RiskTier::Elevated | RiskTier::High => true,
            _ => false,
        },
        None => false,
    }
}

pub open spec fn spec_kind_name(kind: CaptchaKind) -> Seq<char> {
    match kind {
        CaptchaKind::TapTheKnight => "tap_the_knight"@,
        CaptchaKind::MoveToSquare => "move_to_square"@,
        CaptchaKind::WhichSideInCheck => "which_side_in_check"@,
    }
}

/// (board FEN, prompt, correct answer) of each challenge type.
pub open spec fn spec_challenge_content(kind: CaptchaKind) -> (Seq<char>, Seq<char>, Seq<char>) {
    match kind {
        CaptchaKind::TapTheKnight => (
            "8/8/3k4/8/3N4/8/3K4/8 w - - 0 1"@,
            "Tap the Knight"@,
            "d4"@,
        ),
        CaptchaKind::MoveToSquare => (
            "8/8/8/8/8/3K4/8/8 w - - 0 1"@,
            "Move the King to C3"@,
            "c3"@,
        ),
        CaptchaKind::WhichSideInCheck => (
            "4k3/8/8/8/8/8/4Q3/4K3 b - - 0 1"@,
            "Which side is in check?"@,
            "black"@,
        ),
    }
}

/// Picks one of the three challenge types uniformly at random (`SliceRandom::choose`
/// over the three kinds with the thread RNG). Which kind comes back is not stated.
#[verifier::external_body]
fn random_captcha_kind() -> CaptchaKind {
    *[CaptchaKind::TapTheKnight, CaptchaKind::MoveToSquare, CaptchaKind::WhichSideInCheck].choose(
        &mut rand::thread_rng(),
    ).unwrap()
}

/// Builds the challenge of the given type under the given id; returns it with
/// its correct answer (to be stored server-side only).
pub fn challenge_for_kind(kind: CaptchaKind, challenge_id: String) -> (r: (CaptchaChallenge, String))
    ensures
        r.0.challenge_id == challenge_id,
        r.0.kind@ == spec_kind_name(kind),
        (r.0.board_fen@, r.0.prompt@, r.1@) == spec_challenge_content(kind),
{
    let (name, fen, prompt, answer) = match kind {
        CaptchaKind::TapTheKnight => (
            "tap_the_knight",
            "8/8/3k4/8/3N4/8/3K4/8 w - - 0 1",
            "Tap the Knight",
            "d4",
        ),
        CaptchaKind::MoveToSquare => (
            "move_to_square",
            "8/8/8/8/8/3K4/8/8 w - - 0 1",
            "Move the King to C3",
            "c3",
        ),
        CaptchaKind::WhichSideInCheck => (
            "which_side_in_check",
            "4k3/8/8/8/8/8/4Q3/4K3 b - - 0 1",
            "Which side is in check?",
            "black",
        ),
    };
    (
        CaptchaChallenge {
            challenge_id,
            kind: String::from_str(name),
            board_fen: String::from_str(fen),
            prompt: String::from_str(prompt),
        },
        String::from_str(answer),
    )
}

/// A fresh challenge of a randomly chosen type, with its correct answer.
pub fn generate_challenge(challenge_id: String) -> (r: (CaptchaChallenge, String))
    ensures
        r.0.challenge_id == challenge_id,
        exists|kind: CaptchaKind|
            r.0.kind@ == spec_kind_name(kind) && (r.0.board_fen@, r.0.prompt@, r.1@)
                == spec_challenge_content(kind),
{
    let kind = random_captcha_kind();
    challenge_for_kind(kind, challenge_id)
}

/// What was stored for a challenge id: the correct answer (empty when the
/// record has none) and whether the challenge has expired (an unreadable
/// expiry counts as expired).
pub struct StoredCaptcha {
    pub answer: String,
    pub expired: bool,
}

pub open spec fn spec_captcha_passes(stored: Option<(Seq<char>, bool)>, submitted: Seq<char>) -> bool {
    match stored {
        None => false,
        Some((answer, expired)) => !expired && spec_eq_ignore_ascii_case(answer, spec_trim(submitted)),
    }
}

/// A challenge passes only when it exists, has not expired, and the submitted
/// answer (surrounding whitespace ignored) equals the stored one up to ASCII case.
pub fn captcha_passes(stored: &Option<StoredCaptcha>, submitted: &str) -> (r: bool)
    ensures
        r == spec_captcha_passes(
            match stored {
                Some(c) => Some((c.answer@, c.expired)),
                None => None,
            },
            submitted@,
        ),
{
    match stored {
        None => false,
        Some(c) => {
            if c.expired {
                return false;
            }
            let t = trim(submitted);
            eq_ignore_ascii_case(c.answer.as_str(), t.as_str())
        },
    }
}

pub open spec fn captcha_view(stored: Option<StoredCaptcha>) -> Option<(Seq<char>, bool)> {
    match stored {
        Some(c) => Some((c.answer@, c.expired)),
        None => None,
    }
}

/// One answer to a challenge: the stored challenge is taken out whatever the
/// outcome (a challenge is answered once), and the answer is judged against it.
pub fn answer_captcha(stored: &mut Option<StoredCaptcha>, submitted: &str) -> (r: bool)
    ensures
        r == spec_captcha_passes(captcha_view(*old(stored)), submitted@),
        *final(stored) is None,
{
    let taken = stored.take();
    captcha_passes(&taken, submitted)
}

/// A challenge is good for one answer: once answered, a second answer to the
/// same challenge never passes.
pub proof fn lemma_captcha_single_use(submitted: Seq<char>)
    ensures
        !spec_captcha_passes(captcha_view(None), submitted),
{
}

/// Risk alone triggers a CAPTCHA from score 61 on (Elevated and High), and
/// never below it (0..=60) when there are fewer than 3 attempts and no bot
/// signal; so for non-negative scores a higher score never turns it off.
pub proof fn lemma_captcha_by_risk(count: int, bot: bool, s1: int, s2: int)
    ensures
        61 <= s1 ==> spec_should_trigger_captcha(count, bot, Some(s1)),
        0 <= s1 <= 60 && count < 3 && !bot ==> !spec_should_trigger_captcha(count, bot, Some(s1)),
        0 <= s1 <= s2 && spec_should_trigger_captcha(count, bot, Some(s1))
            ==> spec_should_trigger_captcha(count, bot, Some(s2)),
        count >= 3 || bot ==> spec_should_trigger_captcha(count, bot, Some(s1)),
{
}

} // verus!
