//! Disconnect bookkeeping for one match. When a side drops, a 60-second grace
//! timer starts; if the other side was already down, no new timer starts (the
//! first player back waits, and a fresh timer for the still-missing player
//! starts at that reconnect). Every disconnect and reconnect bumps a
//! generation counter, and a timer only ends the match when no event has
//! happened since it started.
use vstd::prelude::*;

use super::engine::GameOutcome;

verus! {

pub const GRACE_PERIOD_SECS: u64 = 60;

/// A grace-period timer: which side it waits for, and the generation at which it started.
#[derive(Debug, Clone, Copy, PartialEq, Eq, Structural)]
pub struct GraceTimer {
    pub missing_is_white: bool,
    pub generation: u64,
}

pub struct DisconnectTracker {
    white_connected: bool,
    black_connected: bool,
    generation: u64,
}

impl DisconnectTracker {
    pub closed spec fn white_up(&self) -> bool {
        self.white_connected
    }

    pub closed spec fn black_up(&self) -> bool {
        self.black_connected
    }

    pub closed spec fn gen(&self) -> nat {
        self.generation as nat
    }

    /// Both sides connected, generation 0.
    pub fn new() -> (t: Self)
        ensures
            t.white_up(),
            t.black_up(),
            t.gen() == 0,
    {
        DisconnectTracker { white_connected: true, black_connected: true, generation: 0 }
    }

    /// A side's connection closed. Starts a grace timer for that side unless
    /// the other side was already down.
    pub fn on_disconnect(&mut self, is_white: bool) -> (timer: Option<GraceTimer>)
        requires
            old(self).gen() < u64::MAX,
        ensures
            final(self).gen() == old(self).gen() + 1,
            is_white ==> !final(self).white_up() && final(self).black_up() == old(self).black_up(),
            !is_white ==> !final(self).black_up() && final(self).white_up() == old(self).white_up(),
            timer == (if (if is_white {
                !old(self).black_up()
            } else {
                !old(self).white_up()
            }) {
                None
            } else {
                Some(GraceTimer { missing_is_white: is_white, generation: (old(self).gen() + 1) as u64 })
            }),
    {
        if is_white {
            self.white_connected = false;
        } else {
            self.black_connected = false;
        }
        let other_already_down = if is_white {
            !self.black_connected
        } else {
            !self.white_connected
        };
        self.generation = self.generation + 1;
        if other_already_down {
            None
        } else {
            Some(GraceTimer { missing_is_white: is_white, generation: self.generation })
        }
    }

    /// A side reconnected. If the other side is still down, a fresh grace
    /// timer for the other side starts now.
    pub fn on_reconnect(&mut self, is_white: bool) -> (timer: Option<GraceTimer>)
        requires
            old(self).gen() < u64::MAX,
        ensures
            final(self).gen() == old(self).gen() + 1,
            is_white ==> final(self).white_up() && final(self).black_up() == old(self).black_up(),
            !is_white ==> final(self).black_up() && final(self).white_up() == old(self).white_up(),
            timer == (if (if is_white {
                !old(self).black_up()
            } else {
                !old(self).white_up()
            }) {
                Some(GraceTimer { missing_is_white: !is_white, generation: (old(self).gen() + 1) as u64 })
            } else {
                None
            }),
    {
        if is_white {
            self.white_connected = true;
        } else {
            self.black_connected = true;
        }
        let other_still_down = if is_white {
            !self.black_connected
        } else {
            !self.white_connected
        };
        self.generation = self.generation + 1;
        if other_still_down {
            Some(GraceTimer { missing_is_white: !is_white, generation: self.generation })
        } else {
            None
        }
    }

    /// A grace timer fired. If nothing happened since it started, the side
    /// that stayed connected wins; otherwise the timer is stale and does nothing.
    pub fn expire(&self, timer: GraceTimer) -> (outcome: Option<GameOutcome>)
        ensures
            outcome == spec_expire(self.gen(), timer),
    {
        if self.generation != timer.generation {
            return None;
        }
        if timer.missing_is_white {
            Some(GameOutcome::BlackWins)
        } else {
            Some(GameOutcome::WhiteWins)
        }
    }
}

pub open spec fn spec_expire(gen: nat, timer: GraceTimer) -> Option<GameOutcome> {
    if gen != timer.generation {
        None
    } else if timer.missing_is_white {
        Some(GameOutcome::BlackWins)
    } else {
        Some(GameOutcome::WhiteWins)
    }
}

/// Any disconnect or reconnect after a timer started makes that timer stale:
/// generations only grow, so a timer from generation `g` can no longer fire
/// once the tracker has moved past `g`.
pub proof fn lemma_later_event_cancels_timer(timer: GraceTimer, gen_after: nat)
    requires
        timer.generation < gen_after,
    ensures
        spec_expire(gen_after, timer) is None,
{
}

/// A timer never makes the side it waits for win.
pub proof fn lemma_missing_side_never_wins(gen: nat, timer: GraceTimer)
    ensures
        spec_expire(gen, timer) == Some(GameOutcome::WhiteWins) ==> !timer.missing_is_white,
        spec_expire(gen, timer) == Some(GameOutcome::BlackWins) ==> timer.missing_is_white,
        spec_expire(gen, timer) != Some(GameOutcome::Draw),
{
}

} // verus!
