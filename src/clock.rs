//! The pause/running clock over a decaying time balance. The aggregate
//! [`Session`] and each [`OrderSession`] follow the same rules.
use vstd::prelude::*;
use crate::model::{OrderSession, Session};

verus! {

/// Seconds that have run since `started_at`, zero when the clock reads
/// earlier than the start.
pub open spec fn elapsed_since(started_at: u64, now: u64) -> int {
    if now > started_at {
        now - started_at
    } else {
        0
    }
}

/// The balance left at `now` of a balance `remaining` that is paused
/// (`started_at == 0`) or has been running since `started_at`: the stored
/// balance less the elapsed time, floored at zero.
pub open spec fn remaining_spec(remaining: u64, started_at: u64, now: u64) -> u64 {
    if started_at == 0 {
        remaining
    } else if elapsed_since(started_at, now) >= remaining {
        0
    } else {
        (remaining - elapsed_since(started_at, now)) as u64
    }
}

/// Running with time left at `now`.
pub open spec fn active_spec(remaining: u64, started_at: u64, now: u64) -> bool {
    started_at > 0 && remaining_spec(remaining, started_at, now) > 0
}

/// A start takes effect only on a paused balance with time left.
pub open spec fn starts(remaining: u64, started_at: u64) -> bool {
    started_at == 0 && remaining > 0
}

/// A pause takes effect only on a running balance.
pub open spec fn pauses(started_at: u64) -> bool {
    started_at > 0
}

/// `a + b`, clamped at the largest `u64`.
pub open spec fn credited_spec(a: u64, b: u32) -> u64 {
    if a + b > u64::MAX {
        u64::MAX
    } else {
        (a + b) as u64
    }
}

/// The predicted end of a running balance, `started_at + remaining` clamped
/// at the largest `u64`; zero when paused.
pub open spec fn expiry_spec(remaining: u64, started_at: u64) -> u64 {
    if started_at == 0 {
        0
    } else if started_at + remaining > u64::MAX {
        u64::MAX
    } else {
        (started_at + remaining) as u64
    }
}

/// The balance left at `now`; never writes anything.
pub fn clock_remaining(remaining: u64, started_at: u64, now: u64) -> (r: u64)
    ensures
        r == remaining_spec(remaining, started_at, now),
{
    if started_at == 0 {
        remaining
    } else {
        remaining.saturating_sub(now.saturating_sub(started_at))
    }
}

/// The virtual remaining balance of an aggregate session at `now`.
pub fn remaining_at(s: &Session, now: u64) -> (r: u64)
    ensures
        r == remaining_spec(s.remaining_secs, s.started_at, now),
{
    clock_remaining(s.remaining_secs, s.started_at, now)
}

/// The virtual remaining balance of an order session at `now`.
pub fn remaining_at_order(s: &OrderSession, now: u64) -> (r: u64)
    ensures
        r == remaining_spec(s.remaining_secs, s.started_at, now),
{
    clock_remaining(s.remaining_secs, s.started_at, now)
}

impl Session {
    /// The session of an owner that never had time credited.
    pub open spec fn empty() -> Session {
        Session { remaining_secs: 0, started_at: 0 }
    }

    /// The session after a start at `now`.
    pub open spec fn started(self, now: u64) -> Session {
        if starts(self.remaining_secs, self.started_at) {
            Session { started_at: now, ..self }
        } else {
            self
        }
    }

    /// The session after a pause at `now`.
    pub open spec fn paused(self, now: u64) -> Session {
        if pauses(self.started_at) {
            Session {
                remaining_secs: remaining_spec(self.remaining_secs, self.started_at, now),
                started_at: 0,
            }
        } else {
            self
        }
    }

    /// The session after `secs` more seconds are credited.
    pub open spec fn credited(self, secs: u32) -> Session {
        Session { remaining_secs: credited_spec(self.remaining_secs, secs), ..self }
    }

    /// Running with time left at `now`.
    pub fn is_active_at(&self, now: u64) -> (r: bool)
        ensures
            r == active_spec(self.remaining_secs, self.started_at, now),
    {
        self.started_at > 0 && clock_remaining(self.remaining_secs, self.started_at, now) > 0
    }

    /// Starts the clock at `now` if paused with time left; a running clock
    /// keeps its first start. Returns whether a start was recorded. A start
    /// recorded at `now == 0` is the paused marker itself, so the clock then
    /// stays paused.
    pub fn start_at(&mut self, now: u64) -> (changed: bool)
        ensures
            *final(self) == old(self).started(now),
            changed == starts(old(self).remaining_secs, old(self).started_at),
    {
        if clock_remaining(self.remaining_secs, self.started_at, now) == 0 {
            return false;
        }
        if self.started_at == 0 {
            self.started_at = now;
            true
        } else {
            false
        }
    }

    /// Stops a running clock at `now`, charging the elapsed time to the
    /// balance (floored at zero). Returns whether anything changed.
    pub fn pause_at(&mut self, now: u64) -> (changed: bool)
        ensures
            *final(self) == old(self).paused(now),
            changed == pauses(old(self).started_at),
    {
        if self.started_at > 0 {
            let spent = now.saturating_sub(self.started_at);
            self.remaining_secs = self.remaining_secs.saturating_sub(spent);
            self.started_at = 0;
            true
        } else {
            false
        }
    }

    /// Adds `secs` to the balance, clamped at the largest `u64`.
    pub fn credit(&mut self, secs: u32) -> (r: u64)
        ensures
            *final(self) == old(self).credited(secs),
            r == final(self).remaining_secs,
    {
        self.remaining_secs = self.remaining_secs.saturating_add(secs as u64);
        self.remaining_secs
    }

    /// `started_at + remaining_secs` (clamped) while running, else zero.
    pub fn expires_at(&self) -> (r: u64)
        ensures
            r == expiry_spec(self.remaining_secs, self.started_at),
    {
        if self.started_at > 0 {
            self.started_at.saturating_add(self.remaining_secs)
        } else {
            0
        }
    }
}

impl OrderSession {
    /// The session of an order that never had time credited.
    pub open spec fn empty(order_id: u128) -> OrderSession {
        OrderSession { order_id, remaining_secs: 0, started_at: 0 }
    }

    /// The order session after a start at `now`.
    pub open spec fn started(self, now: u64) -> OrderSession {
        if starts(self.remaining_secs, self.started_at) {
            OrderSession { started_at: now, ..self }
        } else {
            self
        }
    }

    /// The order session after a pause at `now`.
    pub open spec fn paused(self, now: u64) -> OrderSession {
        if pauses(self.started_at) {
            OrderSession {
                remaining_secs: remaining_spec(self.remaining_secs, self.started_at, now),
                started_at: 0,
                ..self
            }
        } else {
            self
        }
    }

    /// The order session after `secs` more seconds are credited.
    pub open spec fn credited(self, secs: u32) -> OrderSession {
        OrderSession { remaining_secs: credited_spec(self.remaining_secs, secs), ..self }
    }

    /// A paused, empty session for `order_id`.
    pub fn new(order_id: u128) -> (r: OrderSession)
        ensures
            r == OrderSession::empty(order_id),
    {
        OrderSession { order_id, remaining_secs: 0, started_at: 0 }
    }

    /// Running with time left at `now`.
    pub fn is_active_at(&self, now: u64) -> (r: bool)
        ensures
            r == active_spec(self.remaining_secs, self.started_at, now),
    {
        self.started_at > 0 && clock_remaining(self.remaining_secs, self.started_at, now) > 0
    }

    /// Starts the clock at `now` if paused with time left; a running clock
    /// keeps its first start. Returns whether a start was recorded. A start
    /// recorded at `now == 0` is the paused marker itself, so the clock then
    /// stays paused.
    pub fn start_at(&mut self, now: u64) -> (changed: bool)
        ensures
            *final(self) == old(self).started(now),
            changed == starts(old(self).remaining_secs, old(self).started_at),
    {
        if clock_remaining(self.remaining_secs, self.started_at, now) == 0 {
            return false;
        }
        if self.started_at == 0 {
            self.started_at = now;
            true
        } else {
            false
        }
    }

    /// Stops a running clock at `now`, charging the elapsed time to the
    /// balance (floored at zero). Returns whether anything changed.
    pub fn pause_at(&mut self, now: u64) -> (changed: bool)
        ensures
            *final(self) == old(self).paused(now),
            changed == pauses(old(self).started_at),
    {
        if self.started_at > 0 {
            let elapsed = now.saturating_sub(self.started_at);
            self.remaining_secs = self.remaining_secs.saturating_sub(elapsed);
            self.started_at = 0;
            true
        } else {
            false
        }
    }

    /// Adds `secs` to the balance, clamped at the largest `u64`.
    pub fn credit(&mut self, secs: u32) -> (r: u64)
        ensures
            *final(self) == old(self).credited(secs),
            r == final(self).remaining_secs,
    {
        self.remaining_secs = self.remaining_secs.saturating_add(secs as u64);
        self.remaining_secs
    }
}

/// Pausing with a clock that reads earlier than the start charges nothing:
/// the balance is kept as it was and the session becomes paused.
pub proof fn lemma_pause_before_start_keeps_balance(s: Session, now: u64)
    requires
        s.started_at > 0,
        now < s.started_at,
    ensures
        s.paused(now) == (Session { remaining_secs: s.remaining_secs, started_at: 0 }),
{
}

/// The same for an order session.
pub proof fn lemma_order_pause_before_start_keeps_balance(s: OrderSession, now: u64)
    requires
        s.started_at > 0,
        now < s.started_at,
    ensures
        s.paused(now) == (OrderSession { remaining_secs: s.remaining_secs, started_at: 0, ..s }),
{
}

} // verus!
