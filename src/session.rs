use vstd::prelude::*;

verus! {

/// Where a session stands in its lifecycle. `Ended` is terminal.
#[derive(Debug, Clone, Copy, PartialEq, Eq, Structural)]
pub enum SessionState {
    Pending,
    Active,
    Paused,
    Suspended,
    Ended,
}

/// Caller-declared ceilings; advisory, not enforced by this library.
#[derive(Debug, Clone, Copy, PartialEq, Eq, Structural)]
pub struct SessionLimits {
    pub max_tokens: u32,
    pub max_duration_ms: u64,
    pub max_context_bytes: u32,
}

/// The text a session's prompts are built from.
#[derive(Debug)]
pub struct SessionContextSeed {
    pub system_prompt: String,
    pub user_prompt_snapshot: Option<String>,
}

/// Usage counters, recorded but not enforced.
#[derive(Debug, Clone, Copy, PartialEq, Eq, Structural)]
pub struct SessionAccounting {
    pub prompt_tokens: u64,
    pub output_tokens: u64,
    pub requests: u64,
}

/// One conversation. Timestamps are microseconds since the Unix epoch;
/// `updated_at` is the liveness heartbeat that the reaper watches.
#[derive(Debug)]
pub struct Session {
    pub id: u128,
    pub state: SessionState,
    pub limits: SessionLimits,
    pub created_at: i64,
    pub updated_at: i64,
    pub started_at: Option<i64>,
    pub context_seed: SessionContextSeed,
    pub accounting: SessionAccounting,
    pub model: Option<String>,
}

/// The heartbeat value written when a session is touched at clock reading
/// `now`: the clock when it is ahead of the last stamp, else one tick past the
/// last stamp, so that stamps never go back and advance on every touch below
/// the largest representable instant.
pub open spec fn next_stamp(prev: i64, now: i64) -> i64 {
    if now > prev {
        now
    } else if prev < i64::MAX {
        (prev + 1) as i64
    } else {
        prev
    }
}

impl Session {
    /// A fully initialised session: a session has a start time exactly when it
    /// has left `Pending`, and its timestamps are ordered.
    pub open spec fn wf(&self) -> bool {
        &&& self.created_at <= self.updated_at
        &&& (self.state == SessionState::Pending) == self.started_at.is_none()
        &&& (self.started_at matches Some(t) ==> self.created_at <= t <= self.updated_at)
    }

    /// The session after a touch at clock reading `now`.
    pub open spec fn touched(self, now: i64) -> Session {
        Session { updated_at: next_stamp(self.updated_at, now), ..self }
    }
}

/// Computes `next_stamp(prev, now)`.
pub fn next_stamp_exec(prev: i64, now: i64) -> (r: i64)
    ensures
        r == next_stamp(prev, now),
        r >= prev,
{
    if now > prev {
        now
    } else if prev < i64::MAX {
        prev + 1
    } else {
        prev
    }
}

/// Refreshes the liveness heartbeat at clock reading `now`; nothing else changes.
pub fn touch_at(s: &mut Session, now: i64)
    ensures
        *final(s) == old(s).touched(now),
        old(s).wf() ==> final(s).wf(),
{
    s.updated_at = next_stamp_exec(s.updated_at, now);
}

/// Configures the backend model of a session; nothing else changes.
pub fn set_model(s: &mut Session, model: String)
    ensures
        *final(s) == (Session { model: Some(model), ..*old(s) }),
        old(s).wf() ==> final(s).wf(),
{
    s.model = Some(model);
}

} // verus!
