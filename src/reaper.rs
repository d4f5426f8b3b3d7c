use vstd::prelude::*;

use crate::session::{next_stamp, next_stamp_exec, Session, SessionState};

verus! {

/// How long, in microseconds, an `Active` session may go without activity
/// before the reaper ends it.
pub const INACTIVITY_TIMEOUT_MICROS: i64 = 120_000_000;

/// How long, in microseconds, the reaper sleeps between two polls.
pub const INACTIVITY_POLL_INTERVAL_MICROS: i64 = 100_000_000;

/// Number of placeholder tokens a pipeline emits when the backend yields no
/// stream.
pub const FALLBACK_TOKEN_COUNT: u32 = 5;

/// Pause, in milliseconds, between two placeholder tokens.
pub const FALLBACK_TOKEN_DELAY_MS: u64 = 200;

/// What a reaper poll decided.
#[derive(Debug, Clone, Copy, PartialEq, Eq, Structural)]
pub enum ReaperAction {
    /// The session is `Active` and was seen recently: poll again later.
    KeepPolling,
    /// The session was idle too long and has been moved to `Ended`.
    Ended,
    /// The session is gone, unreadable, or no longer `Active`: stop polling.
    Stop,
}

/// The decision of a poll at clock reading `now` on a session in `state`
/// whose heartbeat reads `updated_at`.
pub open spec fn reaper_decision(state: SessionState, updated_at: int, now: int) -> ReaperAction {
    if state != SessionState::Active {
        ReaperAction::Stop
    } else if now - updated_at >= INACTIVITY_TIMEOUT_MICROS {
        ReaperAction::Ended
    } else {
        ReaperAction::KeepPolling
    }
}

/// The session after it was ended at clock reading `now`.
pub open spec fn ended(s: Session, now: i64) -> Session {
    Session { state: SessionState::Ended, updated_at: next_stamp(s.updated_at, now), ..s }
}

/// One reaper poll at clock reading `now`: an `Active` session idle for at
/// least the inactivity timeout is ended; any other session is left alone.
pub fn reap_at(s: &mut Session, now: i64) -> (r: ReaperAction)
    ensures
        r == reaper_decision(old(s).state, old(s).updated_at as int, now as int),
        r == ReaperAction::Ended ==> *final(s) == ended(*old(s), now),
        r != ReaperAction::Ended ==> *final(s) == *old(s),
        old(s).wf() ==> final(s).wf(),
{
    if s.state != SessionState::Active {
        return ReaperAction::Stop;
    }
    let idle: i128 = now as i128 - s.updated_at as i128;
    if idle >= INACTIVITY_TIMEOUT_MICROS as i128 {
        s.state = SessionState::Ended;
        s.updated_at = next_stamp_exec(s.updated_at, now);
        ReaperAction::Ended
    } else {
        ReaperAction::KeepPolling
    }
}

/// The session after one touch for each clock reading of `nows`, in order.
pub open spec fn touched_all(s: Session, nows: Seq<i64>) -> Session
    decreases nows.len(),
{
    if nows.len() == 0 {
        s
    } else {
        touched_all(s.touched(nows[0]), nows.drop_first())
    }
}

/// Touches never move the heartbeat back.
pub proof fn lemma_touches_monotone(s: Session, nows: Seq<i64>)
    ensures
        touched_all(s, nows).updated_at >= s.updated_at,
    decreases nows.len(),
{
    if nows.len() > 0 {
        lemma_touches_monotone(s.touched(nows[0]), nows.drop_first());
    }
}

/// Once a pipeline has received at least one token, each of which touches the
/// session, the heartbeat is strictly later than before, whatever the clock
/// read, unless it already stood at the largest representable instant.
pub proof fn lemma_heartbeat_advances(s: Session, nows: Seq<i64>)
    requires
        nows.len() > 0,
        s.updated_at < i64::MAX,
    ensures
        touched_all(s, nows).updated_at > s.updated_at,
{
    let first = s.touched(nows[0]);
    assert(first.updated_at > s.updated_at);
    lemma_touches_monotone(first, nows.drop_first());
}

/// The poll times of a reaper loop that began at `loop_start`: one interval
/// after it, then every interval.
pub open spec fn poll_time(loop_start: int, k: int) -> int {
    loop_start + k * INACTIVITY_POLL_INTERVAL_MICROS
}

/// An `Active` session whose last activity was at `updated_at`, less than the
/// inactivity timeout before the reaper loop began (in particular the
/// pipeline's own last heartbeat just before the loop, or any later one), and
/// which sees no activity after it, is ended by the
/// first poll that comes at least the inactivity timeout later; every poll
/// before that one keeps polling; and that poll comes less than the timeout
/// plus one interval after the last activity.
pub proof fn lemma_idle_session_is_reaped(updated_at: int, loop_start: int)
    requires
        loop_start < updated_at + INACTIVITY_TIMEOUT_MICROS,
    ensures
        exists|k: int|
            {
                &&& k >= 1
                &&& updated_at + INACTIVITY_TIMEOUT_MICROS <= poll_time(loop_start, k)
                &&& poll_time(loop_start, k) < updated_at + INACTIVITY_TIMEOUT_MICROS
                    + INACTIVITY_POLL_INTERVAL_MICROS
                &&& reaper_decision(SessionState::Active, updated_at, poll_time(loop_start, k))
                    == ReaperAction::Ended
                &&& forall|j: int|
                    1 <= j < k ==> reaper_decision(
                        SessionState::Active,
                        updated_at,
                        #[trigger] poll_time(loop_start, j),
                    ) == ReaperAction::KeepPolling
            },
{
    let p = INACTIVITY_POLL_INTERVAL_MICROS as int;
    let d = updated_at + INACTIVITY_TIMEOUT_MICROS - loop_start;
    let k = (d + p - 1) / p;
    assert(k * p >= d && (k - 1) * p < d && k >= 1) by (nonlinear_arith)
        requires
            k == (d + p - 1) / p,
            d > 0,
            p > 0,
    ;
    assert forall|j: int| 1 <= j < k implies reaper_decision(
        SessionState::Active,
        updated_at,
        #[trigger] poll_time(loop_start, j),
    ) == ReaperAction::KeepPolling by {
        assert(j * p <= (k - 1) * p) by (nonlinear_arith)
            requires
                j <= k - 1,
                p > 0,
        ;
    }
    assert(poll_time(loop_start, k) == loop_start + k * p);
}

} // verus!
