use vstd::prelude::*;

use crate::clock::now_micros;
use crate::session::{next_stamp, next_stamp_exec, Session, SessionState};

verus! {

/// A point-in-time record of what a start did.
#[derive(Debug, Clone, Copy, PartialEq, Eq, Structural)]
pub struct StartSessionReceipt {
    pub session_id: u128,
    pub prev_state: SessionState,
    pub new_state: SessionState,
    pub updated_at: i64,
    pub started_at: Option<i64>,
    pub was_noop: bool,
}

/// Why a session could not be started.
#[derive(Debug, Clone, Copy, PartialEq, Eq, Structural)]
pub enum StartError {
    NotFound,
    InvalidState(SessionState),
    Poisoned,
}

/// The session after a successful start at clock reading `now`: it is
/// `Active` and its heartbeat advanced; a session that was not yet `Active`
/// also gets a start time if it had none.
pub open spec fn started(s: Session, now: i64) -> Session {
    let stamp = next_stamp(s.updated_at, now);
    Session {
        state: SessionState::Active,
        updated_at: stamp,
        started_at: if s.state == SessionState::Active || s.started_at is Some {
            s.started_at
        } else {
            Some(stamp)
        },
        ..s
    }
}

/// What a start at clock reading `now` reports and leaves behind: an `Ended`
/// session is refused and left alone; any other ends up as `started(s, now)`.
pub open spec fn start_outcome(
    s: Session,
    now: i64,
    r: Result<StartSessionReceipt, StartError>,
    after: Session,
) -> bool {
    if s.state == SessionState::Ended {
        r == Err::<StartSessionReceipt, StartError>(StartError::InvalidState(SessionState::Ended))
            && after == s
    } else {
        let n = started(s, now);
        &&& after == n
        &&& r == Ok::<StartSessionReceipt, StartError>(
            StartSessionReceipt {
                session_id: s.id,
                prev_state: s.state,
                new_state: SessionState::Active,
                updated_at: n.updated_at,
                started_at: n.started_at,
                was_noop: s.state == SessionState::Active,
            },
        )
    }
}

/// Applies the start transition at clock reading `now`.
pub fn start_session_at(s: &mut Session, now: i64) -> (r: Result<StartSessionReceipt, StartError>)
    ensures
        start_outcome(*old(s), now, r, *final(s)),
        old(s).wf() ==> final(s).wf(),
{
    let prev = s.state;
    match prev {
        SessionState::Ended => Err(StartError::InvalidState(SessionState::Ended)),
        _ => {
            s.state = SessionState::Active;
            s.updated_at = next_stamp_exec(s.updated_at, now);
            if prev != SessionState::Active && s.started_at.is_none() {
                s.started_at = Some(s.updated_at);
            }
            Ok(
                StartSessionReceipt {
                    session_id: s.id,
                    prev_state: prev,
                    new_state: s.state,
                    updated_at: s.updated_at,
                    started_at: s.started_at,
                    was_noop: prev == SessionState::Active,
                },
            )
        },
    }
}

/// Applies the start transition at the current time: `Pending`, `Paused` and
/// `Suspended` become `Active`; an `Active` session only has its heartbeat
/// refreshed (`was_noop`); an `Ended` session is refused and left unchanged.
pub fn start_session_inplace(s: &mut Session) -> (r: Result<StartSessionReceipt, StartError>)
    ensures
        exists|now: i64| start_outcome(*old(s), now, r, *final(s)),
        old(s).state == SessionState::Ended ==> r == Err::<StartSessionReceipt, StartError>(
            StartError::InvalidState(SessionState::Ended),
        ) && *final(s) == *old(s),
        old(s).state != SessionState::Ended ==> {
            &&& r is Ok
            &&& final(s).state == SessionState::Active
            &&& r->Ok_0.prev_state == old(s).state
            &&& r->Ok_0.new_state == SessionState::Active
            &&& r->Ok_0.was_noop == (old(s).state == SessionState::Active)
            &&& r->Ok_0.session_id == old(s).id
            &&& r->Ok_0.updated_at == final(s).updated_at
            &&& r->Ok_0.started_at == final(s).started_at
            &&& final(s).updated_at >= old(s).updated_at
            &&& old(s).updated_at < i64::MAX ==> final(s).updated_at > old(s).updated_at
            &&& old(s).state != SessionState::Active ==> final(s).started_at is Some
            &&& old(s).state == SessionState::Active || old(s).started_at is Some ==> final(s).started_at
                == old(s).started_at
        },
        old(s).wf() ==> final(s).wf(),
{
    let now = now_micros();
    start_session_at(s, now)
}

} // verus!
