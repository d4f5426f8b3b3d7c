use vstd::prelude::*;
use vstd::string::*;

use crate::clock::now_micros;
use crate::session::{Session, SessionAccounting, SessionContextSeed, SessionLimits, SessionState};

verus! {

/// Token ceiling used when a request names none.
pub const DEFAULT_MAX_TOKENS: u32 = 2048;

/// Duration ceiling, in milliseconds, used when a request names none.
pub const DEFAULT_MAX_DURATION_MS: u64 = 60_000;

/// Context-size ceiling, in bytes, used when a request names none.
pub const DEFAULT_MAX_CONTEXT_BYTES: u32 = 262_144;

/// System prompt used when a request names none.
pub const DEFAULT_SYSTEM_PROMPT: &'static str = "You are an AI assistant.";

pub open spec fn default_system_prompt() -> Seq<char> {
    DEFAULT_SYSTEM_PROMPT@
}

/// What a caller asks for when opening a session; every field is optional.
#[derive(Debug)]
pub struct CreateSessionRequest {
    pub system_prompt: Option<String>,
    pub user_prompt_snapshot: Option<String>,
    pub max_tokens: Option<u32>,
    pub max_duration_ms: Option<u64>,
    pub max_context_bytes: Option<u32>,
}

/// A point-in-time record of a creation.
#[derive(Debug, Clone, Copy, PartialEq, Eq, Structural)]
pub struct SessionReceipt {
    pub session_id: u128,
    pub created_at: i64,
}

pub open spec fn or_default<T>(o: Option<T>, d: T) -> T {
    match o {
        Some(v) => v,
        None => d,
    }
}

/// `s` is the session that `req` opens under id `id` at clock reading `now`:
/// `Pending`, never started, counters at zero, no model, and each absent
/// request field replaced by its default.
pub open spec fn is_fresh_session(s: Session, req: CreateSessionRequest, id: u128, now: i64) -> bool {
    &&& s.id == id
    &&& s.state == SessionState::Pending
    &&& s.limits == SessionLimits {
        max_tokens: or_default(req.max_tokens, DEFAULT_MAX_TOKENS),
        max_duration_ms: or_default(req.max_duration_ms, DEFAULT_MAX_DURATION_MS),
        max_context_bytes: or_default(req.max_context_bytes, DEFAULT_MAX_CONTEXT_BYTES),
    }
    &&& s.created_at == now
    &&& s.updated_at == now
    &&& s.started_at is None
    &&& s.context_seed.system_prompt@ == (match req.system_prompt {
        Some(p) => p@,
        None => default_system_prompt(),
    })
    &&& s.context_seed.user_prompt_snapshot == req.user_prompt_snapshot
    &&& s.accounting == (SessionAccounting { prompt_tokens: 0, output_tokens: 0, requests: 0 })
    &&& s.model is None
}

/// Relies on `uuid::Uuid::new_v4` and `Uuid::as_u128`: a random version-4
/// identifier as a 128-bit integer. Nothing is promised of the value.
#[verifier::external_body]
pub(crate) fn fresh_session_id() -> (r: u128) {
    uuid::Uuid::new_v4().as_u128()
}

/// Builds the session that `request` opens under `id` at clock reading `now`,
/// with its receipt.
pub fn new_session(request: CreateSessionRequest, id: u128, now: i64) -> (r: (Session, SessionReceipt))
    ensures
        is_fresh_session(r.0, request, id, now),
        r.0.wf(),
        r.1 == (SessionReceipt { session_id: id, created_at: now }),
{
    let limits = SessionLimits {
        max_tokens: match request.max_tokens {
            Some(v) => v,
            None => DEFAULT_MAX_TOKENS,
        },
        max_duration_ms: match request.max_duration_ms {
            Some(v) => v,
            None => DEFAULT_MAX_DURATION_MS,
        },
        max_context_bytes: match request.max_context_bytes {
            Some(v) => v,
            None => DEFAULT_MAX_CONTEXT_BYTES,
        },
    };
    let system_prompt = match request.system_prompt {
        Some(p) => p,
        None => String::from_str(DEFAULT_SYSTEM_PROMPT),
    };
    let session = Session {
        id,
        state: SessionState::Pending,
        limits,
        created_at: now,
        updated_at: now,
        started_at: None,
        context_seed: SessionContextSeed {
            system_prompt,
            user_prompt_snapshot: request.user_prompt_snapshot,
        },
        accounting: SessionAccounting { prompt_tokens: 0, output_tokens: 0, requests: 0 },
        model: None,
    };
    (session, SessionReceipt { session_id: id, created_at: now })
}

/// Opens a new `Pending` session for `request` under a fresh random id,
/// stamped with the current time. Nothing is published anywhere.
pub fn create_session(request: CreateSessionRequest) -> (r: (Session, SessionReceipt))
    ensures
        is_fresh_session(r.0, request, r.1.session_id, r.1.created_at),
        r.0.wf(),
{
    let id = fresh_session_id();
    let now = now_micros();
    new_session(request, id, now)
}

} // verus!
