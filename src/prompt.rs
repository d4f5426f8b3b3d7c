use vstd::prelude::*;
use vstd::string::*;

use crate::session::{next_stamp, next_stamp_exec, Session, SessionState};

verus! {

/// Text placed between the system prompt and the latest user turn.
pub const USER_TURN_PREFIX: &'static str = "\n\nUser: ";

/// The prompt a session yields: its system prompt, followed by the latest
/// user turn when there is one.
pub open spec fn prompt_text(s: Session) -> Seq<char> {
    match s.context_seed.user_prompt_snapshot {
        Some(u) => s.context_seed.system_prompt@ + USER_TURN_PREFIX@ + u@,
        None => s.context_seed.system_prompt@,
    }
}

/// `after` is `before` with `input` recorded as the latest user turn and the
/// heartbeat refreshed at clock reading `now`; nothing else differs.
pub open spec fn input_applied(before: Session, after: Session, input: Seq<char>, now: i64) -> bool {
    &&& (after.context_seed.user_prompt_snapshot matches Some(u) && u@ == input)
    &&& after.context_seed.system_prompt == before.context_seed.system_prompt
    &&& after.updated_at == next_stamp(before.updated_at, now)
    &&& after.id == before.id
    &&& after.state == before.state
    &&& after.limits == before.limits
    &&& after.created_at == before.created_at
    &&& after.started_at == before.started_at
    &&& after.accounting == before.accounting
    &&& after.model == before.model
}

/// The prompt of an `Active` session; `None` for any other state.
pub fn session_prompt(s: &Session) -> (r: Option<String>)
    ensures
        r is Some == (s.state == SessionState::Active),
        r matches Some(p) ==> p@ == prompt_text(*s),
{
    if s.state != SessionState::Active {
        return None;
    }
    let mut p = s.context_seed.system_prompt.clone();
    match &s.context_seed.user_prompt_snapshot {
        Some(user) => {
            p.append(USER_TURN_PREFIX);
            p.append(user.as_str());
        },
        None => {},
    }
    Some(p)
}

/// Records `input` as the latest user turn of an `Active` session, refreshes
/// its heartbeat at clock reading `now`, and returns the rebuilt prompt. Any
/// other session is left unchanged and yields `None`.
pub fn apply_user_input_at(s: &mut Session, input: &str, now: i64) -> (r: Option<String>)
    ensures
        old(s).state != SessionState::Active ==> r is None && *final(s) == *old(s),
        old(s).state == SessionState::Active ==> {
            &&& input_applied(*old(s), *final(s), input@, now)
            &&& (r matches Some(p) && p@ == prompt_text(*final(s)))
        },
        old(s).wf() ==> final(s).wf(),
{
    if s.state != SessionState::Active {
        return None;
    }
    s.context_seed.user_prompt_snapshot = Some(String::from_str(input));
    s.updated_at = next_stamp_exec(s.updated_at, now);
    session_prompt(s)
}

} // verus!
