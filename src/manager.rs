use vstd::prelude::*;

use std::sync::{Arc, RwLock};

use crate::clock::now_micros;
use crate::creation::{fresh_session_id, new_session, CreateSessionRequest, SessionReceipt};
use crate::inference::{inference_model, InferenceError};
use crate::prompt::{apply_user_input_at, session_prompt};
use crate::reaper::{reap_at, ReaperAction};
use crate::registry::{
    lock_read, lock_write, read_guarded, table_contains, table_get, table_ids,
    table_ids_vec, table_insert, table_len, table_new, table_remove, write_guarded, SessionHandle,
    SessionTable,
};
use crate::session::{set_model, touch_at, SessionState};
use crate::start::{start_session_inplace, StartError, StartSessionReceipt};

verus! {

/// The registry of live sessions: each id maps to a handle that grants many
/// readers or one writer, and sessions are locked one by one, never the whole
/// registry. Adding or removing a session takes the manager exclusively; every
/// other operation shares it, so the set of ids cannot change under one.
pub struct SessionManager {
    sessions: SessionTable,
}

/// A set of ids that holds every id below `k` has at least `k` members.
proof fn lemma_ids_below_counted(ids: Set<u128>, k: nat)
    requires
        ids.finite(),
        k <= u128::MAX as int + 1,
        forall|x: u128| (x as int) < k ==> ids.contains(x),
    ensures
        ids.len() >= k,
    decreases k,
{
    if k > 0 {
        let y = (k - 1) as u128;
        assert(ids.contains(y));
        let rest = ids.remove(y);
        assert(rest.len() == ids.len() - 1);
        assert forall|x: u128| (x as int) < k - 1 implies rest.contains(x) by {
            assert(ids.contains(x));
        }
        lemma_ids_below_counted(rest, (k - 1) as nat);
    }
}

impl SessionManager {
    /// The registry holds finitely many ids.
    #[verifier::type_invariant]
    spec fn inv(self) -> bool {
        table_ids(self.sessions).finite()
    }

    /// The ids currently registered.
    pub closed spec fn ids(&self) -> Set<u128> {
        table_ids(self.sessions)
    }

    /// An id not yet registered: a random one, or, should that one be taken,
    /// the smallest free id.
    fn unused_id(&self) -> (r: u128)
        ensures
            !self.ids().contains(r),
    {
        proof {
            use_type_invariant(self);
        }
        let drawn = fresh_session_id();
        if !table_contains(&self.sessions, drawn) {
            return drawn;
        }
        let n = table_len(&self.sessions);
        let mut c: u128 = 0;
        while table_contains(&self.sessions, c)
            invariant
                self.ids().finite(),
                n == self.ids().len(),
                c <= n,
                forall|x: u128| x < c ==> self.ids().contains(x),
            decreases n - c,
        {
            proof {
                lemma_ids_below_counted(self.ids(), (c + 1) as nat);
            }
            c = c + 1;
        }
        c
    }

    /// An empty registry.
    pub fn new() -> (r: SessionManager)
        ensures
            r.ids() == Set::<u128>::empty(),
    {
        SessionManager { sessions: table_new() }
    }

    /// Opens a new `Pending` session for `req` under an id not yet
    /// registered, publishes it, and returns its handle and receipt.
    pub fn create_session(&mut self, req: CreateSessionRequest) -> (r: (SessionHandle, SessionReceipt))
        ensures
            !old(self).ids().contains(r.1.session_id),
            final(self).ids() == old(self).ids().insert(r.1.session_id),
            final(self).ids().len() == old(self).ids().len() + 1,
    {
        proof {
            use_type_invariant(&*self);
        }
        let id = self.unused_id();
        let now = now_micros();
        let (session, receipt) = new_session(req, id, now);
        let shared = Arc::new(RwLock::new(session));
        table_insert(&mut self.sessions, receipt.session_id, shared.clone());
        (shared, receipt)
    }

    /// Applies the start transition to the session `id` under its exclusive
    /// lock. The caller launches the inference pipeline exactly when the
    /// receipt is not a no-op.
    pub fn start_session(&self, id: u128) -> (r: Result<StartSessionReceipt, StartError>)
        ensures
            (r == Err::<StartSessionReceipt, StartError>(StartError::NotFound)) == !self.ids().contains(id),
            r matches Ok(rc) ==> {
                &&& rc.new_state == SessionState::Active
                &&& rc.prev_state != SessionState::Ended
                &&& rc.was_noop == (rc.prev_state == SessionState::Active)
                &&& !rc.was_noop ==> rc.started_at is Some
            },
            r matches Err(StartError::InvalidState(st)) ==> st == SessionState::Ended,
    {
        let entry = match table_get(&self.sessions, id) {
            Some(h) => h,
            None => return Err(StartError::NotFound),
        };
        let mut guard = match lock_write(&entry) {
            Some(g) => g,
            None => return Err(StartError::Poisoned),
        };
        let s = write_guarded(&mut guard);
        start_session_inplace(s)
    }

    /// Configures the backend model of the session `id` under its exclusive
    /// lock; see `set_model`.
    pub fn set_session_model(&self, id: u128, model: String) -> (r: Result<(), InferenceError>)
        ensures
            (r == Err::<(), InferenceError>(InferenceError::NotFound)) == !self.ids().contains(id),
            r is Err ==> r == Err::<(), InferenceError>(InferenceError::NotFound) || r
                == Err::<(), InferenceError>(InferenceError::Poisoned),
    {
        let entry = match table_get(&self.sessions, id) {
            Some(h) => h,
            None => return Err(InferenceError::NotFound),
        };
        let mut guard = match lock_write(&entry) {
            Some(g) => g,
            None => return Err(InferenceError::Poisoned),
        };
        set_model(write_guarded(&mut guard), model);
        Ok(())
    }

    /// The handle of the session `id`, if it is registered.
    pub fn get_session(&self, id: u128) -> (r: Option<SessionHandle>)
        ensures
            r is Some == self.ids().contains(id),
    {
        table_get(&self.sessions, id)
    }

    /// A snapshot of the registered ids, each once, in no particular order.
    pub fn list_session_ids(&self) -> (r: Vec<u128>)
        ensures
            r@.to_set() == self.ids(),
            r@.no_duplicates(),
    {
        table_ids_vec(&self.sessions)
    }

    /// The number of registered sessions.
    pub fn count_sessions(&self) -> (r: usize)
        ensures
            r == self.ids().len(),
    {
        table_len(&self.sessions)
    }

    /// Whether the session `id` is registered.
    pub fn exists_session(&self, id: u128) -> (r: bool)
        ensures
            r == self.ids().contains(id),
    {
        table_contains(&self.sessions, id)
    }

    /// Detaches the session `id` from future lookups and returns its handle;
    /// handles already held elsewhere stay usable.
    pub fn remove_session(&mut self, id: u128) -> (r: Option<SessionHandle>)
        ensures
            final(self).ids() == old(self).ids().remove(id),
            r is Some == old(self).ids().contains(id),
    {
        proof {
            use_type_invariant(&*self);
        }
        table_remove(&mut self.sessions, id)
    }

    /// The model that inference on the session `id` is to use, checked under
    /// its read lock; see `inference_model`.
    pub fn model_for_inference(&self, id: u128) -> (r: Result<String, InferenceError>)
        ensures
            (r == Err::<String, InferenceError>(InferenceError::NotFound)) == !self.ids().contains(id),
            r matches Err(InferenceError::InvalidState(st)) ==> st != SessionState::Active,
            r matches Err(InferenceError::Backend(_)) ==> false,
    {
        let entry = match table_get(&self.sessions, id) {
            Some(h) => h,
            None => return Err(InferenceError::NotFound),
        };
        let guard = match lock_read(&entry) {
            Some(g) => g,
            None => return Err(InferenceError::Poisoned),
        };
        inference_model(read_guarded(&guard))
    }

    /// Refreshes the heartbeat of the session `id`, as each received token
    /// does; `false` when the session is gone or its lock is poisoned.
    pub fn record_token(&self, id: u128) -> (r: bool)
        ensures
            r ==> self.ids().contains(id),
    {
        let entry = match table_get(&self.sessions, id) {
            Some(h) => h,
            None => return false,
        };
        let mut guard = match lock_write(&entry) {
            Some(g) => g,
            None => return false,
        };
        let now = now_micros();
        touch_at(write_guarded(&mut guard), now);
        true
    }

    /// One reaper poll on the session `id` at the current time; a session that
    /// is gone or whose lock is poisoned stops the reaper.
    pub fn reap_if_inactive(&self, id: u128) -> (r: ReaperAction)
        ensures
            !self.ids().contains(id) ==> r == ReaperAction::Stop,
    {
        let entry = match table_get(&self.sessions, id) {
            Some(h) => h,
            None => return ReaperAction::Stop,
        };
        let mut guard = match lock_write(&entry) {
            Some(g) => g,
            None => return ReaperAction::Stop,
        };
        let now = now_micros();
        reap_at(write_guarded(&mut guard), now)
    }
}

/// Two snapshots of the registered ids taken with no addition or removal in
/// between hold the same ids, and as many of them.
pub proof fn lemma_list_ids_stable(manager: &SessionManager, first: Seq<u128>, second: Seq<u128>)
    requires
        first.to_set() == manager.ids(),
        first.no_duplicates(),
        second.to_set() == manager.ids(),
        second.no_duplicates(),
    ensures
        first.to_set() == second.to_set(),
        first.len() == second.len(),
{
    first.unique_seq_to_set();
    second.unique_seq_to_set();
}

/// The prompt of the session `id`, read under its lock: `None` when the
/// session is missing, unreadable, or not `Active`.
pub fn build_prompt(manager: &SessionManager, session_id: u128) -> (r: Option<String>)
    ensures
        !manager.ids().contains(session_id) ==> r is None,
{
    let entry = match table_get(&manager.sessions, session_id) {
        Some(h) => h,
        None => return None,
    };
    let guard = match lock_read(&entry) {
        Some(g) => g,
        None => return None,
    };
    session_prompt(read_guarded(&guard))
}

/// Records `input` as the latest user turn of the session `id` if it is
/// `Active`, under its exclusive lock, and returns the rebuilt prompt; `None`
/// when the session is missing, unreadable, or not `Active`.
pub fn apply_user_input(manager: &SessionManager, session_id: u128, input: &str) -> (r: Option<String>)
    ensures
        !manager.ids().contains(session_id) ==> r is None,
{
    let entry = match table_get(&manager.sessions, session_id) {
        Some(h) => h,
        None => return None,
    };
    let mut guard = match lock_write(&entry) {
        Some(g) => g,
        None => return None,
    };
    let now = now_micros();
    apply_user_input_at(write_guarded(&mut guard), input, now)
}

/// Records `input` as the latest user turn of the session `id` and returns
/// the rebuilt prompt, as `apply_user_input` does, reporting why when there
/// is none: the session is missing, its lock is poisoned, or it is in another
/// state than `Active`.
pub fn prompt_with_input(manager: &SessionManager, session_id: u128, input: &str) -> (r: Result<
    String,
    InferenceError,
>)
    ensures
        (r == Err::<String, InferenceError>(InferenceError::NotFound)) == !manager.ids().contains(
            session_id,
        ),
        r matches Err(InferenceError::InvalidState(st)) ==> st != SessionState::Active,
        r matches Err(InferenceError::NoModel) ==> false,
        r matches Err(InferenceError::Backend(_)) ==> false,
{
    let entry = match table_get(&manager.sessions, session_id) {
        Some(h) => h,
        None => return Err(InferenceError::NotFound),
    };
    let mut guard = match lock_write(&entry) {
        Some(g) => g,
        None => return Err(InferenceError::Poisoned),
    };
    let now = now_micros();
    let s = write_guarded(&mut guard);
    let state = s.state;
    match apply_user_input_at(s, input, now) {
        Some(p) => Ok(p),
        None => Err(InferenceError::InvalidState(state)),
    }
}

} // verus!
