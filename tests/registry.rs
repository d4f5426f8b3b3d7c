use agent_runtime::creation::CreateSessionRequest;
use agent_runtime::inference::InferenceError;
use agent_runtime::manager::{apply_user_input, build_prompt, prompt_with_input, SessionManager};
use agent_runtime::reaper::ReaperAction;
use agent_runtime::session::SessionState;
use agent_runtime::start::StartError;

fn request() -> CreateSessionRequest {
    CreateSessionRequest {
        system_prompt: None,
        user_prompt_snapshot: None,
        max_tokens: None,
        max_duration_ms: None,
        max_context_bytes: None,
    }
}

#[test]
fn create_session_defaults_through_manager() {
    let mut m = SessionManager::new();
    let (h, rc) = m.create_session(request());
    let s = h.read().unwrap();
    assert_eq!(s.limits.max_tokens, 2048);
    assert_eq!(s.context_seed.system_prompt, "You are an AI assistant.");
    assert_eq!(s.id, rc.session_id);
    assert_eq!(m.count_sessions(), 1);
    assert!(m.exists_session(rc.session_id));
}

#[test]
fn remove_one_of_two_sessions() {
    let mut m = SessionManager::new();
    let (_, a) = m.create_session(request());
    let (held, b) = m.create_session(request());
    assert_eq!(m.count_sessions(), 2);
    let removed = m.remove_session(b.session_id);
    assert!(removed.is_some());
    assert_eq!(m.list_session_ids(), vec![a.session_id]);
    assert!(m.get_session(b.session_id).is_none());
    assert!(!m.exists_session(b.session_id));
    assert_eq!(m.count_sessions(), 1);
    assert!(m.remove_session(b.session_id).is_none());
    // a handle taken before removal stays usable
    assert_eq!(held.read().unwrap().id, b.session_id);
}

#[test]
fn listing_twice_gives_same_ids() {
    let mut m = SessionManager::new();
    for _ in 0..4 {
        m.create_session(request());
    }
    let mut first = m.list_session_ids();
    let mut second = m.list_session_ids();
    first.sort();
    second.sort();
    assert_eq!(first, second);
    assert_eq!(first.len(), 4);
}

#[test]
fn inference_without_model_fails_with_no_model() {
    let mut m = SessionManager::new();
    let (_, rc) = m.create_session(request());
    let id = rc.session_id;
    assert_eq!(m.model_for_inference(id), Err(InferenceError::InvalidState(SessionState::Pending)));
    m.start_session(id).unwrap();
    assert_eq!(m.model_for_inference(id), Err(InferenceError::NoModel));
    m.set_session_model(id, "llama3.2".to_string()).unwrap();
    assert_eq!(m.model_for_inference(id), Ok("llama3.2".to_string()));
}

#[test]
fn unknown_ids_are_not_found() {
    let m = SessionManager::new();
    assert_eq!(m.start_session(99), Err(StartError::NotFound));
    assert_eq!(m.set_session_model(99, "x".to_string()), Err(InferenceError::NotFound));
    assert_eq!(m.model_for_inference(99), Err(InferenceError::NotFound));
    assert!(m.get_session(99).is_none());
    assert_eq!(build_prompt(&m, 99), None);
    assert_eq!(apply_user_input(&m, 99, "hi"), None);
    assert!(!m.record_token(99));
    assert_eq!(m.reap_if_inactive(99), ReaperAction::Stop);
    assert_eq!(m.count_sessions(), 0);
    assert!(m.list_session_ids().is_empty());
}

#[test]
fn start_through_manager_reports_noop_on_second_start() {
    let mut m = SessionManager::new();
    let (h, rc) = m.create_session(request());
    let first = m.start_session(rc.session_id).unwrap();
    assert!(!first.was_noop);
    assert_eq!(first.prev_state, SessionState::Pending);
    let second = m.start_session(rc.session_id).unwrap();
    assert!(second.was_noop);
    assert!(second.updated_at > first.updated_at);
    assert_eq!(second.started_at, first.started_at);
    assert_eq!(h.read().unwrap().state, SessionState::Active);
    h.write().unwrap().state = SessionState::Ended;
    assert_eq!(
        m.start_session(rc.session_id),
        Err(StartError::InvalidState(SessionState::Ended))
    );
}

#[test]
fn user_input_through_manager() {
    let mut m = SessionManager::new();
    let (h, rc) = m.create_session(request());
    let id = rc.session_id;
    assert_eq!(apply_user_input(&m, id, "hi"), None);
    assert_eq!(h.read().unwrap().context_seed.user_prompt_snapshot, None);
    assert_eq!(build_prompt(&m, id), None);
    m.start_session(id).unwrap();
    let p = apply_user_input(&m, id, "hi").unwrap();
    assert_eq!(p, "You are an AI assistant.\n\nUser: hi");
    assert_eq!(build_prompt(&m, id).unwrap(), p);
}

#[test]
fn token_heartbeat_and_reaper_through_manager() {
    let mut m = SessionManager::new();
    let (h, rc) = m.create_session(request());
    let id = rc.session_id;
    m.start_session(id).unwrap();
    let before = h.read().unwrap().updated_at;
    assert!(m.record_token(id));
    assert!(h.read().unwrap().updated_at > before);
    assert_eq!(m.reap_if_inactive(id), ReaperAction::KeepPolling);
    h.write().unwrap().updated_at -= 121_000_000;
    assert_eq!(m.reap_if_inactive(id), ReaperAction::Ended);
    assert_eq!(h.read().unwrap().state, SessionState::Ended);
    assert_eq!(m.reap_if_inactive(id), ReaperAction::Stop);
}

#[test]
fn set_session_model_writes_the_model() {
    let mut m = SessionManager::new();
    let (h, rc) = m.create_session(request());
    assert_eq!(m.set_session_model(rc.session_id, "mistral".to_string()), Ok(()));
    assert_eq!(h.read().unwrap().model.as_deref(), Some("mistral"));
    assert_eq!(h.read().unwrap().state, SessionState::Pending);
}

#[test]
fn creating_raises_count_by_one() {
    let mut m = SessionManager::new();
    for n in 0..5 {
        assert_eq!(m.count_sessions(), n);
        m.create_session(request());
        assert_eq!(m.count_sessions(), n + 1);
    }
}

#[test]
fn prompt_with_input_reports_why_there_is_none() {
    let mut m = SessionManager::new();
    let (_, rc) = m.create_session(request());
    let id = rc.session_id;
    assert_eq!(prompt_with_input(&m, 12345, "hi"), Err(InferenceError::NotFound));
    assert_eq!(
        prompt_with_input(&m, id, "hi"),
        Err(InferenceError::InvalidState(SessionState::Pending))
    );
    m.start_session(id).unwrap();
    assert_eq!(
        prompt_with_input(&m, id, "hi"),
        Ok("You are an AI assistant.\n\nUser: hi".to_string())
    );
}
