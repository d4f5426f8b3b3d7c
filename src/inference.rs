use vstd::prelude::*;

use crate::session::{Session, SessionState};

verus! {

/// A failed call to the model backend, by category, with the backend's own
/// description.
#[derive(Debug, Clone, PartialEq, Eq)]
pub enum BackendError {
    Http(String),
    Json(String),
    Server(String),
}

/// Why inference on a session could not run.
#[derive(Debug, Clone, PartialEq, Eq)]
pub enum InferenceError {
    NotFound,
    InvalidState(SessionState),
    NoModel,
    Backend(BackendError),
    Poisoned,
}

/// The model that inference on `s` is to use: only an `Active` session with a
/// configured model may reach the backend.
pub fn inference_model(s: &Session) -> (r: Result<String, InferenceError>)
    ensures
        s.state != SessionState::Active ==> r == Err::<String, InferenceError>(
            InferenceError::InvalidState(s.state),
        ),
        s.state == SessionState::Active && s.model is None ==> r == Err::<String, InferenceError>(
            InferenceError::NoModel,
        ),
        s.state == SessionState::Active && s.model is Some ==> (r matches Ok(m) && m@
            == s.model->Some_0@),
{
    if s.state != SessionState::Active {
        return Err(InferenceError::InvalidState(s.state));
    }
    match &s.model {
        Some(m) => Ok(m.clone()),
        None => Err(InferenceError::NoModel),
    }
}

} // verus!
