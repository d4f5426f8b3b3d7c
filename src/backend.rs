use vstd::prelude::*;

verus! {

/// The models a backend offers.
#[derive(Debug)]
pub struct TagsResponse {
    pub models: Vec<ModelTag>,
}

/// One model a backend offers.
#[derive(Debug)]
pub struct ModelTag {
    pub name: String,
    pub modified_at: Option<String>,
    pub size: Option<u64>,
    pub digest: Option<String>,
    pub details: Option<ModelDetails>,
}

/// What a backend reports of a model's make-up.
#[derive(Debug)]
pub struct ModelDetails {
    pub parent_model: Option<String>,
    pub format: Option<String>,
    pub family: Option<String>,
    pub families: Option<Vec<String>>,
    pub parameter_size: Option<String>,
    pub quantization_level: Option<String>,
}

/// A request that a backend fetch a model.
#[derive(Debug)]
pub struct PullRequest {
    pub name: String,
    pub stream: bool,
}

/// A request for a completion of `prompt` by `model`.
#[derive(Debug)]
pub struct GenerateRequest {
    pub model: String,
    pub prompt: String,
    pub stream: bool,
}

/// One piece of a streamed completion.
#[derive(Debug)]
pub struct GenerateStreamChunk {
    pub model: Option<String>,
    pub created_at: Option<String>,
    pub response: Option<String>,
    pub done: Option<bool>,
}

} // verus!
