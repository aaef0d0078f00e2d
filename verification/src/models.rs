use vstd::prelude::*;

verus! {

/// One row of the vector-search index: a snippet of source material and
/// where in its document it came from.
#[derive(Clone, Debug)]
pub struct BrainMatter {
    pub id: i32,
    pub body: String,
    pub document_position: Option<i16>,
    pub position_type: Option<String>,
    pub document_url: Option<String>,
}

/// Connection-protocol metadata the client forwards with each request; the
/// relay carries it but never decides on it.
#[derive(Clone, Debug, Default)]
pub struct ChatWsRequestHeaders {
    pub hx_request: String,
    pub hx_trigger: String,
    pub hx_trigger_name: String,
    pub hx_target: String,
    pub hx_current_url: String,
}

/// One decoded chat request: the user's message, the context snippets that
/// seed the conversation on the first turn, and protocol metadata.
#[derive(Clone, Debug, Default)]
pub struct ChatWsRequest {
    pub chat: String,
    pub context: Vec<String>,
    pub headers: ChatWsRequestHeaders,
}

} // verus!
