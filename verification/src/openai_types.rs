use vstd::prelude::*;

verus! {

/// One message of a chat.
#[derive(Debug)]
pub struct OpenAIMessage {
    pub role: String,
    pub content: String,
}

/// The model of a chat message: who says it, and what.
pub struct OpenAIMessageView {
    pub role: Seq<char>,
    pub content: Seq<char>,
}

impl View for OpenAIMessage {
    type V = OpenAIMessageView;

    open spec fn view(&self) -> OpenAIMessageView {
        OpenAIMessageView { role: self.role@, content: self.content@ }
    }
}

/// The model of a chat: the models of its messages.
pub open spec fn chat_view(messages: Seq<OpenAIMessage>) -> Seq<OpenAIMessageView> {
    messages.map_values(|m: OpenAIMessage| m@)
}

/// A chat completion request.
pub struct OpenAIPayload {
    pub model: String,
    pub messages: Vec<OpenAIMessage>,
    pub stream: Option<bool>,
    pub max_tokens: Option<u32>,
}

impl Default for OpenAIPayload {
    fn default() -> (payload: OpenAIPayload)
        ensures
            payload.model@ == Seq::<char>::empty(),
            payload.messages@ == Seq::<OpenAIMessage>::empty(),
            payload.stream is None,
            payload.max_tokens is None,
    {
        OpenAIPayload { model: String::new(), messages: Vec::new(), stream: None, max_tokens: None }
    }
}

/// The answer to a request that was not streamed.
#[derive(Debug)]
pub struct OpenAIBatchResponse {
    pub id: String,
    pub object: String,
    pub created: usize,
    pub model: String,
    pub usage: OpenAIUsageStats,
    pub choices: Vec<OpenAIBatchChoice>,
}

/// One completion of a batch response.
#[derive(Debug)]
pub struct OpenAIBatchChoice {
    pub message: OpenAIMessage,
    pub finish_reason: Option<String>,
    pub index: u32,
}

/// What a request cost.
#[derive(Debug)]
pub struct OpenAIUsageStats {
    pub prompt_tokens: u32,
    pub completion_tokens: u32,
    pub total_tokens: u32,
}

/// One completion whose reason to finish may be left out.
pub struct OpenAIChoice {
    pub message: OpenAIMessage,
    pub finish_reason: Option<String>,
    pub index: u32,
}

/// One event of a streamed answer.
#[derive(Debug)]
pub struct OpenAIStreamResponse {
    pub id: String,
    pub object: String,
    pub created: usize,
    pub model: String,
    pub choices: Vec<OpenAIStreamChoice>,
}

/// One completion of a streamed event.
#[derive(Debug)]
pub struct OpenAIStreamChoice {
    pub delta: StreamDelta,
    pub finish_reason: Option<String>,
    pub index: u32,
}

/// What a streamed event adds to the answer. `Empty` comes at its end.
#[derive(Debug)]
pub enum StreamDelta {
    Role { role: String },
    Content { content: String },
    Empty {},
}

} // verus!
