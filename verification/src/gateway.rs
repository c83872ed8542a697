//! The gateway endpoint: from a chat request to the request for the provider,
//! and from what the provider's reply came to, to what the caller is told.

use crate::bridge::{generation, generation_of, message_of};
use crate::bridge::{GenerateRequest, ProviderReply, ReplyView};
use crate::chars::is_trimmed;
use vstd::prelude::*;
use vstd::std_specs::convert::FromSpecImpl;

verus! {

/// The port on which the gateway listens.
pub const SERVER_PORT: u16 = 8080;

/// The status with which every failure is answered.
pub const FAILURE_STATUS: u16 = 500;

/// A chat request: the model to ask, and what to ask it. Neither is examined;
/// an empty one is passed on as it is.
#[derive(Debug, Clone, PartialEq, Eq)]
pub struct ChatRequest {
    pub model: String,
    pub prompt: String,
}

/// The answer to a chat request.
#[derive(Debug, Clone, PartialEq, Eq)]
pub struct ChatResponse {
    pub response: String,
}

/// What the caller is told when a chat request fails, whatever the cause.
#[derive(Debug, Clone, PartialEq, Eq)]
pub struct ApiError {
    pub message: String,
}

/// The model of a [`ChatRequest`].
pub ghost struct ChatRequestView {
    pub model: Seq<char>,
    pub prompt: Seq<char>,
}

/// The model of a [`GenerateRequest`].
pub ghost struct GenerateRequestView {
    pub model: Seq<char>,
    pub prompt: Seq<char>,
    pub stream: bool,
}

impl View for ChatRequest {
    type V = ChatRequestView;

    open spec fn view(&self) -> ChatRequestView {
        ChatRequestView { model: self.model@, prompt: self.prompt@ }
    }
}

impl View for GenerateRequest {
    type V = GenerateRequestView;

    open spec fn view(&self) -> GenerateRequestView {
        GenerateRequestView { model: self.model@, prompt: self.prompt@, stream: self.stream }
    }
}

impl View for ChatResponse {
    type V = Seq<char>;

    open spec fn view(&self) -> Seq<char> {
        self.response@
    }
}

impl ChatResponse {
    /// What holds of every answer that the gateway gives: it neither starts nor
    /// ends with whitespace.
    pub open spec fn wf(&self) -> bool {
        is_trimmed(self.response@)
    }
}

impl View for ApiError {
    type V = Seq<char>;

    open spec fn view(&self) -> Seq<char> {
        self.message@
    }
}

/// The request that is sent to the provider for a chat request: the same model
/// and prompt, and the wish for a reply in one piece.
pub open spec fn generate_request_of(request: ChatRequestView) -> GenerateRequestView {
    GenerateRequestView { model: request.model, prompt: request.prompt, stream: false }
}

/// What the caller gets for a reply of the provider: the answer, or the message
/// of the failure.
pub open spec fn chat_of(reply: ReplyView) -> Result<Seq<char>, Seq<char>> {
    match generation_of(reply) {
        Ok(answer) => Ok(answer),
        Err(error) => Err(message_of(error)),
    }
}

/// What the caller gets for a chat request, given how the provider replies to
/// each request.
pub open spec fn exchange_of(
    provider: spec_fn(GenerateRequestView) -> ReplyView,
    request: ChatRequestView,
) -> Result<Seq<char>, Seq<char>> {
    chat_of(provider(generate_request_of(request)))
}

impl From<ChatRequest> for GenerateRequest {
    fn from(request: ChatRequest) -> (r: GenerateRequest)
        ensures
            r@ == generate_request_of(request@),
    {
        GenerateRequest { model: request.model, prompt: request.prompt, stream: false }
    }
}

impl FromSpecImpl<ChatRequest> for GenerateRequest {
    open spec fn obeys_from_spec() -> bool {
        true
    }

    open spec fn from_spec(request: ChatRequest) -> GenerateRequest {
        GenerateRequest { model: request.model, prompt: request.prompt, stream: false }
    }
}

/// Answers a chat request, given what came of the call to the provider. A body
/// is always answered with success, even where no line of it is a fragment;
/// each failure of the call is answered with its message.
pub fn chat(reply: ProviderReply) -> (r: Result<ChatResponse, ApiError>)
    ensures
        match r {
            Ok(response) => chat_of(reply@) == Ok::<Seq<char>, Seq<char>>(response@)
                && response.wf(),
            Err(error) => chat_of(reply@) == Err::<Seq<char>, Seq<char>>(error@),
        },
{
    match generation(reply) {
        Ok(answer) => Ok(ChatResponse { response: answer }),
        Err(error) => Err(ApiError { message: error.message() }),
    }
}

impl ApiError {
    /// The status with which this failure is answered: the same for all.
    pub fn status_code(&self) -> (r: u16)
        ensures
            r == FAILURE_STATUS,
    {
        FAILURE_STATUS
    }
}

/// A body is answered with success, whatever it holds.
pub proof fn lemma_body_is_answered(body: Seq<char>)
    ensures
        chat_of(ReplyView::Body(body)) is Ok,
{
}

/// Where the provider cannot be reached, the caller is told so, with the cause
/// and the advice to start the provider.
pub proof fn lemma_unreachable_is_told(cause: Seq<char>)
    ensures
        chat_of(ReplyView::Unreachable(cause)) == Err::<Seq<char>, Seq<char>>(
            "Failed to connect to Ollama: "@ + cause
                + ". Make sure Ollama is running with 'ollama serve'"@,
        ),
{
}

/// Against a provider that replies to equal requests alike, a chat request
/// that is made twice is answered alike both times.
pub proof fn lemma_same_request_same_answer(
    provider: spec_fn(GenerateRequestView) -> ReplyView,
    first: ChatRequestView,
    second: ChatRequestView,
)
    requires
        first == second,
    ensures
        exchange_of(provider, first) == exchange_of(provider, second),
{
}

} // verus!
