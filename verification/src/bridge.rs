//! The generation bridge: what is sent to the provider, and what its reply
//! comes to.

use crate::aggregate::{aggregate, aggregate_of};
use crate::chars::is_trimmed;
use vstd::prelude::*;
use vstd::string::StringExecFns;

verus! {

/// Where the provider's API is found.
pub const OLLAMA_API_BASE: &'static str = "http://localhost:11434/api";

/// The request for one generation, as the provider takes it.
#[derive(Debug, Clone, PartialEq, Eq)]
pub struct GenerateRequest {
    pub model: String,
    pub prompt: String,
    pub stream: bool,
}

/// What came of the call to the provider.
#[derive(Debug, Clone, PartialEq, Eq)]
pub enum ProviderReply {
    /// The call could not be made; the text says why.
    Unreachable(String),
    /// The call was made and the body of the reply could not be read; the text
    /// says why.
    Unreadable(String),
    /// The body of the reply.
    Body(String),
}

/// Why a generation failed.
#[derive(Debug, Clone, PartialEq, Eq)]
pub enum BridgeError {
    /// The provider could not be reached; the text is the cause.
    ProviderUnreachable(String),
    /// The reply could not be read to its end; the text is the cause.
    ResponseUnreadable(String),
}

/// The model of a [`ProviderReply`].
pub ghost enum ReplyView {
    Unreachable(Seq<char>),
    Unreadable(Seq<char>),
    Body(Seq<char>),
}

/// The model of a [`BridgeError`].
pub ghost enum BridgeErrorView {
    ProviderUnreachable(Seq<char>),
    ResponseUnreadable(Seq<char>),
}

impl View for ProviderReply {
    type V = ReplyView;

    open spec fn view(&self) -> ReplyView {
        match self {
            ProviderReply::Unreachable(cause) => ReplyView::Unreachable(cause@),
            ProviderReply::Unreadable(cause) => ReplyView::Unreadable(cause@),
            ProviderReply::Body(body) => ReplyView::Body(body@),
        }
    }
}

impl View for BridgeError {
    type V = BridgeErrorView;

    open spec fn view(&self) -> BridgeErrorView {
        match self {
            BridgeError::ProviderUnreachable(cause) => BridgeErrorView::ProviderUnreachable(cause@),
            BridgeError::ResponseUnreadable(cause) => BridgeErrorView::ResponseUnreadable(cause@),
        }
    }
}

/// The address of the provider's generation endpoint.
pub open spec fn generate_url_text() -> Seq<char> {
    OLLAMA_API_BASE@ + "/generate"@
}

/// What a reply comes to: the answer that its body makes, or the reason why
/// there is none.
pub open spec fn generation_of(reply: ReplyView) -> Result<Seq<char>, BridgeErrorView> {
    match reply {
        ReplyView::Unreachable(cause) => Err(BridgeErrorView::ProviderUnreachable(cause)),
        ReplyView::Unreadable(cause) => Err(BridgeErrorView::ResponseUnreadable(cause)),
        ReplyView::Body(body) => Ok(aggregate_of(body)),
    }
}

/// What the caller is told of a failure.
pub open spec fn message_of(error: BridgeErrorView) -> Seq<char> {
    match error {
        BridgeErrorView::ProviderUnreachable(cause) => "Failed to connect to Ollama: "@ + cause
            + ". Make sure Ollama is running with 'ollama serve'"@,
        BridgeErrorView::ResponseUnreadable(cause) => "Failed to get response text: "@ + cause,
    }
}

/// The address of the provider's generation endpoint.
pub fn generate_url() -> (r: String)
    ensures
        r@ == generate_url_text(),
{
    let mut url = OLLAMA_API_BASE.to_owned();
    url.append("/generate");
    url
}

/// What a reply comes to. A body always gives an answer, be it the empty one;
/// the two failures of the call give their reason.
pub fn generation(reply: ProviderReply) -> (r: Result<String, BridgeError>)
    ensures
        match r {
            Ok(answer) => generation_of(reply@) == Ok::<Seq<char>, BridgeErrorView>(answer@)
                && is_trimmed(answer@),
            Err(error) => generation_of(reply@) == Err::<Seq<char>, BridgeErrorView>(error@),
        },
{
    match reply {
        ProviderReply::Unreachable(cause) => Err(BridgeError::ProviderUnreachable(cause)),
        ProviderReply::Unreadable(cause) => Err(BridgeError::ResponseUnreadable(cause)),
        ProviderReply::Body(body) => Ok(aggregate(body.as_str())),
    }
}

impl BridgeError {
    /// What the caller is told of this failure.
    pub fn message(&self) -> (r: String)
        ensures
            r@ == message_of(self@),
    {
        match self {
            BridgeError::ProviderUnreachable(cause) => {
                let mut text = "Failed to connect to Ollama: ".to_owned();
                text.append(cause.as_str());
                text.append(". Make sure Ollama is running with 'ollama serve'");
                text
            },
            BridgeError::ResponseUnreadable(cause) => {
                let mut text = "Failed to get response text: ".to_owned();
                text.append(cause.as_str());
                text
            },
        }
    }
}

} // verus!
