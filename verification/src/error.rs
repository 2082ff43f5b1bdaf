use vstd::prelude::*;

verus! {

/// Why a run of the agent ended without a text.
#[derive(Debug)]
pub enum AgentError {
    /// The chat endpoint could not be reached, or its answer could not be read.
    Transport(String),
    /// The chat endpoint answered with a status outside 200..=299.
    ApiRequestFailed,
    /// The chat endpoint answered without a single choice.
    MalformedResponse,
    /// The arguments of an invocation are no JSON text.
    InvalidArguments,
    /// The arguments of an invocation hold no text under `joke`.
    MissingJoke,
    /// The model asked for a callable that is not registered.
    UnknownFunction(String),
    /// The platform refused the message.
    PostFailed,
    /// The model answered with neither a text nor an invocation.
    NoResponse,
    /// The driver reported something the run was not waiting for.
    UnexpectedEvent,
}

pub enum AgentErrorView {
    Transport(Seq<char>),
    ApiRequestFailed,
    MalformedResponse,
    InvalidArguments,
    MissingJoke,
    UnknownFunction(Seq<char>),
    PostFailed,
    NoResponse,
    UnexpectedEvent,
}

impl View for AgentError {
    type V = AgentErrorView;

    open spec fn view(&self) -> AgentErrorView {
        match self {
            AgentError::Transport(detail) => AgentErrorView::Transport(detail@),
            AgentError::ApiRequestFailed => AgentErrorView::ApiRequestFailed,
            AgentError::MalformedResponse => AgentErrorView::MalformedResponse,
            AgentError::InvalidArguments => AgentErrorView::InvalidArguments,
            AgentError::MissingJoke => AgentErrorView::MissingJoke,
            AgentError::UnknownFunction(name) => AgentErrorView::UnknownFunction(name@),
            AgentError::PostFailed => AgentErrorView::PostFailed,
            AgentError::NoResponse => AgentErrorView::NoResponse,
            AgentError::UnexpectedEvent => AgentErrorView::UnexpectedEvent,
        }
    }
}

impl AgentErrorView {
    /// The sentence shown for the error.
    pub open spec fn message(self) -> Seq<char> {
        match self {
            AgentErrorView::Transport(detail) => "Transport error: "@ + detail,
            AgentErrorView::ApiRequestFailed => "API request failed"@,
            AgentErrorView::MalformedResponse => "API response holds no choice"@,
            AgentErrorView::InvalidArguments => "Arguments are not valid JSON"@,
            AgentErrorView::MissingJoke => "Missing 'joke' field in arguments"@,
            AgentErrorView::UnknownFunction(name) => "Unknown function: "@ + name,
            AgentErrorView::PostFailed => "Failed to tweet joke"@,
            AgentErrorView::NoResponse => "Failed to get a response from the assistant."@,
            AgentErrorView::UnexpectedEvent => "Unexpected event"@,
        }
    }
}

impl AgentError {
    /// The sentence shown for the error.
    pub fn message(&self) -> (text: String)
        ensures
            text@ == self@.message(),
    {
        match self {
            AgentError::Transport(detail) => String::from_str("Transport error: ").concat(
                detail.as_str(),
            ),
            AgentError::ApiRequestFailed => String::from_str("API request failed"),
            AgentError::MalformedResponse => String::from_str("API response holds no choice"),
            AgentError::InvalidArguments => String::from_str("Arguments are not valid JSON"),
            AgentError::MissingJoke => String::from_str("Missing 'joke' field in arguments"),
            AgentError::UnknownFunction(name) => String::from_str("Unknown function: ").concat(
                name.as_str(),
            ),
            AgentError::PostFailed => String::from_str("Failed to tweet joke"),
            AgentError::NoResponse => String::from_str(
                "Failed to get a response from the assistant.",
            ),
            AgentError::UnexpectedEvent => String::from_str("Unexpected event"),
        }
    }
}

} // verus!
