use vstd::prelude::*;
use crate::chat::history_view;
use crate::chat::optional_call;
use crate::chat::FunctionCall;
use crate::chat::FunctionCallView;
use crate::chat::Message;
use crate::chat::MessageView;
use crate::chat::Role;
use crate::completion::copy_definitions;
use crate::completion::copy_history;
use crate::completion::definitions_view;
use crate::completion::CallMode;
use crate::completion::CallModeView;
use crate::completion::ChatCompletionRequest;
use crate::completion::ChatCompletionResponse;
use crate::completion::FunctionDefinition;
use crate::completion::RequestView;
use crate::error::AgentError;
use crate::error::AgentErrorView;
use crate::json::json_string_member;
use crate::json::parse_string_member;
use crate::text::optional_text;
use crate::text::same_text;

verus! {

/// The model the agent asks.
pub const MODEL: &'static str = "gpt-4o";

/// The most tokens one completion may take.
pub const MAX_TOKENS: u32 = 500;

/// The one callable the agent can run: it posts a joke.
pub const TWEET_JOKE: &'static str = "tweet_joke";

/// The member of the callable's arguments that holds the text to post.
pub const JOKE_FIELD: &'static str = "joke";

/// What the model is told once the message was posted.
pub const POSTED: &'static str = "Tweeted successfully";

/// The least and the greatest status that count as success.
pub const SUCCESS_FIRST: u16 = 200;

pub const SUCCESS_LAST: u16 = 299;

/// Whether a status of the chat endpoint is a success.
pub open spec fn is_success_spec(status: u16) -> bool {
    SUCCESS_FIRST <= status <= SUCCESS_LAST
}

pub fn is_success(status: u16) -> (success: bool)
    ensures
        success == is_success_spec(status),
{
    SUCCESS_FIRST <= status && status <= SUCCESS_LAST
}

/// What the dispatch of an invocation gives: the text to post, or why the
/// invocation cannot be run. Only `tweet_joke` is registered; its arguments
/// must be JSON text that holds a string under `joke`.
pub open spec fn dispatch_spec(call: FunctionCallView) -> Result<Seq<char>, AgentErrorView> {
    if call.name != TWEET_JOKE@ {
        Err(AgentErrorView::UnknownFunction(call.name))
    } else {
        joke_argument_spec(json_string_member(call.arguments, JOKE_FIELD@))
    }
}

/// What the parsed arguments give: the joke, or the error that says what is
/// wrong with them.
pub open spec fn joke_argument_spec(parsed: Option<Option<Seq<char>>>) -> Result<
    Seq<char>,
    AgentErrorView,
> {
    match parsed {
        None => Err(AgentErrorView::InvalidArguments),
        Some(None) => Err(AgentErrorView::MissingJoke),
        Some(Some(joke)) => Ok(joke),
    }
}

/// What the parser's outcome stands for in contracts.
pub open spec fn parsed_view(parsed: Result<Option<String>, serde_json::Error>) -> Option<
    Option<Seq<char>>,
> {
    match parsed {
        Ok(member) => Some(optional_text(member)),
        Err(_) => None,
    }
}

/// What a dispatch gives, for contracts.
pub open spec fn dispatched_view(dispatched: Result<String, AgentError>) -> Result<
    Seq<char>,
    AgentErrorView,
> {
    match dispatched {
        Ok(joke) => Ok(joke@),
        Err(error) => Err(error@),
    }
}

/// Reads the joke out of what the parser made of an invocation's arguments.
pub fn joke_argument(parsed: Result<Option<String>, serde_json::Error>) -> (joke: Result<
    String,
    AgentError,
>)
    ensures
        dispatched_view(joke) == joke_argument_spec(parsed_view(parsed)),
{
    match parsed {
        Ok(Some(joke)) => Ok(joke),
        Ok(None) => Err(AgentError::MissingJoke),
        Err(_) => Err(AgentError::InvalidArguments),
    }
}

/// The chat agent: the credential and the model it asks with, the callables
/// it offers and the system prompt that opens each conversation.
#[derive(Debug)]
pub struct Agent {
    pub api_key: String,
    pub model: String,
    pub functions: Vec<FunctionDefinition>,
    pub system_prompt: Option<String>,
}

impl Agent {
    /// An agent that asks the model `gpt-4o` with the given credential.
    pub fn new(
        api_key: String,
        functions: Vec<FunctionDefinition>,
        system_prompt: Option<String>,
    ) -> (agent: Agent)
        ensures
            agent.api_key == api_key,
            agent.model@ == MODEL@,
            agent.functions == functions,
            agent.system_prompt == system_prompt,
    {
        Agent { api_key, model: String::from_str(MODEL), functions, system_prompt }
    }

    /// The value of the `Authorization` header: `Bearer`, a space and the
    /// credential.
    pub open spec fn authorization_spec(self) -> Seq<char> {
        "Bearer "@ + self.api_key@
    }

    pub fn authorization(&self) -> (header: String)
        ensures
            header@ == self.authorization_spec(),
    {
        String::from_str("Bearer ").concat(self.api_key.as_str())
    }

    /// The request that asks for the next completion of `history`: the whole
    /// history, every callable on offer, the choice among them left to the
    /// model, and at most 500 tokens.
    pub open spec fn request_spec(self, history: Seq<MessageView>) -> RequestView {
        RequestView {
            model: self.model@,
            messages: history,
            functions: Some(definitions_view(self.functions@)),
            function_call: Some(CallModeView::Auto),
            max_tokens: Some(MAX_TOKENS),
        }
    }

    pub fn request(&self, history: &Vec<Message>) -> (request: ChatCompletionRequest)
        ensures
            request@ == self.request_spec(history_view(history@)),
    {
        ChatCompletionRequest {
            model: self.model.clone(),
            messages: copy_history(history),
            functions: Some(copy_definitions(&self.functions)),
            function_call: Some(CallMode::Auto),
            max_tokens: Some(MAX_TOKENS),
        }
    }

    /// The history a conversation opens with: the system prompt, where the
    /// agent has one, then the user's input.
    pub open spec fn opening_spec(self, user_input: Seq<char>) -> Seq<MessageView> {
        match self.system_prompt {
            Some(prompt) => seq![
                Message::text_spec(Role::System, prompt@),
                Message::text_spec(Role::User, user_input),
            ],
            None => seq![Message::text_spec(Role::User, user_input)],
        }
    }

    /// Opens a conversation on `user_input`. Nothing is pending in it.
    pub fn start(&self, user_input: &str) -> (conversation: Conversation)
        ensures
            conversation@ == (ConversationView {
                history: self.opening_spec(user_input@),
                pending: None,
            }),
    {
        let mut history: Vec<Message> = Vec::new();
        match &self.system_prompt {
            Some(prompt) => {
                history.push(Message::text(Role::System, prompt.as_str()));
            },
            None => {},
        }
        history.push(Message::text(Role::User, user_input));
        assert(history_view(history@) =~= self.opening_spec(user_input@));
        Conversation { history, pending: None }
    }

    /// Looks the invocation up among the registered callables and reads its
    /// arguments. The result is the text to post. A name other than
    /// `tweet_joke` is refused with an error that carries the name.
    pub fn handle_function_call(&self, function_call: &FunctionCall) -> (dispatched: Result<
        String,
        AgentError,
    >)
        ensures
            dispatched_view(dispatched) == dispatch_spec(function_call@),
    {
        if same_text(function_call.name.as_str(), TWEET_JOKE) {
            joke_argument(parse_string_member(function_call.arguments.as_str(), JOKE_FIELD))
        } else {
            Err(AgentError::UnknownFunction(function_call.name.clone()))
        }
    }
}

/// A conversation in progress: the messages so far, and the invocation whose
/// message is being posted, if one is.
#[derive(Debug)]
pub struct Conversation {
    pub history: Vec<Message>,
    pub pending: Option<FunctionCall>,
}

pub struct ConversationView {
    pub history: Seq<MessageView>,
    pub pending: Option<FunctionCallView>,
}

impl View for Conversation {
    type V = ConversationView;

    open spec fn view(&self) -> ConversationView {
        ConversationView {
            history: history_view(self.history@),
            pending: optional_call(self.pending),
        }
    }
}

/// What the driver reports back to a conversation.
#[derive(Debug)]
pub enum Event {
    /// The request to the chat endpoint got no answer; the text says why.
    Unreachable(String),
    /// The chat endpoint answered with `status`. `body` is the completion it
    /// sent, or why its body could not be read as one.
    Answered { status: u16, body: Result<ChatCompletionResponse, String> },
    /// The platform took the message (`true`) or refused it (`false`).
    Posted(bool),
}

pub enum BodyView {
    Unreadable(Seq<char>),
    Choices(Seq<MessageView>),
}

pub enum EventView {
    Unreachable(Seq<char>),
    Answered { status: u16, body: BodyView },
    Posted(bool),
}

impl View for Event {
    type V = EventView;

    open spec fn view(&self) -> EventView {
        match self {
            Event::Unreachable(detail) => EventView::Unreachable(detail@),
            Event::Answered { status, body } => EventView::Answered {
                status: *status,
                body: match body {
                    Ok(response) => BodyView::Choices(response@),
                    Err(detail) => BodyView::Unreadable(detail@),
                },
            },
            Event::Posted(taken) => EventView::Posted(*taken),
        }
    }
}

/// What the driver is to do next.
#[derive(Debug)]
pub enum Action {
    /// Send the history to the chat endpoint and report the answer.
    Ask,
    /// Post this text on the platform and report whether it was taken.
    Post(String),
    /// The conversation is over: this is the model's text.
    Done(String),
    /// The conversation is over without a text.
    Failed(AgentError),
}

pub enum ActionView {
    Ask,
    Post(Seq<char>),
    Done(Seq<char>),
    Failed(AgentErrorView),
}

impl View for Action {
    type V = ActionView;

    open spec fn view(&self) -> ActionView {
        match self {
            Action::Ask => ActionView::Ask,
            Action::Post(text) => ActionView::Post(text@),
            Action::Done(text) => ActionView::Done(text@),
            Action::Failed(error) => ActionView::Failed(error@),
        }
    }
}

/// The step on the model's message: an invocation is dispatched and, where
/// that gives a text, held as pending while the text is posted; plain text
/// ends the conversation with that text; a message with neither ends it with
/// an error. The history is left as it is.
pub open spec fn message_step(conversation: ConversationView, message: MessageView) -> (
    ConversationView,
    ActionView,
) {
    match message.function_call {
        Some(call) => match dispatch_spec(call) {
            Ok(joke) => (
                ConversationView { history: conversation.history, pending: Some(call) },
                ActionView::Post(joke),
            ),
            Err(error) => (conversation, ActionView::Failed(error)),
        },
        None => match message.content {
            Some(text) => (conversation, ActionView::Done(text)),
            None => (conversation, ActionView::Failed(AgentErrorView::NoResponse)),
        },
    }
}

/// The step on the platform's answer for the pending invocation `call`: once
/// the message is taken, the invocation and its result join the history and
/// the model is asked again; a refusal ends the conversation.
pub open spec fn posted_step(conversation: ConversationView, call: FunctionCallView, taken: bool) -> (
    ConversationView,
    ActionView,
) {
    if taken {
        (
            ConversationView {
                history: conversation.history.push(Message::invocation_spec(call)).push(
                    Message::function_result_spec(call.name, POSTED@),
                ),
                pending: None,
            },
            ActionView::Ask,
        )
    } else {
        (
            ConversationView { history: conversation.history, pending: None },
            ActionView::Failed(AgentErrorView::PostFailed),
        )
    }
}

/// One step of a conversation: the state after `event`, and what to do next.
/// While an invocation is pending only the platform's answer is expected, and
/// otherwise only the chat endpoint's; anything else changes nothing and is
/// reported as unexpected.
pub open spec fn run_spec(conversation: ConversationView, event: EventView) -> (
    ConversationView,
    ActionView,
) {
    match (conversation.pending, event) {
        (Some(call), EventView::Posted(taken)) => posted_step(conversation, call, taken),
        (None, EventView::Unreachable(detail)) => (
            conversation,
            ActionView::Failed(AgentErrorView::Transport(detail)),
        ),
        (None, EventView::Answered { status, body }) => if !is_success_spec(status) {
            (conversation, ActionView::Failed(AgentErrorView::ApiRequestFailed))
        } else {
            match body {
                BodyView::Unreadable(detail) => (
                    conversation,
                    ActionView::Failed(AgentErrorView::Transport(detail)),
                ),
                BodyView::Choices(messages) => if messages.len() == 0 {
                    (conversation, ActionView::Failed(AgentErrorView::MalformedResponse))
                } else {
                    message_step(conversation, messages[0])
                },
            }
        },
        _ => (conversation, ActionView::Failed(AgentErrorView::UnexpectedEvent)),
    }
}

impl Agent {
    /// Advances a conversation by one event and says what to do next, as
    /// `run_spec` has it. The text of `Action::Done` is the model's own,
    /// unchanged.
    pub fn run(&self, conversation: &mut Conversation, event: Event) -> (action: Action)
        ensures
            (final(conversation)@, action@) == run_spec(old(conversation)@, event@),
    {
        let pending = conversation.pending.take();
        match pending {
            Some(call) => match event {
                Event::Posted(taken) => {
                    if taken {
                        conversation.history.push(Message::invocation(&call));
                        conversation.history.push(
                            Message::function_result(call.name.as_str(), POSTED),
                        );
                        assert(history_view(conversation.history@) =~= history_view(
                            old(conversation).history@,
                        ).push(Message::invocation_spec(call@)).push(
                            Message::function_result_spec(call@.name, POSTED@),
                        ));
                        Action::Ask
                    } else {
                        Action::Failed(AgentError::PostFailed)
                    }
                },
                _ => {
                    conversation.pending = Some(call);
                    Action::Failed(AgentError::UnexpectedEvent)
                },
            },
            None => match event {
                Event::Unreachable(detail) => Action::Failed(AgentError::Transport(detail)),
                Event::Answered { status, body } => {
                    if !is_success(status) {
                        Action::Failed(AgentError::ApiRequestFailed)
                    } else {
                        match body {
                            Err(detail) => Action::Failed(AgentError::Transport(detail)),
                            Ok(response) => {
                                if response.choices.len() == 0 {
                                    Action::Failed(AgentError::MalformedResponse)
                                } else {
                                    self.on_message(conversation, &response.choices[0].message)
                                }
                            },
                        }
                    }
                },
                Event::Posted(_) => Action::Failed(AgentError::UnexpectedEvent),
            },
        }
    }

    /// The step on the model's message, while nothing is pending.
    pub fn on_message(&self, conversation: &mut Conversation, message: &Message) -> (action: Action)
        ensures
            (final(conversation)@, action@) == message_step(old(conversation)@, message@),
    {
        match &message.function_call {
            Some(call) => match self.handle_function_call(call) {
                Ok(joke) => {
                    conversation.pending = Some(call.clone());
                    Action::Post(joke)
                },
                Err(error) => Action::Failed(error),
            },
            None => match &message.content {
                Some(text) => Action::Done(text.clone()),
                None => Action::Failed(AgentError::NoResponse),
            },
        }
    }
}

/// An invocation of any callable but `tweet_joke` is refused, whatever its
/// arguments are: the dispatch gives the error that carries the name, whose
/// sentence ends in the name.
pub proof fn lemma_unregistered_callable_is_refused(call: FunctionCallView)
    requires
        call.name != TWEET_JOKE@,
    ensures
        dispatch_spec(call) == Err::<Seq<char>, AgentErrorView>(
            AgentErrorView::UnknownFunction(call.name),
        ),
        AgentErrorView::UnknownFunction(call.name).message() == "Unknown function: "@ + call.name,
{
}

/// A conversation never passes over a request for an unregistered callable:
/// where the model's first message asks for one, the step ends the
/// conversation with the error that names it, posts nothing and leaves the
/// conversation as it was.
pub proof fn lemma_unregistered_callable_ends_conversation(
    conversation: ConversationView,
    status: u16,
    messages: Seq<MessageView>,
    call: FunctionCallView,
)
    requires
        conversation.pending is None,
        is_success_spec(status),
        messages.len() > 0,
        messages[0].function_call == Some(call),
        call.name != TWEET_JOKE@,
    ensures
        run_spec(conversation, EventView::Answered { status, body: BodyView::Choices(messages) })
            == (conversation, ActionView::Failed(AgentErrorView::UnknownFunction(call.name))),
{
}

/// A completion whose first message is plain text with no invocation ends
/// the conversation with exactly that text, and leaves the history as it was.
pub proof fn lemma_plain_text_ends_conversation(
    conversation: ConversationView,
    status: u16,
    messages: Seq<MessageView>,
    text: Seq<char>,
)
    requires
        conversation.pending is None,
        is_success_spec(status),
        messages.len() > 0,
        messages[0].function_call is None,
        messages[0].content == Some(text),
    ensures
        run_spec(conversation, EventView::Answered { status, body: BodyView::Choices(messages) })
            == (conversation, ActionView::Done(text)),
{
}

/// A step never rewrites the history: what was in it stays, in its order, and
/// a step adds either nothing or the two messages of one invocation.
pub proof fn lemma_history_only_grows(conversation: ConversationView, event: EventView)
    ensures
        conversation.history.is_prefix_of(run_spec(conversation, event).0.history),
        run_spec(conversation, event).0.history.len() == conversation.history.len() || run_spec(
            conversation,
            event,
        ).0.history.len() == conversation.history.len() + 2,
        run_spec(conversation, event).1 is Ask <==> run_spec(conversation, event).0.history.len()
            == conversation.history.len() + 2,
{
}

} // verus!
