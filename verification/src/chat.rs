use vstd::prelude::*;
use crate::text::copy_optional_text;
use crate::text::optional_text;
use crate::text::same_text;

verus! {

/// Who wrote a message of the conversation.
#[derive(Clone, Copy, Debug, PartialEq, Eq, Structural)]
pub enum Role {
    System,
    User,
    Assistant,
    Function,
}

impl Role {
    /// The word that stands for the role on the wire.
    pub open spec fn name_spec(self) -> Seq<char> {
        match self {
            Role::System => "system"@,
            Role::User => "user"@,
            Role::Assistant => "assistant"@,
            Role::Function => "function"@,
        }
    }

    pub fn name(self) -> (name: &'static str)
        ensures
            name@ == self.name_spec(),
    {
        match self {
            Role::System => "system",
            Role::User => "user",
            Role::Assistant => "assistant",
            Role::Function => "function",
        }
    }

    /// Reads a role from its word. Any other text names no role.
    pub fn parse(text: &str) -> (role: Option<Role>)
        ensures
            match role {
                Some(found) => found.name_spec() == text@,
                None => forall|other: Role| other.name_spec() != text@,
            },
    {
        if same_text(text, "system") {
            Some(Role::System)
        } else if same_text(text, "user") {
            Some(Role::User)
        } else if same_text(text, "assistant") {
            Some(Role::Assistant)
        } else if same_text(text, "function") {
            Some(Role::Function)
        } else {
            None
        }
    }
}

/// No two roles share a word, so reading a role's word gives the role back.
pub proof fn lemma_role_names_distinct(a: Role, b: Role)
    ensures
        a.name_spec() == b.name_spec() <==> a == b,
{
    reveal_strlit("system");
    reveal_strlit("user");
    reveal_strlit("assistant");
    reveal_strlit("function");
    if a != b {
        assert(a.name_spec().len() != b.name_spec().len() || a.name_spec()[0] != b.name_spec()[0]);
    }
}

/// A request of the model to run one of the callables it was offered. The
/// arguments are JSON text, as the model wrote them.
#[derive(Debug)]
pub struct FunctionCall {
    pub name: String,
    pub arguments: String,
}

pub struct FunctionCallView {
    pub name: Seq<char>,
    pub arguments: Seq<char>,
}

impl View for FunctionCall {
    type V = FunctionCallView;

    open spec fn view(&self) -> FunctionCallView {
        FunctionCallView { name: self.name@, arguments: self.arguments@ }
    }
}

impl Clone for FunctionCall {
    fn clone(&self) -> (copy: Self)
        ensures
            copy == *self,
    {
        FunctionCall { name: self.name.clone(), arguments: self.arguments.clone() }
    }
}

/// What an optional invocation holds, as characters.
pub open spec fn optional_call(call: Option<FunctionCall>) -> Option<FunctionCallView> {
    match call {
        Some(inner) => Some(inner@),
        None => None,
    }
}

/// One entry of the conversation history.
#[derive(Debug)]
pub struct Message {
    pub role: Role,
    pub content: Option<String>,
    pub name: Option<String>,
    pub function_call: Option<FunctionCall>,
}

pub struct MessageView {
    pub role: Role,
    pub content: Option<Seq<char>>,
    pub name: Option<Seq<char>>,
    pub function_call: Option<FunctionCallView>,
}

impl View for Message {
    type V = MessageView;

    open spec fn view(&self) -> MessageView {
        MessageView {
            role: self.role,
            content: optional_text(self.content),
            name: optional_text(self.name),
            function_call: optional_call(self.function_call),
        }
    }
}

impl Clone for Message {
    fn clone(&self) -> (copy: Self)
        ensures
            copy == *self,
    {
        let function_call = match &self.function_call {
            Some(call) => Some(call.clone()),
            None => None,
        };
        Message {
            role: self.role,
            content: copy_optional_text(&self.content),
            name: copy_optional_text(&self.name),
            function_call,
        }
    }
}

/// A history as the sequence of what its messages hold.
pub open spec fn history_view(history: Seq<Message>) -> Seq<MessageView> {
    history.map_values(|message: Message| message@)
}

impl Message {
    /// What a message of plain text holds.
    pub open spec fn text_spec(role: Role, content: Seq<char>) -> MessageView {
        MessageView { role, content: Some(content), name: None, function_call: None }
    }

    /// A message of plain text written by `role`.
    pub fn text(role: Role, content: &str) -> (message: Message)
        ensures
            message@ == Message::text_spec(role, content@),
    {
        Message { role, content: Some(content.to_owned()), name: None, function_call: None }
    }

    /// What the assistant's message that carries an invocation holds.
    pub open spec fn invocation_spec(call: FunctionCallView) -> MessageView {
        MessageView { role: Role::Assistant, content: None, name: None, function_call: Some(call) }
    }

    /// The assistant's message that records an invocation.
    pub fn invocation(call: &FunctionCall) -> (message: Message)
        ensures
            message@ == Message::invocation_spec(call@),
    {
        Message {
            role: Role::Assistant,
            content: None,
            name: None,
            function_call: Some(call.clone()),
        }
    }

    /// What the message that reports a callable's result holds.
    pub open spec fn function_result_spec(name: Seq<char>, result: Seq<char>) -> MessageView {
        MessageView {
            role: Role::Function,
            content: Some(result),
            name: Some(name),
            function_call: None,
        }
    }

    /// The message that reports what the callable `name` returned.
    pub fn function_result(name: &str, result: &str) -> (message: Message)
        ensures
            message@ == Message::function_result_spec(name@, result@),
    {
        Message {
            role: Role::Function,
            content: Some(result.to_owned()),
            name: Some(name.to_owned()),
            function_call: None,
        }
    }
}

} // verus!
