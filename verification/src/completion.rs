use vstd::prelude::*;
use crate::chat::history_view;
use crate::chat::Message;
use crate::chat::MessageView;
use crate::text::copy_optional_text;
use crate::text::optional_text;

verus! {

/// One property of the object a callable takes: its name, its JSON type and
/// what it is for.
#[derive(Debug)]
pub struct Parameter {
    pub name: String,
    pub kind: String,
    pub description: String,
}

pub struct ParameterView {
    pub name: Seq<char>,
    pub kind: Seq<char>,
    pub description: Seq<char>,
}

impl View for Parameter {
    type V = ParameterView;

    open spec fn view(&self) -> ParameterView {
        ParameterView { name: self.name@, kind: self.kind@, description: self.description@ }
    }
}

impl Clone for Parameter {
    fn clone(&self) -> (copy: Self)
        ensures
            copy == *self,
    {
        Parameter {
            name: self.name.clone(),
            kind: self.kind.clone(),
            description: self.description.clone(),
        }
    }
}

/// A callable offered to the model: its name, what it does, and the
/// properties of the object it takes.
#[derive(Debug)]
pub struct FunctionDefinition {
    pub name: String,
    pub description: Option<String>,
    pub parameters: Vec<Parameter>,
}

pub struct FunctionDefinitionView {
    pub name: Seq<char>,
    pub description: Option<Seq<char>>,
    pub parameters: Seq<ParameterView>,
}

impl View for FunctionDefinition {
    type V = FunctionDefinitionView;

    open spec fn view(&self) -> FunctionDefinitionView {
        FunctionDefinitionView {
            name: self.name@,
            description: optional_text(self.description),
            parameters: self.parameters@.map_values(|parameter: Parameter| parameter@),
        }
    }
}

impl Clone for FunctionDefinition {
    fn clone(&self) -> (copy: Self)
        ensures
            copy@ == self@,
    {
        let mut parameters: Vec<Parameter> = Vec::new();
        let mut i: usize = 0;
        while i < self.parameters.len()
            invariant
                i <= self.parameters.len(),
                parameters@ == self.parameters@.subrange(0, i as int),
            decreases self.parameters.len() - i,
        {
            parameters.push(self.parameters[i].clone());
            assert(parameters@ == self.parameters@.subrange(0, i + 1));
            i += 1;
        }
        assert(parameters@ == self.parameters@);
        FunctionDefinition {
            name: self.name.clone(),
            description: copy_optional_text(&self.description),
            parameters,
        }
    }
}

/// The offered callables as the sequence of what each holds.
pub open spec fn definitions_view(definitions: Seq<FunctionDefinition>) -> Seq<
    FunctionDefinitionView,
> {
    definitions.map_values(|definition: FunctionDefinition| definition@)
}

/// A copy of the offered callables, in their order.
pub fn copy_definitions(definitions: &Vec<FunctionDefinition>) -> (copy: Vec<FunctionDefinition>)
    ensures
        definitions_view(copy@) == definitions_view(definitions@),
{
    let mut copy: Vec<FunctionDefinition> = Vec::new();
    let mut i: usize = 0;
    while i < definitions.len()
        invariant
            i <= definitions.len(),
            copy@.len() == i,
            forall|k: int| 0 <= k < i ==> (#[trigger] copy@[k])@ == definitions@[k]@,
        decreases definitions.len() - i,
    {
        copy.push(definitions[i].clone());
        i += 1;
    }
    assert(definitions_view(copy@) =~= definitions_view(definitions@));
    copy
}

/// A copy of a history, message by message.
pub fn copy_history(history: &Vec<Message>) -> (copy: Vec<Message>)
    ensures
        copy@ == history@,
{
    let mut copy: Vec<Message> = Vec::new();
    let mut i: usize = 0;
    while i < history.len()
        invariant
            i <= history.len(),
            copy@ == history@.subrange(0, i as int),
        decreases history.len() - i,
    {
        copy.push(history[i].clone());
        assert(copy@ == history@.subrange(0, i + 1));
        i += 1;
    }
    assert(copy@ == history@);
    copy
}

/// How the model may use the offered callables: as it sees fit, or bound to
/// the one that is named.
#[derive(Debug)]
pub enum CallMode {
    Auto,
    Named(String),
}

pub enum CallModeView {
    Auto,
    Named(Seq<char>),
}

impl View for CallMode {
    type V = CallModeView;

    open spec fn view(&self) -> CallModeView {
        match self {
            CallMode::Auto => CallModeView::Auto,
            CallMode::Named(name) => CallModeView::Named(name@),
        }
    }
}

/// The body of one request to the chat-completion endpoint.
#[derive(Debug)]
pub struct ChatCompletionRequest {
    pub model: String,
    pub messages: Vec<Message>,
    pub functions: Option<Vec<FunctionDefinition>>,
    pub function_call: Option<CallMode>,
    pub max_tokens: Option<u32>,
}

/// One candidate answer of the model.
#[derive(Debug)]
pub struct Choice {
    pub message: Message,
}

/// The body the chat-completion endpoint answers with.
#[derive(Debug)]
pub struct ChatCompletionResponse {
    pub choices: Vec<Choice>,
}

impl View for ChatCompletionResponse {
    type V = Seq<MessageView>;

    /// The messages of the choices, in their order.
    open spec fn view(&self) -> Seq<MessageView> {
        self.choices@.map_values(|choice: Choice| choice.message@)
    }
}

/// What a request holds, for contracts.
pub struct RequestView {
    pub model: Seq<char>,
    pub messages: Seq<MessageView>,
    pub functions: Option<Seq<FunctionDefinitionView>>,
    pub function_call: Option<CallModeView>,
    pub max_tokens: Option<u32>,
}

impl View for ChatCompletionRequest {
    type V = RequestView;

    open spec fn view(&self) -> RequestView {
        RequestView {
            model: self.model@,
            messages: history_view(self.messages@),
            functions: match self.functions {
                Some(definitions) => Some(definitions_view(definitions@)),
                None => None,
            },
            function_call: match self.function_call {
                Some(mode) => Some(mode@),
                None => None,
            },
            max_tokens: self.max_tokens,
        }
    }
}

} // verus!
