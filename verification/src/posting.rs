use vstd::prelude::*;
use crate::agent::Agent;
use crate::agent::JOKE_FIELD;
use crate::agent::TWEET_JOKE;
use crate::completion::definitions_view;
use crate::completion::FunctionDefinition;
use crate::completion::FunctionDefinitionView;
use crate::completion::Parameter;
use crate::completion::ParameterView;
use crate::error::AgentError;

verus! {

/// What the agent is asked on every round.
pub const USER_PROMPT: &'static str = "make a tweet";

/// The pause between two rounds, in seconds.
pub const POST_INTERVAL_SECONDS: u64 = 30;

/// The system prompt that opens every conversation of the posting loop.
pub const SYSTEM_PROMPT: &'static str = "You are great at coming up with surprising links and unhinged and deranged analogies between things and see the underlying similarity between seemingly different ideas. \n\
    \x20           And you are very snarky. \n\
    \x20           Your words should bring out people's sentiments and can go viral. \n\
    \x20           You need to make a tweet that is an unhinged joke about crypto.\n\
    \x20           You think Ethereum L1 roadmap politics discussion is like supporting your local football team, you don't want it but everybody talks about it so you force yourself to read the ethresearch posts just to get invested in the characters.\n\
    \x20           Don't use hashtags.";

/// What the one callable on offer holds: `tweet_joke`, which takes an object
/// with the joke as a string.
pub open spec fn tweet_joke_definition() -> FunctionDefinitionView {
    FunctionDefinitionView {
        name: TWEET_JOKE@,
        description: Some("Tweets a joke."@),
        parameters: seq![
            ParameterView {
                name: JOKE_FIELD@,
                kind: "string"@,
                description: "The joke to be tweeted."@,
            },
        ],
    }
}

/// The callables the posting loop offers to the model: `tweet_joke` alone.
pub fn tweet_functions() -> (functions: Vec<FunctionDefinition>)
    ensures
        definitions_view(functions@) == seq![tweet_joke_definition()],
{
    let mut parameters: Vec<Parameter> = Vec::new();
    parameters.push(
        Parameter {
            name: String::from_str(JOKE_FIELD),
            kind: String::from_str("string"),
            description: String::from_str("The joke to be tweeted."),
        },
    );
    let definition = FunctionDefinition {
        name: String::from_str(TWEET_JOKE),
        description: Some(String::from_str("Tweets a joke.")),
        parameters,
    };
    assert(definition@.parameters =~= tweet_joke_definition().parameters);
    let mut functions: Vec<FunctionDefinition> = Vec::new();
    functions.push(definition);
    assert(definitions_view(functions@) =~= seq![tweet_joke_definition()]);
    functions
}

/// The agent of the posting loop: it asks with `api_key`, offers
/// `tweet_joke` and opens every conversation with the system prompt.
pub fn tweet_agent(api_key: String) -> (agent: Agent)
    ensures
        agent.api_key == api_key,
        agent.model@ == crate::agent::MODEL@,
        definitions_view(agent.functions@) == seq![tweet_joke_definition()],
        agent.system_prompt is Some,
        agent.system_prompt->0@ == SYSTEM_PROMPT@,
{
    Agent::new(api_key, tweet_functions(), Some(String::from_str(SYSTEM_PROMPT)))
}

/// What the posting loop does once a round of the agent has ended.
#[derive(Debug)]
pub enum LoopStep {
    /// Announce the text, pause for so many seconds, then start the next
    /// round on `USER_PROMPT`.
    Continue { text: String, pause_seconds: u64 },
    /// Leave the loop with this error. Nothing is tried again.
    Stop(AgentError),
}

/// The decision of the posting loop on the outcome of one round: a text is
/// announced and the next round starts after 30 seconds; the first error
/// ends the loop.
pub fn event_loop(outcome: Result<String, AgentError>) -> (step: LoopStep)
    ensures
        match outcome {
            Ok(text) => step == (LoopStep::Continue {
                text,
                pause_seconds: POST_INTERVAL_SECONDS,
            }),
            Err(error) => step == LoopStep::Stop(error),
        },
{
    match outcome {
        Ok(text) => LoopStep::Continue { text, pause_seconds: POST_INTERVAL_SECONDS },
        Err(error) => LoopStep::Stop(error),
    }
}

/// The line that announces a text: `Assistant: ` and the text.
pub open spec fn announcement_spec(text: Seq<char>) -> Seq<char> {
    "Assistant: "@ + text
}

pub fn announcement(text: &str) -> (line: String)
    ensures
        line@ == announcement_spec(text@),
{
    String::from_str("Assistant: ").concat(text)
}

} // verus!
