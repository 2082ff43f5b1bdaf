use tweet_agent::chat::FunctionCall;
use tweet_agent::chat::Message;
use tweet_agent::chat::Role;
use tweet_agent::completion::copy_definitions;
use tweet_agent::completion::copy_history;
use tweet_agent::error::AgentError;
use tweet_agent::posting::tweet_functions;
use tweet_agent::text::copy_optional_text;
use tweet_agent::text::same_text;

#[test]
fn role_names() {
    assert_eq!(Role::System.name(), "system");
    assert_eq!(Role::User.name(), "user");
    assert_eq!(Role::Assistant.name(), "assistant");
    assert_eq!(Role::Function.name(), "function");
}

#[test]
fn role_parse_reads_names_back() {
    let roles = [Role::System, Role::User, Role::Assistant, Role::Function];
    for role in roles {
        assert_eq!(Role::parse(role.name()), Some(role));
    }
}

#[test]
fn role_parse_refuses_other_text() {
    assert_eq!(Role::parse(""), None);
    assert_eq!(Role::parse("System"), None);
    assert_eq!(Role::parse("user "), None);
    assert_eq!(Role::parse("tool"), None);
}

#[test]
fn text_message() {
    let message = Message::text(Role::User, "hi");
    assert_eq!(message.role, Role::User);
    assert_eq!(message.content, Some("hi".to_string()));
    assert_eq!(message.name, None);
    assert!(message.function_call.is_none());
}

#[test]
fn invocation_message() {
    let call = FunctionCall { name: "tweet_joke".to_string(), arguments: "{}".to_string() };
    let message = Message::invocation(&call);
    assert_eq!(message.role, Role::Assistant);
    assert_eq!(message.content, None);
    assert_eq!(message.name, None);
    let recorded = message.function_call.unwrap();
    assert_eq!(recorded.name, "tweet_joke");
    assert_eq!(recorded.arguments, "{}");
}

#[test]
fn function_result_message() {
    let message = Message::function_result("tweet_joke", "Tweeted successfully");
    assert_eq!(message.role, Role::Function);
    assert_eq!(message.content, Some("Tweeted successfully".to_string()));
    assert_eq!(message.name, Some("tweet_joke".to_string()));
    assert!(message.function_call.is_none());
}

#[test]
fn message_clone_keeps_everything() {
    let call = FunctionCall { name: "n".to_string(), arguments: "a".to_string() };
    let message = Message {
        role: Role::Assistant,
        content: Some("c".to_string()),
        name: Some("m".to_string()),
        function_call: Some(call),
    };
    let copy = message.clone();
    assert_eq!(copy.role, Role::Assistant);
    assert_eq!(copy.content, Some("c".to_string()));
    assert_eq!(copy.name, Some("m".to_string()));
    let recorded = copy.function_call.unwrap();
    assert_eq!(recorded.name, "n");
    assert_eq!(recorded.arguments, "a");
}

#[test]
fn history_copy_keeps_order() {
    let history = vec![Message::text(Role::System, "a"), Message::text(Role::User, "b")];
    let copy = copy_history(&history);
    assert_eq!(copy.len(), 2);
    assert_eq!(copy[0].role, Role::System);
    assert_eq!(copy[0].content, Some("a".to_string()));
    assert_eq!(copy[1].role, Role::User);
    assert_eq!(copy[1].content, Some("b".to_string()));
    assert!(copy_history(&Vec::new()).is_empty());
}

#[test]
fn definitions_copy_keeps_order() {
    let mut definitions = tweet_functions();
    let mut second = definitions[0].clone();
    second.name = "other".to_string();
    second.description = None;
    definitions.push(second);
    let copy = copy_definitions(&definitions);
    assert_eq!(copy.len(), 2);
    assert_eq!(copy[0].name, "tweet_joke");
    assert_eq!(copy[1].name, "other");
    assert_eq!(copy[1].description, None);
    assert_eq!(copy[1].parameters[0].name, "joke");
}

#[test]
fn text_helpers() {
    assert!(same_text("abc", "abc"));
    assert!(same_text("", ""));
    assert!(!same_text("abc", "abd"));
    assert!(!same_text("abc", "ab"));
    assert_eq!(copy_optional_text(&Some("x".to_string())), Some("x".to_string()));
    assert_eq!(copy_optional_text(&None), None);
}

#[test]
fn error_messages() {
    assert_eq!(AgentError::Transport("timed out".to_string()).message(), "Transport error: timed out");
    assert_eq!(AgentError::ApiRequestFailed.message(), "API request failed");
    assert_eq!(AgentError::MalformedResponse.message(), "API response holds no choice");
    assert_eq!(AgentError::InvalidArguments.message(), "Arguments are not valid JSON");
    assert_eq!(AgentError::MissingJoke.message(), "Missing 'joke' field in arguments");
    assert_eq!(
        AgentError::UnknownFunction("send_mail".to_string()).message(),
        "Unknown function: send_mail"
    );
    assert_eq!(AgentError::PostFailed.message(), "Failed to tweet joke");
    assert_eq!(
        AgentError::NoResponse.message(),
        "Failed to get a response from the assistant."
    );
    assert_eq!(AgentError::UnexpectedEvent.message(), "Unexpected event");
}
