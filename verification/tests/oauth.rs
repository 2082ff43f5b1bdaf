use tweet_agent::oauth::authorize;
use tweet_agent::oauth::callback;
use tweet_agent::oauth::finish;
use tweet_agent::oauth::login;
use tweet_agent::oauth::take_credentials;
use tweet_agent::oauth::CallbackQuery;
use tweet_agent::oauth::OAuthError;
use tweet_agent::oauth::SharedState;
use tweet_agent::oauth::TokenPair;

fn pair(token: &str, secret: &str) -> TokenPair {
    TokenPair { token: token.to_string(), secret: secret.to_string() }
}

fn query(token: &str, verifier: &str) -> CallbackQuery {
    CallbackQuery { oauth_token: token.to_string(), oauth_verifier: verifier.to_string() }
}

#[test]
fn new_state_is_empty_and_armed() {
    let state = SharedState::new("https://tee.example".to_string());
    assert_eq!(state.tee_url, "https://tee.example");
    assert!(state.twitter_token_pair.is_none());
    assert!(state.shutdown_armed);
}

#[test]
fn callback_url_appends_path() {
    let state = SharedState::new("https://tee.example".to_string());
    assert_eq!(state.callback_url(), "https://tee.example/callback");
    let bare = SharedState::new(String::new());
    assert_eq!(bare.callback_url(), "/callback");
}

#[test]
fn login_stores_pair_and_redirects() {
    let mut state = SharedState::new("https://tee.example".to_string());
    let redirect = login(&mut state, pair("req-1", "s-1"));
    assert_eq!(redirect.status, 307);
    assert_eq!(redirect.location, "https://api.twitter.com/oauth/authenticate?oauth_token=req-1");
    let stored = state.twitter_token_pair.as_ref().unwrap();
    assert_eq!(stored.token, "req-1");
    assert_eq!(stored.secret, "s-1");
    assert!(state.shutdown_armed);
}

#[test]
fn second_login_replaces_the_pair() {
    let mut state = SharedState::new("u".to_string());
    login(&mut state, pair("req-1", "s-1"));
    login(&mut state, pair("req-2", "s-2"));
    assert_eq!(state.twitter_token_pair.as_ref().unwrap().token, "req-2");
    assert_eq!(callback(&state, &query("req-1", "v")).unwrap_err(), OAuthError::TokenMismatch);
    assert!(callback(&state, &query("req-2", "v")).is_ok());
}

#[test]
fn callback_accepts_the_issued_token() {
    let mut state = SharedState::new("u".to_string());
    login(&mut state, pair("req-1", "s-1"));
    let exchange = callback(&state, &query("req-1", "verifier-9")).unwrap();
    assert_eq!(exchange.token, "req-1");
    assert_eq!(exchange.secret, "s-1");
    assert_eq!(exchange.verifier, "verifier-9");
}

#[test]
fn callback_with_other_token_does_not_reach_exchange() {
    let mut state = SharedState::new("u".to_string());
    login(&mut state, pair("req-1", "s-1"));
    assert_eq!(callback(&state, &query("req-2", "v")).unwrap_err(), OAuthError::TokenMismatch);
    assert_eq!(callback(&state, &query("", "v")).unwrap_err(), OAuthError::TokenMismatch);
    assert_eq!(callback(&state, &query("req-1 ", "v")).unwrap_err(), OAuthError::TokenMismatch);
    assert_eq!(callback(&state, &query("REQ-1", "v")).unwrap_err(), OAuthError::TokenMismatch);
    let stored = state.twitter_token_pair.as_ref().unwrap();
    assert_eq!(stored.token, "req-1");
    assert_eq!(stored.secret, "s-1");
    assert!(state.shutdown_armed);
}

#[test]
fn callback_before_login_is_refused() {
    let state = SharedState::new("u".to_string());
    assert_eq!(callback(&state, &query("req-1", "v")).unwrap_err(), OAuthError::NoRequestToken);
}

#[test]
fn authorize_overwrites_the_request_pair() {
    let mut state = SharedState::new("u".to_string());
    login(&mut state, pair("req-1", "s-1"));
    authorize(&mut state, pair("acc-1", "as-1"));
    let stored = state.twitter_token_pair.as_ref().unwrap();
    assert_eq!(stored.token, "acc-1");
    assert_eq!(stored.secret, "as-1");
    assert!(state.shutdown_armed);
}

#[test]
fn finish_fires_once() {
    let mut state = SharedState::new("u".to_string());
    login(&mut state, pair("req-1", "s-1"));
    authorize(&mut state, pair("acc-1", "as-1"));
    let first = finish(&mut state, "alice");
    assert!(first.notify);
    assert_eq!(first.status, 200);
    assert_eq!(first.message, "Succesfully logged into alice");
    assert!(!state.shutdown_armed);
    let second = finish(&mut state, "alice");
    assert!(!second.notify);
    assert_eq!(second.message, "Succesfully logged into alice");
    assert!(!state.shutdown_armed);
    login(&mut state, pair("req-2", "s-2"));
    authorize(&mut state, pair("acc-2", "as-2"));
    assert!(!finish(&mut state, "bob").notify);
}

#[test]
fn credentials_are_kept_until_the_signal_fired() {
    let mut state = SharedState::new("u".to_string());
    assert_eq!(take_credentials(&mut state).unwrap_err(), OAuthError::ShutdownNotSignalled);
    login(&mut state, pair("req-1", "s-1"));
    assert_eq!(take_credentials(&mut state).unwrap_err(), OAuthError::ShutdownNotSignalled);
    authorize(&mut state, pair("acc-1", "as-1"));
    assert_eq!(take_credentials(&mut state).unwrap_err(), OAuthError::ShutdownNotSignalled);
    assert_eq!(state.twitter_token_pair.as_ref().unwrap().token, "acc-1");
    finish(&mut state, "alice");
    let taken = take_credentials(&mut state).unwrap();
    assert_eq!(taken.token, "acc-1");
    assert_eq!(taken.secret, "as-1");
    assert!(state.twitter_token_pair.is_none());
    assert_eq!(take_credentials(&mut state).unwrap_err(), OAuthError::NoCredentials);
}

#[test]
fn fired_signal_without_pair_gives_no_credentials() {
    let mut state = SharedState::new("u".to_string());
    assert!(finish(&mut state, "nobody").notify);
    assert_eq!(take_credentials(&mut state).unwrap_err(), OAuthError::NoCredentials);
    assert!(state.twitter_token_pair.is_none());
}

#[test]
fn token_pair_clone_keeps_both_parts() {
    let source = pair("t", "s");
    let copy = source.clone();
    assert_eq!(copy.token, "t");
    assert_eq!(copy.secret, "s");
}
