use vstd::prelude::*;
use crate::text::same_text;

verus! {

/// The page of the platform on which the operator approves a request token.
pub const AUTHENTICATE_URL: &'static str =
    "https://api.twitter.com/oauth/authenticate?oauth_token=";

/// An OAuth 1.0a token with its secret: first the temporary request pair,
/// later the long-lived access pair.
#[derive(Debug)]
pub struct TokenPair {
    pub token: String,
    pub secret: String,
}

pub struct TokenPairView {
    pub token: Seq<char>,
    pub secret: Seq<char>,
}

impl View for TokenPair {
    type V = TokenPairView;

    open spec fn view(&self) -> TokenPairView {
        TokenPairView { token: self.token@, secret: self.secret@ }
    }
}

impl Clone for TokenPair {
    fn clone(&self) -> (copy: Self)
        ensures
            copy == *self,
    {
        TokenPair { token: self.token.clone(), secret: self.secret.clone() }
    }
}

/// What the slot of the token pair holds, as characters.
pub open spec fn optional_pair(pair: Option<TokenPair>) -> Option<TokenPairView> {
    match pair {
        Some(inner) => Some(inner@),
        None => None,
    }
}

/// The two parameters the platform adds to the callback address.
#[derive(Debug)]
pub struct CallbackQuery {
    pub oauth_token: String,
    pub oauth_verifier: String,
}

pub struct CallbackQueryView {
    pub oauth_token: Seq<char>,
    pub oauth_verifier: Seq<char>,
}

impl View for CallbackQuery {
    type V = CallbackQueryView;

    open spec fn view(&self) -> CallbackQueryView {
        CallbackQueryView {
            oauth_token: self.oauth_token@,
            oauth_verifier: self.oauth_verifier@,
        }
    }
}

/// What is sent to the platform to turn an approved request token into an
/// access pair.
#[derive(Debug)]
pub struct Exchange {
    pub token: String,
    pub secret: String,
    pub verifier: String,
}

pub struct ExchangeView {
    pub token: Seq<char>,
    pub secret: Seq<char>,
    pub verifier: Seq<char>,
}

impl View for Exchange {
    type V = ExchangeView;

    open spec fn view(&self) -> ExchangeView {
        ExchangeView { token: self.token@, secret: self.secret@, verifier: self.verifier@ }
    }
}

/// Why a step of the handshake is refused.
#[derive(Clone, Copy, Debug, PartialEq, Eq, Structural)]
pub enum OAuthError {
    /// The callback came before any request token was issued.
    NoRequestToken,
    /// The callback's token is not the request token that was issued.
    TokenMismatch,
    /// The shutdown signal has not fired yet.
    ShutdownNotSignalled,
    /// The shutdown signal has fired, but the slot holds no pair.
    NoCredentials,
}

/// What the two handlers and the posting loop share: the base address of the
/// callback server, the slot of the one live token pair, and whether the
/// shutdown signal is still to be fired.
#[derive(Debug)]
pub struct SharedState {
    pub tee_url: String,
    pub twitter_token_pair: Option<TokenPair>,
    pub shutdown_armed: bool,
}

pub struct SharedStateView {
    pub tee_url: Seq<char>,
    pub pair: Option<TokenPairView>,
    pub armed: bool,
}

impl View for SharedState {
    type V = SharedStateView;

    open spec fn view(&self) -> SharedStateView {
        SharedStateView {
            tee_url: self.tee_url@,
            pair: optional_pair(self.twitter_token_pair),
            armed: self.shutdown_armed,
        }
    }
}

/// The state a process starts in: no pair, the signal armed.
pub open spec fn initial_state(tee_url: Seq<char>) -> SharedStateView {
    SharedStateView { tee_url, pair: None, armed: true }
}

impl SharedState {
    pub fn new(tee_url: String) -> (state: SharedState)
        ensures
            state@ == initial_state(tee_url@),
    {
        SharedState { tee_url, twitter_token_pair: None, shutdown_armed: true }
    }

    /// The address the platform sends the browser back to: the base address
    /// followed by `/callback`.
    pub open spec fn callback_url_spec(self) -> Seq<char> {
        self.tee_url@ + "/callback"@
    }

    pub fn callback_url(&self) -> (url: String)
        ensures
            url@ == self.callback_url_spec(),
    {
        self.tee_url.clone().concat("/callback")
    }
}

/// What changes the shared state.
pub enum Transition {
    /// `/login` stored the request pair the platform issued.
    Login(TokenPairView),
    /// `/callback` stored the access pair the platform gave for the verifier.
    Authorize(TokenPairView),
    /// `/callback` ended: the shutdown signal is fired if it is still armed.
    Finish,
    /// The posting loop asks for the credentials.
    Take,
}

/// Whether the credentials may be handed to the posting loop: only once the
/// shutdown signal has fired, and only while the slot holds a pair.
pub open spec fn take_spec(state: SharedStateView) -> Result<TokenPairView, OAuthError> {
    if state.armed {
        Err(OAuthError::ShutdownNotSignalled)
    } else {
        match state.pair {
            Some(pair) => Ok(pair),
            None => Err(OAuthError::NoCredentials),
        }
    }
}

/// The state after a transition. A pair that is stored replaces the one
/// before it; firing disarms the signal for good; taking empties the slot
/// where it is allowed and changes nothing where it is not.
pub open spec fn apply(state: SharedStateView, transition: Transition) -> SharedStateView {
    match transition {
        Transition::Login(pair) => SharedStateView { pair: Some(pair), ..state },
        Transition::Authorize(pair) => SharedStateView { pair: Some(pair), ..state },
        Transition::Finish => SharedStateView { armed: false, ..state },
        Transition::Take => if take_spec(state) is Ok {
            SharedStateView { pair: None, ..state }
        } else {
            state
        },
    }
}

/// Whether a transition fires the shutdown signal in `state`.
pub open spec fn fires(state: SharedStateView, transition: Transition) -> bool {
    transition is Finish && state.armed
}

/// The status of the answer to `/login`: a temporary redirect.
pub const TEMPORARY_REDIRECT: u16 = 307;

/// The status of the answer to `/callback` once the account is logged in.
pub const OK: u16 = 200;

/// The answer to `/login`: a redirect to `location`.
#[derive(Debug)]
pub struct Redirect {
    pub status: u16,
    pub location: String,
}

/// The page the browser is sent to after `/login`: the platform's
/// authorization page for the request token.
pub open spec fn redirect_spec(token: Seq<char>) -> Seq<char> {
    AUTHENTICATE_URL@ + token
}

/// Stores the request pair the platform issued for `/login` and gives the
/// answer: a temporary redirect to the authorization page for the pair's
/// token.
pub fn login(state: &mut SharedState, issued: TokenPair) -> (redirect: Redirect)
    ensures
        final(state)@ == apply(old(state)@, Transition::Login(issued@)),
        redirect.status == TEMPORARY_REDIRECT,
        redirect.location@ == redirect_spec(issued@.token),
{
    let location = String::from_str(AUTHENTICATE_URL).concat(issued.token.as_str());
    state.twitter_token_pair = Some(issued);
    Redirect { status: TEMPORARY_REDIRECT, location }
}

/// What `/callback` is to send on for `query`: the stored request pair with
/// the query's verifier, where the query's token is the stored one.
pub open spec fn callback_spec(state: SharedStateView, query: CallbackQueryView) -> Result<
    ExchangeView,
    OAuthError,
> {
    match state.pair {
        None => Err(OAuthError::NoRequestToken),
        Some(pair) => if query.oauth_token == pair.token {
            Ok(ExchangeView { token: pair.token, secret: pair.secret, verifier: query.oauth_verifier })
        } else {
            Err(OAuthError::TokenMismatch)
        },
    }
}

/// What an outcome of `callback` holds, as characters.
pub open spec fn exchange_view(outcome: Result<Exchange, OAuthError>) -> Result<
    ExchangeView,
    OAuthError,
> {
    match outcome {
        Ok(exchange) => Ok(exchange@),
        Err(error) => Err(error),
    }
}

/// Checks the query of `/callback` against the stored request pair. Only a
/// query that carries the stored token gets an exchange to send; the state is
/// not touched.
pub fn callback(state: &SharedState, query: &CallbackQuery) -> (outcome: Result<
    Exchange,
    OAuthError,
>)
    ensures
        exchange_view(outcome) == callback_spec(state@, query@),
{
    match &state.twitter_token_pair {
        None => Err(OAuthError::NoRequestToken),
        Some(pair) => {
            if same_text(query.oauth_token.as_str(), pair.token.as_str()) {
                Ok(
                    Exchange {
                        token: pair.token.clone(),
                        secret: pair.secret.clone(),
                        verifier: query.oauth_verifier.clone(),
                    },
                )
            } else {
                Err(OAuthError::TokenMismatch)
            }
        },
    }
}

/// Stores the access pair in place of the request pair.
pub fn authorize(state: &mut SharedState, access: TokenPair)
    ensures
        final(state)@ == apply(old(state)@, Transition::Authorize(access@)),
{
    state.twitter_token_pair = Some(access);
}

/// How `/callback` ends: the status and the plain text it answers with, and
/// whether the shutdown signal is to be sent now.
#[derive(Debug)]
pub struct Completion {
    pub status: u16,
    pub message: String,
    pub notify: bool,
}

/// The answer of `/callback` for the account that is now logged in.
pub open spec fn success_message_spec(account: Seq<char>) -> Seq<char> {
    "Succesfully logged into "@ + account
}

/// Ends `/callback` for the account `account`. The signal is to be sent
/// exactly if it was still armed, and is disarmed from here on.
pub fn finish(state: &mut SharedState, account: &str) -> (completion: Completion)
    ensures
        final(state)@ == apply(old(state)@, Transition::Finish),
        completion.notify == fires(old(state)@, Transition::Finish),
        completion.status == OK,
        completion.message@ == success_message_spec(account@),
{
    let notify = state.shutdown_armed;
    state.shutdown_armed = false;
    Completion {
        status: OK,
        message: String::from_str("Succesfully logged into ").concat(account),
        notify,
    }
}

/// What an outcome of `take_credentials` holds, as characters.
pub open spec fn taken_view(outcome: Result<TokenPair, OAuthError>) -> Result<
    TokenPairView,
    OAuthError,
> {
    match outcome {
        Ok(pair) => Ok(pair@),
        Err(error) => Err(error),
    }
}

/// Hands the credentials to the posting loop and empties the slot. Before the
/// shutdown signal has fired, or with an empty slot, nothing is handed out
/// and nothing changes.
pub fn take_credentials(state: &mut SharedState) -> (outcome: Result<TokenPair, OAuthError>)
    ensures
        taken_view(outcome) == take_spec(old(state)@),
        final(state)@ == apply(old(state)@, Transition::Take),
{
    if state.shutdown_armed {
        Err(OAuthError::ShutdownNotSignalled)
    } else {
        match state.twitter_token_pair.take() {
            Some(pair) => Ok(pair),
            None => Err(OAuthError::NoCredentials),
        }
    }
}

/// The state after a run of transitions, taken in their order.
pub open spec fn state_after(state: SharedStateView, trace: Seq<Transition>) -> SharedStateView
    decreases trace.len(),
{
    if trace.len() == 0 {
        state
    } else {
        apply(state_after(state, trace.drop_last()), trace.last())
    }
}

/// How often the shutdown signal fires during a run of transitions.
pub open spec fn signals_sent(state: SharedStateView, trace: Seq<Transition>) -> nat
    decreases trace.len(),
{
    if trace.len() == 0 {
        0
    } else {
        let before = signals_sent(state, trace.drop_last());
        if fires(state_after(state, trace.drop_last()), trace.last()) {
            before + 1
        } else {
            before
        }
    }
}

/// After `/login` has stored the pair the platform issued, `/callback` goes
/// on to the exchange exactly for a query that carries the issued token, and
/// the exchange then holds the issued pair and the query's verifier. Any
/// other token is refused as a mismatch.
pub proof fn lemma_callback_accepts_issued_token_only(
    state: SharedStateView,
    issued: TokenPairView,
    query: CallbackQueryView,
)
    ensures
        callback_spec(apply(state, Transition::Login(issued)), query) is Ok <==> query.oauth_token
            == issued.token,
        query.oauth_token == issued.token ==> callback_spec(
            apply(state, Transition::Login(issued)),
            query,
        ) == Ok::<ExchangeView, OAuthError>(
            ExchangeView {
                token: issued.token,
                secret: issued.secret,
                verifier: query.oauth_verifier,
            },
        ),
        query.oauth_token != issued.token ==> callback_spec(
            apply(state, Transition::Login(issued)),
            query,
        ) == Err::<ExchangeView, OAuthError>(OAuthError::TokenMismatch),
{
}

/// Over any run of transitions the signal fires once if it ends disarmed
/// after starting armed, and never otherwise. Nothing arms it again.
pub proof fn lemma_signal_count(state: SharedStateView, trace: Seq<Transition>)
    ensures
        state_after(state, trace).armed ==> state.armed,
        signals_sent(state, trace) == (if state.armed && !state_after(state, trace).armed {
            1nat
        } else {
            0nat
        }),
    decreases trace.len(),
{
    if trace.len() > 0 {
        lemma_signal_count(state, trace.drop_last());
    }
}

/// In the lifetime of a process, whatever the handlers and the posting loop
/// do and in whatever order, the shutdown signal fires at most once.
pub proof fn lemma_signal_fires_at_most_once(tee_url: Seq<char>, trace: Seq<Transition>)
    ensures
        signals_sent(initial_state(tee_url), trace) <= 1,
{
    lemma_signal_count(initial_state(tee_url), trace);
}

/// The posting loop gets its credentials only after the shutdown signal has
/// fired: where the state reached from the start hands a pair out, the
/// signal was sent on the way.
pub proof fn lemma_credentials_only_after_signal(tee_url: Seq<char>, trace: Seq<Transition>)
    requires
        take_spec(state_after(initial_state(tee_url), trace)) is Ok,
    ensures
        signals_sent(initial_state(tee_url), trace) == 1,
{
    lemma_signal_count(initial_state(tee_url), trace);
}

/// Once `/callback` has stored the access pair and ended, the posting loop is
/// handed exactly that pair, whatever came before.
pub proof fn lemma_finished_handshake_hands_over_access_pair(
    state: SharedStateView,
    access: TokenPairView,
)
    ensures
        take_spec(apply(apply(state, Transition::Authorize(access)), Transition::Finish)) == Ok::<
            TokenPairView,
            OAuthError,
        >(access),
{
}

} // verus!
