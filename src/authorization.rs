use vstd::prelude::*;

use crate::api::{AUTHORIZE_URL, REDIRECT_URI, SCOPES};
use crate::config::ConnectConfig;
use crate::error::Error;
use crate::http::{pair, pairs_view, PairsView};

verus! {

/// The address the callback listener binds to; it matches `REDIRECT_URI`.
pub const LISTENER_HOST: &'static str = "127.0.0.1";

/// The port the callback listener binds to; it matches `REDIRECT_URI`.
pub const LISTENER_PORT: u16 = 8000;

/// How long the waiter pauses between two looks at the shared state.
pub const WAITER_POLL_MS: u64 = 200;

#[verifier::external_type_specification]
#[verifier::external_body]
pub struct ExParseError(url::ParseError);

/// The text of `base` parsed as a URL, with `params` appended to its query,
/// form-encoded; `None` when `base` does not parse.
pub uninterp spec fn url_with_query(base: Seq<char>, params: PairsView) -> Option<Seq<char>>;

/// Whether `s` holds no `#`, so that a URL parsed from it has no fragment.
pub open spec fn fragment_free(s: Seq<char>) -> bool {
    forall|i: int| 0 <= i < s.len() ==> s[i] != '#'
}

/// Relies on `url::Url::parse_with_params`, which parses `base` and, when
/// that succeeds, appends the pairs to the query. Its outcome depends on the
/// texts alone. It can panic only when re-attaching a fragment to an overlong
/// URL, so `base` is kept free of fragments.
#[verifier::external_body]
fn parse_with_params(base: &str, params: &Vec<(String, String)>) -> (r: Result<String, url::ParseError>)
    requires
        fragment_free(base@),
    ensures
        r is Ok <==> url_with_query(base@, pairs_view(params@)) is Some,
        r matches Ok(u) ==> url_with_query(base@, pairs_view(params@)) == Some(u@),
{
    url::Url::parse_with_params(base, params.iter()).map(String::from)
}

impl From<url::ParseError> for Error {
    fn from(e: url::ParseError) -> (r: Error)
        ensures
            r == (Error::InvalidUrl { cause: e }),
    {
        Error::InvalidUrl { cause: e }
    }
}

impl vstd::std_specs::convert::FromSpecImpl<url::ParseError> for Error {
    open spec fn obeys_from_spec() -> bool {
        true
    }

    open spec fn from_spec(e: url::ParseError) -> Error {
        Error::InvalidUrl { cause: e }
    }
}

/// The query of the consent page: who asks, where to come back, for what,
/// and the anti-forgery `state`.
pub open spec fn consent_params(cfg: ConnectConfig) -> PairsView {
    seq![
        ("client_id"@, cfg.client_id@),
        ("redirect_uri"@, REDIRECT_URI@),
        ("scope"@, SCOPES@),
        ("state"@, cfg.arbitrary_but_unique_string@),
    ]
}

/// The URL of the provider's consent page for this client.
///
/// Fails with `InvalidUrl` exactly when the URL cannot be built.
pub fn consent_url(cfg: &ConnectConfig) -> (r: Result<String, Error>)
    ensures
        r is Ok <==> url_with_query(AUTHORIZE_URL@, consent_params(*cfg)) is Some,
        r matches Ok(u) ==> url_with_query(AUTHORIZE_URL@, consent_params(*cfg)) == Some(u@),
        r matches Err(e) ==> e is InvalidUrl,
{
    let params = vec![
        pair("client_id", cfg.client_id.as_str()),
        pair("redirect_uri", REDIRECT_URI),
        pair("scope", SCOPES),
        pair("state", cfg.arbitrary_but_unique_string.as_str()),
    ];
    assert(pairs_view(params@) =~= consent_params(*cfg));
    proof {
        reveal_strlit("https://api.netatmo.com/oauth2/authorize");
    }
    assert(fragment_free(AUTHORIZE_URL@));
    match parse_with_params(AUTHORIZE_URL, &params) {
        Ok(u) => Ok(u),
        Err(e) => Err(Error::from(e)),
    }
}

/// How the listener answers one callback request.
#[derive(Clone, Copy, Debug, PartialEq, Eq, Structural)]
pub enum CallbackReply {
    /// The `state` matched and the code was recorded: `200 OK`.
    Accepted,
    /// The `state` did not match and nothing was recorded: `401 Unauthorized`.
    Unauthorized,
}

impl CallbackReply {
    /// The HTTP status code of the reply.
    pub open spec fn status_spec(self) -> u16 {
        match self {
            CallbackReply::Accepted => 200,
            CallbackReply::Unauthorized => 401,
        }
    }

    /// The HTTP status code of the reply.
    pub fn status(&self) -> (r: u16)
        ensures
            r == self.status_spec(),
    {
        match self {
            CallbackReply::Accepted => 200,
            CallbackReply::Unauthorized => 401,
        }
    }
}

/// The state shared, during the one authorization flow, between the
/// callback handler, the waiter and the flow driver. `H` is the handle
/// that stops the listener.
#[derive(Debug)]
pub struct AuthorizationState<H> {
    pub expected_state: String,
    pub received_code: String,
    pub listener: Option<H>,
}

/// The code recorded, and the reply sent, after a callback carrying `state`
/// and `code` reaches a flow that expects `expected` and holds `recorded`.
pub open spec fn callback_outcome(
    expected: Seq<char>,
    recorded: Seq<char>,
    state: Seq<char>,
    code: Seq<char>,
) -> (Seq<char>, CallbackReply) {
    if state == expected {
        (code, CallbackReply::Accepted)
    } else {
        (recorded, CallbackReply::Unauthorized)
    }
}

/// Of two callbacks that both carry the expected `state`, the later one's
/// code is the one that stays, whatever was recorded before; and a callback
/// with any other `state` changes nothing.
pub proof fn lemma_last_accepted_callback_wins(
    expected: Seq<char>,
    recorded: Seq<char>,
    first_code: Seq<char>,
    second_code: Seq<char>,
    forged_state: Seq<char>,
    forged_code: Seq<char>,
)
    requires
        forged_state != expected,
    ensures
        callback_outcome(expected, callback_outcome(expected, recorded, expected, first_code).0, expected, second_code)
            == (second_code, CallbackReply::Accepted),
        callback_outcome(expected, recorded, forged_state, forged_code) == (recorded, CallbackReply::Unauthorized),
        callback_outcome(expected, recorded, forged_state, forged_code).1.status_spec() == 401,
        callback_outcome(expected, recorded, expected, first_code).1.status_spec() == 200,
{
}

impl<H> AuthorizationState<H> {
    /// Whether a code has been recorded.
    pub open spec fn has_code(&self) -> bool {
        self.received_code@.len() > 0
    }

    /// A fresh flow that expects `expected_state`, with no code and no
    /// listener yet.
    pub fn new(expected_state: String) -> (r: Self)
        ensures
            r.expected_state == expected_state,
            r.received_code@ == Seq::<char>::empty(),
            r.listener is None,
    {
        AuthorizationState { expected_state, received_code: String::new(), listener: None }
    }

    /// Answers one callback: records `code` when `state` is the expected one,
    /// and otherwise leaves the state as it was.
    pub fn handle_callback(&mut self, state: &str, code: &str) -> (r: CallbackReply)
        ensures
            final(self).expected_state == old(self).expected_state,
            final(self).listener == old(self).listener,
            (final(self).received_code@, r) == callback_outcome(
                old(self).expected_state@,
                old(self).received_code@,
                state@,
                code@,
            ),
    {
        let received = state.to_owned();
        if self.expected_state == received {
            self.received_code = code.to_owned();
            CallbackReply::Accepted
        } else {
            CallbackReply::Unauthorized
        }
    }

    /// Records the handle that stops the listener; done before the listener
    /// serves, so that a waiter who sees a code also finds the handle.
    pub fn register_listener(&mut self, handle: H)
        ensures
            final(self).expected_state == old(self).expected_state,
            final(self).received_code == old(self).received_code,
            final(self).listener == Some(handle),
    {
        self.listener = Some(handle);
    }

    /// The waiter's decision: the listener to stop once a code has been
    /// recorded and the listener is known; `None` to keep waiting.
    pub fn listener_to_stop(&self) -> (r: Option<&H>)
        ensures
            r is Some <==> self.has_code() && self.listener is Some,
            r matches Some(h) ==> self.listener == Some(*h),
    {
        if self.received_code.as_str().is_empty() {
            None
        } else {
            self.listener.as_ref()
        }
    }

    /// The outcome of the flow once the listener has stopped: the recorded
    /// code, or `AuthorizationIncomplete` when none was recorded.
    pub fn received_code(&self) -> (r: Result<String, Error>)
        ensures
            r is Ok <==> self.has_code(),
            r matches Ok(c) ==> c == self.received_code,
            r matches Err(e) ==> e is AuthorizationIncomplete,
    {
        if self.received_code.as_str().is_empty() {
            Err(Error::AuthorizationIncomplete)
        } else {
            Ok(self.received_code.clone())
        }
    }
}

} // verus!
