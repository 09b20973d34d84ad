use vstd::prelude::*;

verus! {

/// Every failure the core can report, one variant per cause.
#[derive(Debug)]
pub enum Error {
    /// The request could not be carried out: network failure or timeout.
    Transport { msg: String },
    /// The server answered with a status outside `200..=299`.
    RequestFailed { status: u16, body: String },
    /// A successful response carried a body of unexpected shape.
    Decode { msg: String },
    /// A token reply announced a negative lifetime.
    InvalidTokenLifetime { expires_in: i32 },
    /// The authorization flow ended without receiving a code.
    AuthorizationIncomplete,
    /// A callback carried a `state` other than the one issued.
    StateMismatch,
    /// The lock guarding the shared authorization state was unusable.
    SynchronizationFault,
    /// The local callback listener could not be started.
    ListenerBindFailure { msg: String },
    /// The consent URL could not be built from the configuration.
    InvalidUrl { cause: url::ParseError },
    /// The consent page could not be opened in a browser.
    BrowserUnavailable { msg: String },
    /// The configuration could not be loaded.
    Config { msg: String },
    /// Any other failure, described in words.
    Message { msg: String },
}

impl Error {
    /// An error described only by the given text.
    pub fn new(msg: &str) -> (r: Error)
        ensures
            r matches Error::Message { msg: m } && m@ == msg@,
    {
        Error::Message { msg: msg.to_owned() }
    }
}

} // verus!
