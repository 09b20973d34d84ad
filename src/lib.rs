//! Authentication and polling core of a client for a weather-station cloud API.
//!
//! The library holds the decisions: how token replies become tokens, which
//! requests are sent and how their responses are classified, how the local
//! authorization callback is answered, and what the poll loop does next.
//! Sending requests, serving the callback listener, sleeping and printing
//! are left to the program that drives it.

mod api;
mod authorization;
mod config;
mod error;
mod http;
mod poll;
mod token;

pub use api::{
    authorized_get, bearer, code_exchange_request, code_form, homecoachs_data_request, json_get,
    password_form, password_grant_request, refresh_form, refresh_request, stations_data_request, token_post,
    AUTHORIZE_URL, HOMECOACHS_URL, REDIRECT_URI, SCOPES, STATIONS_URL, TOKEN_URL,
};
pub use authorization::{
    callback_outcome, consent_params, consent_url, lemma_last_accepted_callback_wins, url_with_query,
    AuthorizationState, CallbackReply, LISTENER_HOST, LISTENER_PORT, WAITER_POLL_MS,
};
pub use config::ConnectConfig;
pub use error::Error;
pub use http::{
    check_response, is_success, pair, pairs_view, HttpRequest, HttpResponse, Method, PairsView, RequestView,
};
pub use poll::{
    begin_cycle, cycle_token, lemma_cancellation_stops, lemma_expired_token_refreshed_once,
    lemma_fetch_failures_keep_polling, next, pending_request_view, starts_cycle, Action, Event, Phase, PollLoop,
    POLL_INTERVAL_TICKS, REQUEST_TIMEOUT_MS, TICK_MS,
};
pub use token::{convert_token, expiry_fits, expiry_instant, AccessToken, AccessTokenJSON, MILLIS_PER_SECOND};
