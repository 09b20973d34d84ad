use vstd::prelude::*;

use crate::api::{
    authorized_get, homecoachs_data_request, json_get, refresh_form, refresh_request, stations_data_request,
    token_post, HOMECOACHS_URL, STATIONS_URL,
};
use crate::config::ConnectConfig;
use crate::error::Error;
use crate::http::{HttpRequest, RequestView};
use crate::token::AccessToken;

verus! {

/// Sleep increments between two poll cycles.
pub const POLL_INTERVAL_TICKS: u32 = 60;

/// Length of one sleep increment; cancellation is noticed within one.
pub const TICK_MS: u64 = 1000;

/// Timeout put on every request of the loop.
pub const REQUEST_TIMEOUT_MS: u64 = 1000;

/// Where the poll loop stands.
#[derive(Clone, Copy, Debug, PartialEq, Eq, Structural)]
pub enum Phase {
    /// Waiting for the one authorization of the run.
    Authorizing,
    /// Waiting for the refreshed token.
    Refreshing,
    /// Waiting for the station data.
    FetchingStations,
    /// Waiting for the home-coach data.
    FetchingHomeCoach,
    /// Sleeping between two cycles, one increment at a time.
    Sleeping,
    /// Cancelled; nothing more happens.
    Stopped,
    /// Ended by an authorization or refresh failure.
    Failed,
}

/// What the driver reports back after carrying out an action.
#[derive(Debug)]
pub enum Event {
    /// The authorization flow ended.
    Authorized(Result<AccessToken, Error>),
    /// The refresh request ended.
    Refreshed(Result<AccessToken, Error>),
    /// The station fetch ended; on success its data has been presented.
    StationsFetched(Result<(), Error>),
    /// The home-coach fetch ended; on success its data has been presented.
    HomeCoachFetched(Result<(), Error>),
    /// One sleep increment passed; `cancelled` tells whether the
    /// cancellation signal was raised.
    Slept { cancelled: bool },
}

/// What the driver is to do next.
#[derive(Debug)]
pub enum Action {
    /// Send the refresh request.
    Refresh,
    /// Send the station-data request.
    FetchStations,
    /// Send the home-coach-data request.
    FetchHomeCoach,
    /// Sleep one increment of `TICK_MS`, then report whether cancellation
    /// was signalled.
    Sleep,
    /// Stop cleanly.
    Stop,
    /// Stop with this error.
    Fail(Error),
}

/// The poll loop's own state: the current token and the sleep countdown.
#[derive(Debug)]
pub struct PollLoop {
    pub phase: Phase,
    pub token: Option<AccessToken>,
    pub ticks_left: u32,
    pub ticks_per_cycle: u32,
}

impl PollLoop {
    /// The countdown fits the interval, every phase after authorization
    /// holds a token, and a sleeping loop has increments left.
    pub open spec fn wf(&self) -> bool {
        &&& 0 < self.ticks_per_cycle
        &&& self.ticks_left <= self.ticks_per_cycle
        &&& (self.phase is Refreshing || self.phase is FetchingStations || self.phase is FetchingHomeCoach
            || self.phase is Sleeping) ==> self.token is Some
        &&& self.phase is Sleeping ==> self.ticks_left > 0
    }

    /// Whether `e` is the report the loop waits for in its phase.
    pub open spec fn accepts_spec(&self, e: Event) -> bool {
        match self.phase {
            Phase::Authorizing => e is Authorized,
            Phase::Refreshing => e is Refreshed,
            Phase::FetchingStations => e is StationsFetched,
            Phase::FetchingHomeCoach => e is HomeCoachFetched,
            Phase::Sleeping => e is Slept,
            Phase::Stopped | Phase::Failed => false,
        }
    }
}

/// The first step of a cycle with `token` at instant `now`: refresh it if it
/// has expired, else fetch.
pub open spec fn begin_cycle(s: PollLoop, token: AccessToken, now: u64) -> (PollLoop, Action) {
    if token.expired_at(now) {
        (PollLoop { phase: Phase::Refreshing, token: Some(token), ..s }, Action::Refresh)
    } else {
        (PollLoop { phase: Phase::FetchingStations, token: Some(token), ..s }, Action::FetchStations)
    }
}

/// The loop after it in state `s` receives `e` at instant `now`, and what it
/// asks for next.
pub open spec fn next(s: PollLoop, e: Event, now: u64) -> (PollLoop, Action) {
    match e {
        Event::Authorized(Ok(t)) => begin_cycle(s, t, now),
        Event::Authorized(Err(err)) => (PollLoop { phase: Phase::Failed, ..s }, Action::Fail(err)),
        Event::Refreshed(Ok(t)) => (
            PollLoop { phase: Phase::FetchingStations, token: Some(t), ..s },
            Action::FetchStations,
        ),
        Event::Refreshed(Err(err)) => (PollLoop { phase: Phase::Failed, ..s }, Action::Fail(err)),
        Event::StationsFetched(_) => (PollLoop { phase: Phase::FetchingHomeCoach, ..s }, Action::FetchHomeCoach),
        Event::HomeCoachFetched(_) => (
            PollLoop { phase: Phase::Sleeping, ticks_left: s.ticks_per_cycle, ..s },
            Action::Sleep,
        ),
        Event::Slept { cancelled } => {
            if cancelled {
                (PollLoop { phase: Phase::Stopped, ..s }, Action::Stop)
            } else if s.ticks_left > 1 {
                (PollLoop { ticks_left: (s.ticks_left - 1) as u32, ..s }, Action::Sleep)
            } else {
                begin_cycle(s, s.token.unwrap(), now)
            }
        },
    }
}

/// The request the loop waits on in state `s`, as text.
pub open spec fn pending_request_view(s: PollLoop, cfg: ConnectConfig, timeout_ms: Option<u64>) -> Option<RequestView> {
    match (s.phase, s.token) {
        (Phase::Refreshing, Some(t)) => Some(token_post(refresh_form(cfg, t), timeout_ms)),
        (Phase::FetchingStations, Some(t)) => Some(authorized_get(STATIONS_URL@, t, timeout_ms)),
        (Phase::FetchingHomeCoach, Some(t)) => Some(json_get(HOMECOACHS_URL@, t, timeout_ms)),
        _ => None,
    }
}

impl PollLoop {
    /// A loop about to authorize, that sleeps `ticks_per_cycle` increments
    /// between cycles.
    pub fn new(ticks_per_cycle: u32) -> (r: PollLoop)
        requires
            ticks_per_cycle > 0,
        ensures
            r.wf(),
            r.phase == Phase::Authorizing,
            r.token is None,
            r.ticks_per_cycle == ticks_per_cycle,
    {
        PollLoop { phase: Phase::Authorizing, token: None, ticks_left: 0, ticks_per_cycle }
    }

    /// Whether `e` is the report the loop waits for in its phase.
    pub fn accepts(&self, e: &Event) -> (r: bool)
        ensures
            r == self.accepts_spec(*e),
    {
        match self.phase {
            Phase::Authorizing => matches!(e, Event::Authorized(_)),
            Phase::Refreshing => matches!(e, Event::Refreshed(_)),
            Phase::FetchingStations => matches!(e, Event::StationsFetched(_)),
            Phase::FetchingHomeCoach => matches!(e, Event::HomeCoachFetched(_)),
            Phase::Sleeping => matches!(e, Event::Slept { .. }),
            Phase::Stopped | Phase::Failed => false,
        }
    }

    /// Takes in the report `e`, received at instant `now`, and tells what to
    /// do next.
    pub fn step(&mut self, e: Event, now: u64) -> (r: Action)
        requires
            old(self).wf(),
            old(self).accepts_spec(e),
        ensures
            final(self).wf(),
            (*final(self), r) == next(*old(self), e, now),
    {
        match e {
            Event::Authorized(Ok(t)) => self.begin_cycle(t, now),
            Event::Authorized(Err(err)) => {
                self.phase = Phase::Failed;
                Action::Fail(err)
            },
            Event::Refreshed(Ok(t)) => {
                self.phase = Phase::FetchingStations;
                self.token = Some(t);
                Action::FetchStations
            },
            Event::Refreshed(Err(err)) => {
                self.phase = Phase::Failed;
                Action::Fail(err)
            },
            Event::StationsFetched(_) => {
                self.phase = Phase::FetchingHomeCoach;
                Action::FetchHomeCoach
            },
            Event::HomeCoachFetched(_) => {
                self.phase = Phase::Sleeping;
                self.ticks_left = self.ticks_per_cycle;
                Action::Sleep
            },
            Event::Slept { cancelled } => {
                if cancelled {
                    self.phase = Phase::Stopped;
                    Action::Stop
                } else if self.ticks_left > 1 {
                    self.ticks_left = self.ticks_left - 1;
                    Action::Sleep
                } else {
                    let t = self.token.take().unwrap();
                    self.begin_cycle(t, now)
                }
            },
        }
    }

    fn begin_cycle(&mut self, token: AccessToken, now: u64) -> (r: Action)
        requires
            0 < old(self).ticks_per_cycle,
            old(self).ticks_left <= old(self).ticks_per_cycle,
        ensures
            final(self).wf(),
            (*final(self), r) == begin_cycle(*old(self), token, now),
    {
        if token.is_expired(now) {
            self.phase = Phase::Refreshing;
            self.token = Some(token);
            Action::Refresh
        } else {
            self.phase = Phase::FetchingStations;
            self.token = Some(token);
            Action::FetchStations
        }
    }

    /// The request the loop waits on, built with the current token: the
    /// refresh request, or one of the two data requests; `None` in the other
    /// phases.
    pub fn pending_request(&self, cfg: &ConnectConfig, timeout_ms: Option<u64>) -> (r: Option<HttpRequest>)
        ensures
            r is Some <==> pending_request_view(*self, *cfg, timeout_ms) is Some,
            r matches Some(q) ==> pending_request_view(*self, *cfg, timeout_ms) == Some(q@),
    {
        match (self.phase, &self.token) {
            (Phase::Refreshing, Some(t)) => Some(refresh_request(cfg, t, timeout_ms)),
            (Phase::FetchingStations, Some(t)) => Some(stations_data_request(t, timeout_ms)),
            (Phase::FetchingHomeCoach, Some(t)) => Some(homecoachs_data_request(t, timeout_ms)),
            _ => None,
        }
    }
}

/// Whether `e` ends what comes before a cycle in state `s`: the
/// authorization succeeding, or the last sleep increment passing without
/// cancellation.
pub open spec fn starts_cycle(s: PollLoop, e: Event) -> bool {
    ||| s.phase is Authorizing && e matches Event::Authorized(Ok(_))
    ||| s.phase is Sleeping && s.ticks_left <= 1 && e == (Event::Slept { cancelled: false })
}

/// The token a cycle started by `e` in state `s` begins with.
pub open spec fn cycle_token(s: PollLoop, e: Event) -> AccessToken {
    match e {
        Event::Authorized(Ok(t)) => t,
        _ => s.token.unwrap(),
    }
}

/// At the start of a cycle, a token whose expiry has passed is refreshed
/// once, and whatever token the refresh brings, the station fetch follows
/// with it; a token still valid leads straight to the station fetch.
pub proof fn lemma_expired_token_refreshed_once(s: PollLoop, e: Event, now: u64, fresh: AccessToken, later: u64)
    requires
        s.wf(),
        starts_cycle(s, e),
    ensures
        ({
            let (s1, a1) = next(s, e, now);
            let t = cycle_token(s, e);
            &&& s1.token == Some(t)
            &&& t.expired_at(now) ==> {
                &&& s1.phase == Phase::Refreshing
                &&& a1 == Action::Refresh
                &&& s1.accepts_spec(Event::Refreshed(Ok(fresh)))
                &&& next(s1, Event::Refreshed(Ok(fresh)), later) == (
                    PollLoop { phase: Phase::FetchingStations, token: Some(fresh), ..s1 },
                    Action::FetchStations,
                )
            }
            &&& !t.expired_at(now) ==> s1.phase == Phase::FetchingStations && a1 == Action::FetchStations
        }),
{
}

/// A failed fetch ends no cycle: whatever the two fetches return, the
/// home-coach fetch follows the station fetch, and the loop then sleeps a
/// full interval with the same token.
pub proof fn lemma_fetch_failures_keep_polling(
    s: PollLoop,
    stations: Result<(), Error>,
    homecoach: Result<(), Error>,
    now1: u64,
    now2: u64,
)
    requires
        s.wf(),
        s.phase == Phase::FetchingStations,
    ensures
        ({
            let (s1, a1) = next(s, Event::StationsFetched(stations), now1);
            let (s2, a2) = next(s1, Event::HomeCoachFetched(homecoach), now2);
            &&& a1 == Action::FetchHomeCoach
            &&& s1.accepts_spec(Event::HomeCoachFetched(homecoach))
            &&& a2 == Action::Sleep
            &&& s2.phase == Phase::Sleeping
            &&& s2.ticks_left == s.ticks_per_cycle
            &&& s2.token == s.token
        }),
{
}

/// A cancellation seen after any sleep increment stops the loop at once,
/// without another request; and no other report ever stops it.
pub proof fn lemma_cancellation_stops(s: PollLoop, e: Event, now: u64)
    requires
        s.wf(),
        s.accepts_spec(e),
    ensures
        s.phase is Sleeping && e == (Event::Slept { cancelled: true }) ==> next(s, e, now) == (
            PollLoop { phase: Phase::Stopped, ..s },
            Action::Stop,
        ),
        next(s, e, now).0.phase is Stopped ==> e == (Event::Slept { cancelled: true }),
        next(s, e, now).1 is Stop ==> e == (Event::Slept { cancelled: true }),
{
}

} // verus!
