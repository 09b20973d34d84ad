use netatmo_connect::{
    convert_token, AccessToken, AccessTokenJSON, Action, ConnectConfig, Error, Event, Phase, PollLoop,
    POLL_INTERVAL_TICKS, TICK_MS,
};

fn token(access: &str, refresh: &str, expires_in: i32, now: u64) -> AccessToken {
    convert_token(
        AccessTokenJSON { access_token: access.to_string(), refresh_token: refresh.to_string(), expires_in },
        now,
    )
    .unwrap()
}

fn config() -> ConnectConfig {
    ConnectConfig {
        client_id: "cid".to_string(),
        client_secret: "secret".to_string(),
        username: "user".to_string(),
        password: "pw".to_string(),
        arbitrary_but_unique_string: "xyz".to_string(),
    }
}

fn header<'a>(req: &'a netatmo_connect::HttpRequest, name: &str) -> Option<&'a str> {
    req.headers.iter().find(|(n, _)| n == name).map(|(_, v)| v.as_str())
}

fn form<'a>(req: &'a netatmo_connect::HttpRequest, name: &str) -> Option<&'a str> {
    req.form.iter().find(|(n, _)| n == name).map(|(_, v)| v.as_str())
}

fn sleeping_loop(ticks: u32, expires_in: i32) -> PollLoop {
    let mut p = PollLoop::new(ticks);
    p.step(Event::Authorized(Ok(token("A", "R", expires_in, 0))), 0);
    p.step(Event::StationsFetched(Ok(())), 0);
    assert!(matches!(p.step(Event::HomeCoachFetched(Ok(())), 0), Action::Sleep));
    p
}

#[test]
fn fresh_token_is_not_refreshed() {
    let mut p = PollLoop::new(3);
    assert_eq!(p.phase, Phase::Authorizing);
    let a = p.step(Event::Authorized(Ok(token("A", "R", 100, 0))), 10);
    assert!(matches!(a, Action::FetchStations));
    assert_eq!(p.phase, Phase::FetchingStations);
}

#[test]
fn expired_token_is_refreshed_once_before_fetch() {
    let mut p = PollLoop::new(3);
    let a = p.step(Event::Authorized(Ok(token("A", "R", 1, 0))), 5_000);
    assert!(matches!(a, Action::Refresh));
    assert_eq!(p.phase, Phase::Refreshing);
    let already_expired = token("B", "S", 0, 0);
    let a = p.step(Event::Refreshed(Ok(already_expired)), 6_000);
    assert!(matches!(a, Action::FetchStations));
    assert_eq!(p.token.as_ref().unwrap().access_token, "B");
}

#[test]
fn token_expiring_exactly_now_counts_as_expired() {
    let mut p = PollLoop::new(1);
    let a = p.step(Event::Authorized(Ok(token("A", "R", 2, 0))), 2_000);
    assert!(matches!(a, Action::Refresh));
}

#[test]
fn refresh_failure_is_fatal() {
    let mut p = PollLoop::new(1);
    p.step(Event::Authorized(Ok(token("A", "R", 0, 0))), 0);
    let a = p.step(Event::Refreshed(Err(Error::RequestFailed { status: 400, body: "bad".to_string() })), 0);
    assert!(matches!(a, Action::Fail(Error::RequestFailed { status: 400, .. })));
    assert_eq!(p.phase, Phase::Failed);
    assert!(!p.accepts(&Event::Slept { cancelled: false }));
}

#[test]
fn authorization_failure_is_fatal() {
    let mut p = PollLoop::new(1);
    let a = p.step(Event::Authorized(Err(Error::AuthorizationIncomplete)), 0);
    assert!(matches!(a, Action::Fail(Error::AuthorizationIncomplete)));
    assert_eq!(p.phase, Phase::Failed);
}

#[test]
fn station_failure_still_fetches_homecoach_then_sleeps() {
    let mut p = PollLoop::new(2);
    p.step(Event::Authorized(Ok(token("A", "R", 100, 0))), 0);
    let a = p.step(Event::StationsFetched(Err(Error::Transport { msg: "timeout".to_string() })), 0);
    assert!(matches!(a, Action::FetchHomeCoach));
    let a = p.step(Event::HomeCoachFetched(Ok(())), 0);
    assert!(matches!(a, Action::Sleep));
    assert_eq!(p.phase, Phase::Sleeping);
    assert_eq!(p.ticks_left, 2);
}

#[test]
fn homecoach_failure_still_sleeps() {
    let mut p = PollLoop::new(2);
    p.step(Event::Authorized(Ok(token("A", "R", 100, 0))), 0);
    assert!(matches!(p.step(Event::StationsFetched(Ok(())), 0), Action::FetchHomeCoach));
    let a = p.step(Event::HomeCoachFetched(Err(Error::Decode { msg: "shape".to_string() })), 0);
    assert!(matches!(a, Action::Sleep));
    assert_eq!(p.phase, Phase::Sleeping);
}

#[test]
fn cancellation_during_sleep_stops() {
    let mut p = sleeping_loop(60, 100);
    assert!(matches!(p.step(Event::Slept { cancelled: false }, 1_000), Action::Sleep));
    let a = p.step(Event::Slept { cancelled: true }, 2_000);
    assert!(matches!(a, Action::Stop));
    assert_eq!(p.phase, Phase::Stopped);
    assert!(p.pending_request(&config(), None).is_none());
}

#[test]
fn cancellation_on_last_increment_starts_no_cycle() {
    let mut p = sleeping_loop(1, 100);
    let a = p.step(Event::Slept { cancelled: true }, 1_000);
    assert!(matches!(a, Action::Stop));
}

#[test]
fn accepts_only_the_awaited_report() {
    let p = PollLoop::new(1);
    assert!(p.accepts(&Event::Authorized(Err(Error::AuthorizationIncomplete))));
    assert!(!p.accepts(&Event::Slept { cancelled: true }));
    assert!(!p.accepts(&Event::StationsFetched(Ok(()))));
}

#[test]
fn end_to_end_one_second_token() {
    let cfg = config();
    let mut p = PollLoop::new(POLL_INTERVAL_TICKS);
    let now: u64 = 0;
    let a = p.step(Event::Authorized(Ok(token("A", "R", 1, now))), now);
    assert!(matches!(a, Action::FetchStations));
    let req = p.pending_request(&cfg, Some(1000)).unwrap();
    assert_eq!(header(&req, "Authorization"), Some("Bearer A"));

    assert!(matches!(p.step(Event::StationsFetched(Ok(())), 100), Action::FetchHomeCoach));
    let req = p.pending_request(&cfg, Some(1000)).unwrap();
    assert_eq!(header(&req, "Authorization"), Some("Bearer A"));
    assert!(matches!(p.step(Event::HomeCoachFetched(Ok(())), 200), Action::Sleep));

    let mut refreshes = 0;
    let mut now = 200;
    let mut last = Action::Sleep;
    for _ in 0..POLL_INTERVAL_TICKS {
        now += TICK_MS;
        last = p.step(Event::Slept { cancelled: false }, now);
        if matches!(last, Action::Refresh) {
            refreshes += 1;
        }
    }
    assert_eq!(refreshes, 1);
    assert!(matches!(last, Action::Refresh));
    let req = p.pending_request(&cfg, Some(1000)).unwrap();
    assert_eq!(form(&req, "grant_type"), Some("refresh_token"));
    assert_eq!(form(&req, "refresh_token"), Some("R"));

    let a = p.step(Event::Refreshed(Ok(token("A2", "R2", 10800, now))), now);
    assert!(matches!(a, Action::FetchStations));
    let req = p.pending_request(&cfg, Some(1000)).unwrap();
    assert_eq!(header(&req, "Authorization"), Some("Bearer A2"));
}

#[test]
fn valid_token_survives_many_cycles_without_refresh() {
    let mut p = sleeping_loop(2, 3600);
    let mut now = 0;
    for _ in 0..5 {
        now += TICK_MS;
        assert!(matches!(p.step(Event::Slept { cancelled: false }, now), Action::Sleep));
        now += TICK_MS;
        assert!(matches!(p.step(Event::Slept { cancelled: false }, now), Action::FetchStations));
        assert!(matches!(p.step(Event::StationsFetched(Ok(())), now), Action::FetchHomeCoach));
        assert!(matches!(p.step(Event::HomeCoachFetched(Ok(())), now), Action::Sleep));
    }
}
