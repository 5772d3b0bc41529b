use meteobar::{
    begin, freshness, step, Cache, CacheKey, FetchAction, FetchEvent, FetchState, Freshness,
    Source,
};
use std::path::PathBuf;
use std::time::{Duration, SystemTime};

/// An in-memory stand-in for the cache file: its payload and modification
/// time, and whether writing to it fails.
struct Stored {
    payload: Option<String>,
    modified: Option<SystemTime>,
    age_nanos: Option<u128>,
    read_only: bool,
}

fn test_cache(ttl_nanos: u128) -> Cache {
    let key = CacheKey { location: "auto".to_string(), units: "metric", days: 3, hours: 0 };
    Cache::with_dir(PathBuf::from("/tmp/meteobar-test"), &key, ttl_nanos)
}

fn empty() -> Stored {
    Stored { payload: None, modified: None, age_nanos: None, read_only: false }
}

/// Drives the protocol as the application does, against `stored`; counts the fetches.
fn serve(
    cache: &Cache,
    stored: &mut Stored,
    fetch_result: Result<String, String>,
    fetches: &mut u32,
) -> Result<(String, Freshness), String> {
    let now = SystemTime::now();
    let mut fetch_result = Some(fetch_result);
    let (mut state, mut action) = begin();
    loop {
        let event = match action {
            FetchAction::ReadFresh => {
                let fresh = stored.payload.is_some() && cache.is_fresh(stored.age_nanos);
                FetchEvent::CacheRead(if fresh { stored.payload.clone() } else { None })
            }
            FetchAction::Fetch => {
                *fetches += 1;
                FetchEvent::Fetched(fetch_result.take().unwrap())
            }
            FetchAction::Write(data) => {
                if stored.read_only {
                    FetchEvent::Written(false)
                } else {
                    stored.payload = Some(data);
                    stored.modified = Some(now);
                    stored.age_nanos = Some(0);
                    FetchEvent::Written(true)
                }
            }
            FetchAction::ReadStale => FetchEvent::StaleRead(stored.payload.clone()),
            FetchAction::Finish(outcome) => {
                return outcome.map(|(payload, source)| {
                    (payload, freshness(source, stored.modified, now))
                })
            }
        };
        let (s, a) = step(state, event);
        state = s;
        action = a;
    }
}

#[test]
fn fresh_fetch_is_not_stale() {
    let cache = test_cache(Duration::ZERO.as_nanos());
    let mut stored = empty();
    let mut fetches = 0;
    let (data, freshness) =
        serve(&cache, &mut stored, Ok("payload-1".into()), &mut fetches).unwrap();
    assert_eq!(data, "payload-1");
    assert!(!freshness.stale);
    assert_eq!(freshness.stale_reason, None);
    assert!(freshness.fetched_at.is_some());
}

#[test]
fn failed_fetch_serves_stale_with_reason() {
    // TTL zero: every read is expired, forcing a re-fetch each call.
    let cache = test_cache(Duration::ZERO.as_nanos());
    let mut stored = empty();
    let mut fetches = 0;
    serve(&cache, &mut stored, Ok("payload-1".into()), &mut fetches).unwrap();

    let (data, freshness) = serve(&cache, &mut stored, Err("boom".into()), &mut fetches).unwrap();
    assert_eq!(data, "payload-1");
    assert!(freshness.stale);
    assert_eq!(freshness.stale_reason, Some("fetch_error"));
    assert!(freshness.fetched_at.is_some());
    assert_eq!(fetches, 2);
}

#[test]
fn failed_fetch_without_cache_is_an_error() {
    let cache = test_cache(Duration::ZERO.as_nanos());
    let mut stored = empty();
    let mut fetches = 0;
    let err = serve(&cache, &mut stored, Err("boom".into()), &mut fetches).unwrap_err();
    assert_eq!(err, "boom");
}

#[test]
fn fresh_cache_is_served_without_fetching() {
    let cache = test_cache(Duration::from_secs(60).as_nanos());
    let mut stored = Stored {
        payload: Some("cached".to_string()),
        modified: Some(SystemTime::UNIX_EPOCH),
        age_nanos: Some(Duration::from_secs(59).as_nanos()),
        read_only: false,
    };
    let mut fetches = 0;
    let (data, freshness) =
        serve(&cache, &mut stored, Ok("new".into()), &mut fetches).unwrap();
    assert_eq!(data, "cached");
    assert_eq!(fetches, 0);
    assert!(!freshness.stale);
    assert_eq!(freshness.fetched_at, Some(SystemTime::UNIX_EPOCH));
}

#[test]
fn expired_cache_is_refetched_and_replaced() {
    let cache = test_cache(Duration::from_secs(60).as_nanos());
    let mut stored = Stored {
        payload: Some("cached".to_string()),
        modified: Some(SystemTime::UNIX_EPOCH),
        age_nanos: Some(Duration::from_secs(60).as_nanos()),
        read_only: false,
    };
    let mut fetches = 0;
    let (data, freshness) =
        serve(&cache, &mut stored, Ok("new".into()), &mut fetches).unwrap();
    assert_eq!(data, "new");
    assert_eq!(fetches, 1);
    assert_eq!(stored.payload, Some("new".to_string()));
    assert!(!freshness.stale);
}

#[test]
fn unknown_age_counts_as_expired() {
    let cache = test_cache(u128::MAX);
    let mut stored = Stored {
        payload: Some("cached".to_string()),
        modified: None,
        age_nanos: None,
        read_only: false,
    };
    let mut fetches = 0;
    let err = serve(&cache, &mut stored, Err("offline".into()), &mut fetches);
    let (data, freshness) = err.unwrap();
    assert_eq!(data, "cached");
    assert_eq!(fetches, 1);
    assert!(freshness.stale);
    assert_eq!(freshness.fetched_at, None);
}

#[test]
fn each_step_asks_for_the_next_piece_of_work() {
    let (state, action) = begin();
    assert!(matches!(state, FetchState::CheckingCache));
    assert!(matches!(action, FetchAction::ReadFresh));

    let (state, action) = step(state, FetchEvent::CacheRead(None));
    assert!(matches!(state, FetchState::Fetching));
    assert!(matches!(action, FetchAction::Fetch));

    let (state, action) = step(state, FetchEvent::Fetched(Ok("d".to_string())));
    assert!(matches!(&state, FetchState::Writing { data } if data == "d"));
    assert!(matches!(&action, FetchAction::Write(data) if data == "d"));

    let (state, action) = step(state, FetchEvent::Written(true));
    assert!(matches!(&action, FetchAction::Finish(Ok((p, Source::Network { cached: true }))) if p == "d"));
    assert!(matches!(&state, FetchState::Done { outcome: Ok((p, Source::Network { cached: true })) } if p == "d"));

    let (_, action) = step(FetchState::Writing { data: "e".to_string() }, FetchEvent::Written(false));
    assert!(matches!(&action, FetchAction::Finish(Ok((p, Source::Network { cached: false }))) if p == "e"));
}

#[test]
fn an_event_that_does_not_answer_the_pending_work_changes_nothing() {
    let (state, _) = step(FetchState::Fetching, FetchEvent::Written(true));
    let (state, action) = step(state, FetchEvent::StaleRead(Some("x".to_string())));
    assert!(matches!(state, FetchState::Fetching));
    assert!(matches!(action, FetchAction::Fetch));

    let done = FetchState::Done { outcome: Err("e".to_string()) };
    let (state, action) = step(done, FetchEvent::CacheRead(Some("c".to_string())));
    assert!(matches!(&state, FetchState::Done { outcome: Err(e) } if e == "e"));
    assert!(matches!(&action, FetchAction::Finish(Err(e)) if e == "e"));

    let (_, action) = step(FetchState::ReadingStale { error: "e".to_string() }, FetchEvent::Written(false));
    assert!(matches!(action, FetchAction::ReadStale));
}

#[test]
fn only_a_fallback_payload_is_stale() {
    let now = SystemTime::now();
    let modified = Some(SystemTime::UNIX_EPOCH);

    let f = freshness(Source::Cache, modified, now);
    assert_eq!((f.fetched_at, f.stale, f.stale_reason), (modified, false, None));

    let f = freshness(Source::Network { cached: true }, None, now);
    assert_eq!((f.fetched_at, f.stale, f.stale_reason), (Some(now), false, None));
    let f = freshness(Source::Network { cached: true }, modified, now);
    assert_eq!(f.fetched_at, modified);
    let f = freshness(Source::Network { cached: false }, modified, now);
    assert_eq!((f.fetched_at, f.stale, f.stale_reason), (Some(now), false, None));

    let f = freshness(Source::Fallback, modified, now);
    assert_eq!((f.fetched_at, f.stale, f.stale_reason), (modified, true, Some("fetch_error")));
    let f = freshness(Source::Fallback, None, now);
    assert_eq!(f.fetched_at, None);
}

#[test]
fn a_fetch_whose_write_failed_is_dated_now() {
    let cache = test_cache(Duration::ZERO.as_nanos());
    let mut stored = Stored {
        payload: Some("old".to_string()),
        modified: Some(SystemTime::UNIX_EPOCH),
        age_nanos: Some(1),
        read_only: true,
    };
    let mut fetches = 0;
    let before = SystemTime::now();
    let (data, freshness) = serve(&cache, &mut stored, Ok("new".into()), &mut fetches).unwrap();
    assert_eq!(data, "new");
    assert_eq!(stored.payload, Some("old".to_string()));
    assert!(!freshness.stale);
    let fetched_at = freshness.fetched_at.unwrap();
    assert_ne!(fetched_at, SystemTime::UNIX_EPOCH);
    assert!(fetched_at >= before);
}
