//! The decisions of the fetch-or-serve-from-cache protocol.
//!
//! Serving a request takes turns between work on files or the network and
//! decisions. The decisions are made here, by [`step`]: given the protocol's
//! state and the outcome of the last piece of work, it names the next state
//! and the next piece of work ([`FetchAction`]). The caller performs that
//! work and reports back with a [`FetchEvent`], until the action is `Finish`.
//!
//! The protocol: a fresh cached payload is served as it is; otherwise the
//! payload is fetched, written to the cache, and served; if the fetch fails,
//! the last cached payload of any age is served, flagged as stale; if there is
//! none, the fetch's error is the result.
use vstd::prelude::*;

use std::time::SystemTime;

verus! {

#[verifier::external_type_specification]
#[verifier::external_body]
pub struct ExSystemTime(SystemTime);

/// Where a served payload came from.
#[derive(Clone, Copy, Debug, PartialEq, Eq, Structural)]
pub enum Source {
    /// A fresh cached copy.
    Cache,
    /// A fetch that just succeeded; `cached` tells whether the payload was
    /// then written to the cache file.
    Network { cached: bool },
    /// The last cached copy, of any age, served because the fetch failed.
    Fallback,
}

/// The result of serving a request: the payload and where it came from, or
/// the fetch's error.
pub type Outcome = Result<(String, Source), String>;

/// How far the protocol has come.
pub enum FetchState {
    /// Waiting for the read of a fresh cached payload.
    CheckingCache,
    /// Waiting for the fetch.
    Fetching,
    /// Waiting for the fetched `data` to be written to the cache.
    Writing { data: String },
    /// Waiting for the read of a cached payload of any age, after the fetch failed with `error`.
    ReadingStale { error: String },
    /// Finished with `outcome`.
    Done { outcome: Outcome },
}

/// The outcome of the last piece of work.
pub enum FetchEvent {
    /// The fresh cached payload, if there is one.
    CacheRead(Option<String>),
    /// What the fetch returned.
    Fetched(Result<String, String>),
    /// Whether the payload was written to the cache file.
    Written(bool),
    /// The cached payload of any age, if there is one.
    StaleRead(Option<String>),
}

/// The next piece of work.
pub enum FetchAction {
    /// Read the cached payload if it is fresh.
    ReadFresh,
    /// Fetch the payload.
    Fetch,
    /// Write this payload to the cache.
    Write(String),
    /// Read the cached payload, whatever its age.
    ReadStale,
    /// Stop: this is the result.
    Finish(Outcome),
}

/// The work that a state waits for.
pub open spec fn pending(state: FetchState) -> FetchAction {
    match state {
        FetchState::CheckingCache => FetchAction::ReadFresh,
        FetchState::Fetching => FetchAction::Fetch,
        FetchState::Writing { data } => FetchAction::Write(data),
        FetchState::ReadingStale { .. } => FetchAction::ReadStale,
        FetchState::Done { outcome } => FetchAction::Finish(outcome),
    }
}

/// The state that finishes with `outcome`, and the action that reports it.
pub open spec fn finish(outcome: Outcome) -> (FetchState, FetchAction) {
    (FetchState::Done { outcome }, FetchAction::Finish(outcome))
}

/// The protocol's transition: the next state and action after `event` in `state`.
/// An event that does not answer the state's pending work changes nothing, and
/// the work is asked for again.
pub open spec fn next(state: FetchState, event: FetchEvent) -> (FetchState, FetchAction) {
    match (state, event) {
        (FetchState::CheckingCache, FetchEvent::CacheRead(Some(cached))) => finish(
            Ok((cached, Source::Cache)),
        ),
        (FetchState::CheckingCache, FetchEvent::CacheRead(None)) => (
            FetchState::Fetching,
            FetchAction::Fetch,
        ),
        (FetchState::Fetching, FetchEvent::Fetched(Ok(data))) => (
            FetchState::Writing { data },
            FetchAction::Write(data),
        ),
        (FetchState::Fetching, FetchEvent::Fetched(Err(error))) => (
            FetchState::ReadingStale { error },
            FetchAction::ReadStale,
        ),
        (FetchState::Writing { data }, FetchEvent::Written(cached)) => finish(
            Ok((data, Source::Network { cached })),
        ),
        (FetchState::ReadingStale { .. }, FetchEvent::StaleRead(Some(stale))) => finish(
            Ok((stale, Source::Fallback)),
        ),
        (FetchState::ReadingStale { error }, FetchEvent::StaleRead(None)) => finish(Err(error)),
        _ => (state, pending(state)),
    }
}

/// Whether a payload is stale, and why, and when it was fetched.
#[derive(Debug)]
pub struct Freshness {
    pub fetched_at: Option<SystemTime>,
    pub stale: bool,
    pub stale_reason: Option<&'static str>,
}

/// When a payload from `source` was fetched. A cached payload (fresh or
/// fallback) was fetched when the cache file was last written, its
/// modification time `last_fetched`. A payload fetched just now and written
/// to the cache file is dated by that file's time, which is this fetch's, or
/// by `now` where the time is unknown; one whose write failed is dated `now`,
/// since the cache file, if any, holds an older fetch.
pub open spec fn fetched_at_of(source: Source, last_fetched: Option<SystemTime>, now: SystemTime) -> Option<SystemTime> {
    match source {
        Source::Network { cached: true } => match last_fetched {
            Some(t) => Some(t),
            None => Some(now),
        },
        Source::Network { cached: false } => Some(now),
        _ => last_fetched,
    }
}

/// The freshness of a payload served from `source`. Only a fallback payload
/// is stale, with the reason `fetch_error` (the failure is not classified further).
pub fn freshness(source: Source, last_fetched: Option<SystemTime>, now: SystemTime) -> (res: Freshness)
    ensures
        res.fetched_at == fetched_at_of(source, last_fetched, now),
        res.stale == (source == Source::Fallback),
        res.stale_reason is Some <==> source == Source::Fallback,
        res.stale_reason matches Some(reason) ==> reason@ == "fetch_error"@,
{
    match source {
        Source::Cache => Freshness { fetched_at: last_fetched, stale: false, stale_reason: None },
        Source::Network { cached } => {
            let fetched_at = if cached {
                match last_fetched {
                    Some(t) => Some(t),
                    None => Some(now),
                }
            } else {
                Some(now)
            };
            Freshness { fetched_at, stale: false, stale_reason: None }
        },
        Source::Fallback => Freshness {
            fetched_at: last_fetched,
            stale: true,
            stale_reason: Some("fetch_error"),
        },
    }
}

/// A payload that was just fetched always has a fetch time, and one that
/// could not be written to the cache is never dated by an older cache file.
pub proof fn lemma_network_payload_has_fetch_time(
    cached: bool,
    last_fetched: Option<SystemTime>,
    now: SystemTime,
)
    ensures
        fetched_at_of(Source::Network { cached }, last_fetched, now) is Some,
        !cached ==> fetched_at_of(Source::Network { cached }, last_fetched, now) == Some(now),
{
}

/// A payload is dated by the cache file's modification time exactly when the
/// cache file holds that payload: a payload read from the cache (fresh or as a
/// fallback) always, a fetched one only when it was written; a fetched
/// payload that could not be written is dated `now`.
pub proof fn lemma_fetch_time_is_file_time_only_when_file_holds_payload(
    source: Source,
    last_fetched: Option<SystemTime>,
    now: SystemTime,
)
    ensures
        source == Source::Cache || source == Source::Fallback ==> fetched_at_of(
            source,
            last_fetched,
            now,
        ) == last_fetched,
        source == (Source::Network { cached: true }) && last_fetched is Some ==> fetched_at_of(
            source,
            last_fetched,
            now,
        ) == last_fetched,
        source == (Source::Network { cached: false }) ==> fetched_at_of(source, last_fetched, now)
            == Some(now),
{
}

/// The event that answers `action` in a world where the fresh cache read gives
/// `fresh`, the fetch gives `fetched`, writing to the cache succeeds exactly
/// when `written`, and the read of any age gives `stale`.
pub open spec fn answer(
    action: FetchAction,
    fresh: Option<String>,
    fetched: Result<String, String>,
    written: bool,
    stale: Option<String>,
) -> FetchEvent {
    match action {
        FetchAction::ReadFresh => FetchEvent::CacheRead(fresh),
        FetchAction::Fetch => FetchEvent::Fetched(fetched),
        FetchAction::ReadStale => FetchEvent::StaleRead(stale),
        _ => FetchEvent::Written(written),
    }
}

/// The actions the protocol asks for, from `state` with pending `action`, when
/// every action is answered as in [`answer`], for at most `fuel` more steps.
pub open spec fn trace_from(
    state: FetchState,
    action: FetchAction,
    fresh: Option<String>,
    fetched: Result<String, String>,
    written: bool,
    stale: Option<String>,
    fuel: nat,
) -> Seq<FetchAction>
    decreases fuel,
{
    if fuel == 0 || action is Finish {
        seq![action]
    } else {
        let (s, a) = next(state, answer(action, fresh, fetched, written, stale));
        seq![action] + trace_from(s, a, fresh, fetched, written, stale, (fuel - 1) as nat)
    }
}

/// The actions the protocol asks for from its start, in a world answering as in [`answer`].
pub open spec fn trace(
    fresh: Option<String>,
    fetched: Result<String, String>,
    written: bool,
    stale: Option<String>,
) -> Seq<FetchAction> {
    trace_from(FetchState::CheckingCache, FetchAction::ReadFresh, fresh, fetched, written, stale, 4)
}

/// The result of serving a request: the fresh cached payload; else the fetched
/// one, flagged with whether it was written to the cache; else, when the fetch
/// failed, the cached payload of any age, flagged as a fallback; else the
/// fetch's error.
pub open spec fn served(
    fresh: Option<String>,
    fetched: Result<String, String>,
    written: bool,
    stale: Option<String>,
) -> Outcome {
    match fresh {
        Some(cached) => Ok((cached, Source::Cache)),
        None => match fetched {
            Ok(data) => Ok((data, Source::Network { cached: written })),
            Err(error) => match stale {
                Some(old) => Ok((old, Source::Fallback)),
                None => Err(error),
            },
        },
    }
}

/// The work the protocol asks for: the cache is read first; the network is
/// asked only when no fresh payload is cached; a fetched payload is written to
/// the cache before it is served; the cache is read again, whatever its age,
/// only when the fetch failed; and the protocol finishes with [`served`].
pub open spec fn expected_trace(
    fresh: Option<String>,
    fetched: Result<String, String>,
    written: bool,
    stale: Option<String>,
) -> Seq<FetchAction> {
    let done = FetchAction::Finish(served(fresh, fetched, written, stale));
    match fresh {
        Some(_) => seq![FetchAction::ReadFresh, done],
        None => match fetched {
            Ok(data) => seq![FetchAction::ReadFresh, FetchAction::Fetch, FetchAction::Write(data), done],
            Err(_) => seq![FetchAction::ReadFresh, FetchAction::Fetch, FetchAction::ReadStale, done],
        },
    }
}

/// Run from its start, the protocol asks for exactly the work of
/// [`expected_trace`] and finishes with [`served`]: a fresh cache is served
/// without a fetch, at most one fetch is made, what is fetched is written
/// before it is served, and the fetch's error is the result only when no
/// cached payload of any age exists.
pub proof fn lemma_protocol(
    fresh: Option<String>,
    fetched: Result<String, String>,
    written: bool,
    stale: Option<String>,
)
    ensures
        trace(fresh, fetched, written, stale) == expected_trace(fresh, fetched, written, stale),
        trace(fresh, fetched, written, stale).last() == FetchAction::Finish(served(fresh, fetched, written, stale)),
{
    reveal_with_fuel(trace_from, 5);
    let t = trace(fresh, fetched, written, stale);
    let e = expected_trace(fresh, fetched, written, stale);
    assert(t =~= e);
}

/// Every step leaves the protocol in the state that waits for the work it asks
/// for: asked to finish with an outcome, it is done with that same outcome;
/// asked to write a payload, it waits for that payload's write; and so on.
pub proof fn lemma_step_state_matches_action(state: FetchState, event: FetchEvent)
    ensures
        match next(state, event).1 {
            FetchAction::ReadFresh => next(state, event).0 is CheckingCache,
            FetchAction::Fetch => next(state, event).0 is Fetching,
            FetchAction::Write(data) => next(state, event).0 == FetchState::Writing { data },
            FetchAction::ReadStale => next(state, event).0 is ReadingStale,
            FetchAction::Finish(outcome) => next(state, event).0 == FetchState::Done { outcome },
        },
{
}

/// A finished protocol stays finished with the same outcome, whatever is reported to it.
pub proof fn lemma_done_is_final(outcome: Outcome, event: FetchEvent)
    ensures
        next(FetchState::Done { outcome }, event) == (
            FetchState::Done { outcome },
            FetchAction::Finish(outcome),
        ),
{
}

/// The four runs of the protocol, written out. A fresh cached payload is
/// served as coming from the cache, with no fetch. Otherwise the payload is
/// fetched; a fetched payload is written and then served as coming from the
/// network, flagged with whether the write succeeded. A failed fetch is
/// followed by a read of the cache whatever its age: an old payload is served
/// as a fallback, and with none the fetch's error is the result.
pub proof fn lemma_protocol_runs(
    fresh: Option<String>,
    fetched: Result<String, String>,
    written: bool,
    stale: Option<String>,
)
    ensures
        fresh matches Some(cached) ==> trace(fresh, fetched, written, stale) == seq![
            FetchAction::ReadFresh,
            FetchAction::Finish(Ok((cached, Source::Cache))),
        ],
        fetched matches Ok(data) ==> (fresh is None ==> trace(fresh, fetched, written, stale)
            == seq![
            FetchAction::ReadFresh,
            FetchAction::Fetch,
            FetchAction::Write(data),
            FetchAction::Finish(Ok((data, Source::Network { cached: written }))),
        ]),
        stale matches Some(old) ==> (fresh is None && fetched is Err ==> trace(
            fresh,
            fetched,
            written,
            stale,
        ) == seq![
            FetchAction::ReadFresh,
            FetchAction::Fetch,
            FetchAction::ReadStale,
            FetchAction::Finish(Ok((old, Source::Fallback))),
        ]),
        fetched matches Err(error) ==> (fresh is None && stale is None ==> trace(
            fresh,
            fetched,
            written,
            stale,
        ) == seq![
            FetchAction::ReadFresh,
            FetchAction::Fetch,
            FetchAction::ReadStale,
            FetchAction::Finish(Err(error)),
        ]),
{
    lemma_protocol(fresh, fetched, written, stale);
}

/// The state and action that start the protocol: check the cache first.
pub fn begin() -> (res: (FetchState, FetchAction))
    ensures
        res == (FetchState::CheckingCache, FetchAction::ReadFresh),
{
    (FetchState::CheckingCache, FetchAction::ReadFresh)
}

fn copy_outcome(outcome: &Outcome) -> (res: Outcome)
    ensures
        res == *outcome,
{
    match outcome {
        Ok((payload, source)) => Ok((payload.clone(), *source)),
        Err(error) => Err(error.clone()),
    }
}

/// The work that `state` waits for.
fn pending_action(state: &FetchState) -> (res: FetchAction)
    ensures
        res == pending(*state),
{
    match state {
        FetchState::CheckingCache => FetchAction::ReadFresh,
        FetchState::Fetching => FetchAction::Fetch,
        FetchState::Writing { data } => FetchAction::Write(data.clone()),
        FetchState::ReadingStale { .. } => FetchAction::ReadStale,
        FetchState::Done { outcome } => FetchAction::Finish(copy_outcome(outcome)),
    }
}

/// One decision of the protocol: the next state and the next piece of work,
/// given the outcome `event` of the work that `state` waited for.
pub fn step(state: FetchState, event: FetchEvent) -> (res: (FetchState, FetchAction))
    ensures
        res == next(state, event),
{
    match (state, event) {
        (FetchState::CheckingCache, FetchEvent::CacheRead(Some(cached))) => {
            let reported = cached.clone();
            (
                FetchState::Done { outcome: Ok((cached, Source::Cache)) },
                FetchAction::Finish(Ok((reported, Source::Cache))),
            )
        },
        (FetchState::CheckingCache, FetchEvent::CacheRead(None)) => (
            FetchState::Fetching,
            FetchAction::Fetch,
        ),
        (FetchState::Fetching, FetchEvent::Fetched(Ok(data))) => {
            let to_write = data.clone();
            (FetchState::Writing { data }, FetchAction::Write(to_write))
        },
        (FetchState::Fetching, FetchEvent::Fetched(Err(error))) => (
            FetchState::ReadingStale { error },
            FetchAction::ReadStale,
        ),
        (FetchState::Writing { data }, FetchEvent::Written(cached)) => {
            let reported = data.clone();
            (
                FetchState::Done { outcome: Ok((data, Source::Network { cached })) },
                FetchAction::Finish(Ok((reported, Source::Network { cached }))),
            )
        },
        (FetchState::ReadingStale { error }, FetchEvent::StaleRead(Some(stale))) => {
            let reported = stale.clone();
            (
                FetchState::Done { outcome: Ok((stale, Source::Fallback)) },
                FetchAction::Finish(Ok((reported, Source::Fallback))),
            )
        },
        (FetchState::ReadingStale { error }, FetchEvent::StaleRead(None)) => {
            let reported = error.clone();
            (FetchState::Done { outcome: Err(error) }, FetchAction::Finish(Err(reported)))
        },
        (state, _) => {
            let action = pending_action(&state);
            (state, action)
        },
    }
}

} // verus!
