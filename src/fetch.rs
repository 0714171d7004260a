//! The fetch-or-cache policy as a state machine.
//!
//! One call goes: read the cache; on a hit, done. On a miss, online: fetch,
//! drop the old cache entry, write the new one; offline: take the newest
//! cached copy under the same key. The caller performs each step that the
//! machine asks for and reports what came of it; nothing is retried.
use crate::config::{is_offline, spec_offline, Config};
use crate::error::FetchError;
use vstd::prelude::*;
use vstd::string::StringExecFns;

verus! {

/// Where an orchestration stands.
#[derive(Clone, Copy, Debug, PartialEq, Eq, Structural)]
pub enum Phase {
    Start,
    AwaitCache,
    AwaitFetch,
    AwaitInvalidate,
    AwaitWrite,
    AwaitLatest,
    Finished,
}

/// Where a delivered value came from.
#[derive(Clone, Copy, Debug, PartialEq, Eq, Structural)]
pub enum Origin {
    /// The cache entry of the request itself.
    Cache,
    /// The remote API; the value has been written to the cache.
    Remote,
    /// The newest cached copy under the request's key (offline mode).
    Latest,
}

/// What the caller is to do next.
#[derive(Clone, Copy, Debug, PartialEq, Eq, Structural)]
pub enum Step {
    /// Read the request's cache entry.
    ReadCache,
    /// Call the remote API.
    Fetch,
    /// Remove the request's cache entry; a missing file is no failure.
    Invalidate,
    /// Write the fetched value under the date that its payload reports.
    WriteCache,
    /// Scan the request's cache directory for the newest copy.
    FindLatest,
    /// Deliver the value held, which came from the given place.
    Done(Origin),
    /// Give up with the action's error.
    Fail,
}

/// What the caller reports after a step.
#[derive(Debug)]
pub enum Event {
    /// Nothing has happened yet.
    Begin,
    /// The cache entry was read: `true` where a value was found, `false`
    /// where the file was absent or unreadable.
    CacheRead(Result<bool, FetchError>),
    Fetched(Result<(), FetchError>),
    Invalidated(Result<(), FetchError>),
    Written(Result<(), FetchError>),
    /// The directory scan ended: `true` where a copy was found.
    LatestFound(Result<bool, FetchError>),
}

/// A step, with the error to give up with where the step is `Fail`.
#[derive(Debug)]
pub struct Action {
    pub step: Step,
    pub error: Option<FetchError>,
}

/// The event that `phase` waits for.
pub open spec fn accepts(phase: Phase, event: Event) -> bool {
    match (phase, event) {
        (Phase::Start, Event::Begin) => true,
        (Phase::AwaitCache, Event::CacheRead(_)) => true,
        (Phase::AwaitFetch, Event::Fetched(_)) => true,
        (Phase::AwaitInvalidate, Event::Invalidated(_)) => true,
        (Phase::AwaitWrite, Event::Written(_)) => true,
        (Phase::AwaitLatest, Event::LatestFound(_)) => true,
        _ => false,
    }
}

/// The error that an event reports, if any.
pub open spec fn event_error(event: Event) -> Option<FetchError> {
    match event {
        Event::CacheRead(Err(e)) => Some(e),
        Event::Fetched(Err(e)) => Some(e),
        Event::Invalidated(Err(e)) => Some(e),
        Event::Written(Err(e)) => Some(e),
        Event::LatestFound(Err(e)) => Some(e),
        _ => None,
    }
}

/// The next phase and step, for an event that the phase accepts.
pub open spec fn transition(offline: bool, event: Event) -> (Phase, Step) {
    if event_error(event) is Some {
        (Phase::Finished, Step::Fail)
    } else {
        match event {
            Event::Begin => (Phase::AwaitCache, Step::ReadCache),
            Event::CacheRead(r) => if r == Ok::<bool, FetchError>(true) {
                (Phase::Finished, Step::Done(Origin::Cache))
            } else if offline {
                (Phase::AwaitLatest, Step::FindLatest)
            } else {
                (Phase::AwaitFetch, Step::Fetch)
            },
            Event::Fetched(_) => (Phase::AwaitInvalidate, Step::Invalidate),
            Event::Invalidated(_) => (Phase::AwaitWrite, Step::WriteCache),
            Event::Written(_) => (Phase::Finished, Step::Done(Origin::Remote)),
            Event::LatestFound(r) => if r == Ok::<bool, FetchError>(true) {
                (Phase::Finished, Step::Done(Origin::Latest))
            } else {
                (Phase::Finished, Step::Fail)
            },
        }
    }
}

/// The steps asked for, from `phase` on, while the events fit.
pub open spec fn run(phase: Phase, offline: bool, events: Seq<Event>) -> Seq<Step>
    decreases events.len(),
{
    if events.len() == 0 || !accepts(phase, events[0]) {
        Seq::empty()
    } else {
        let (next, step) = transition(offline, events[0]);
        seq![step] + run(next, offline, events.drop_first())
    }
}

/// The steps of a whole orchestration.
pub open spec fn trace(offline: bool, events: Seq<Event>) -> Seq<Step> {
    run(Phase::Start, offline, events)
}

/// The text of the error that ends an offline call that found nothing.
pub open spec fn no_value_text() -> Seq<char> {
    "no value could be read from the entire cache"@
}

/// One fetch-or-cache call in progress.
pub struct Orchestration {
    pub offline: bool,
    pub phase: Phase,
}

impl Orchestration {
    /// A call that has not started; offline mode comes from `config`.
    pub fn new(config: &Option<Config>) -> (r: Orchestration)
        ensures
            r.offline == spec_offline(*config),
            r.phase == Phase::Start,
    {
        Orchestration { offline: is_offline(config), phase: Phase::Start }
    }

    /// Takes the report of the last step and says what to do next.
    pub fn step(&mut self, event: Event) -> (r: Action)
        requires
            accepts(old(self).phase, event),
        ensures
            final(self).offline == old(self).offline,
            (final(self).phase, r.step) == transition(old(self).offline, event),
            r.step is Fail <==> r.error is Some,
            event_error(event) is Some ==> r.error == event_error(event),
            event_error(event) is None && r.error is Some ==> (r.error->Some_0 matches FetchError::NoValue(
                m,
            ) && m@ == no_value_text()),
    {
        let (phase, step, error) = match event {
            Event::Begin => (Phase::AwaitCache, Step::ReadCache, None),
            Event::CacheRead(Err(e)) => (Phase::Finished, Step::Fail, Some(e)),
            Event::CacheRead(Ok(true)) => (Phase::Finished, Step::Done(Origin::Cache), None),
            Event::CacheRead(Ok(false)) => if self.offline {
                (Phase::AwaitLatest, Step::FindLatest, None)
            } else {
                (Phase::AwaitFetch, Step::Fetch, None)
            },
            Event::Fetched(Err(e)) => (Phase::Finished, Step::Fail, Some(e)),
            Event::Fetched(Ok(())) => (Phase::AwaitInvalidate, Step::Invalidate, None),
            Event::Invalidated(Err(e)) => (Phase::Finished, Step::Fail, Some(e)),
            Event::Invalidated(Ok(())) => (Phase::AwaitWrite, Step::WriteCache, None),
            Event::Written(Err(e)) => (Phase::Finished, Step::Fail, Some(e)),
            Event::Written(Ok(())) => (Phase::Finished, Step::Done(Origin::Remote), None),
            Event::LatestFound(Err(e)) => (Phase::Finished, Step::Fail, Some(e)),
            Event::LatestFound(Ok(true)) => (Phase::Finished, Step::Done(Origin::Latest), None),
            Event::LatestFound(Ok(false)) => (
                Phase::Finished,
                Step::Fail,
                Some(
                    FetchError::NoValue(
                        String::from_str("no value could be read from the entire cache"),
                    ),
                ),
            ),
        };
        self.phase = phase;
        Action { step, error }
    }
}

/// A step that ends the call.
pub open spec fn is_final(step: Step) -> bool {
    step is Done || step is Fail
}

/// `steps` is a prefix of `plan`, except that its last step may end the call
/// early.
pub open spec fn follows(steps: Seq<Step>, plan: Seq<Step>) -> bool {
    &&& steps.len() <= plan.len() + 1
    &&& forall|i: int|
        0 <= i < steps.len() ==> (i < plan.len() && #[trigger] steps[i] == plan[i]) || (i == steps.len()
            - 1 && is_final(steps[i]))
}

/// The steps of an online call after a cache miss, in their order.
pub open spec fn online_plan() -> Seq<Step> {
    seq![Step::ReadCache, Step::Fetch, Step::Invalidate, Step::WriteCache]
}

proof fn lemma_finished_is_silent(offline: bool, events: Seq<Event>)
    ensures
        run(Phase::Finished, offline, events) == Seq::<Step>::empty(),
{
}

proof fn lemma_follows_cons(step: Step, rest: Seq<Step>, plan: Seq<Step>)
    requires
        follows(rest, plan),
    ensures
        follows(seq![step] + rest, seq![step] + plan),
{
    let steps = seq![step] + rest;
    let full = seq![step] + plan;
    assert forall|i: int| 0 <= i < steps.len() implies (i < full.len() && #[trigger] steps[i] == full[i]) || (
    i == steps.len() - 1 && is_final(steps[i])) by {
        if i > 0 {
            assert(steps[i] == rest[i - 1]);
            if i < full.len() {
                assert(full[i] == plan[i - 1]);
            }
        }
    }
}

proof fn lemma_final_step_follows(step: Step, plan: Seq<Step>, offline: bool, events: Seq<Event>)
    requires
        is_final(step),
    ensures
        follows(seq![step] + run(Phase::Finished, offline, events), plan),
{
    lemma_finished_is_silent(offline, events);
    assert(seq![step] + run(Phase::Finished, offline, events) =~= seq![step]);
}

/// From the fetch on, an online call asks for the invalidation and the write,
/// once each and in that order, or stops.
proof fn lemma_after_fetch(events: Seq<Event>)
    ensures
        follows(run(Phase::AwaitFetch, false, events), seq![Step::Invalidate, Step::WriteCache]),
{
    let t = run(Phase::AwaitFetch, false, events);
    if events.len() > 0 && accepts(Phase::AwaitFetch, events[0]) {
        let e1 = events.drop_first();
        if event_error(events[0]) is Some {
            lemma_final_step_follows(Step::Fail, seq![Step::Invalidate, Step::WriteCache], false, e1);
        } else {
            let t1 = run(Phase::AwaitInvalidate, false, e1);
            if e1.len() > 0 && accepts(Phase::AwaitInvalidate, e1[0]) {
                let e2 = e1.drop_first();
                if event_error(e1[0]) is Some {
                    lemma_final_step_follows(Step::Fail, seq![Step::WriteCache], false, e2);
                } else {
                    let t2 = run(Phase::AwaitWrite, false, e2);
                    if e2.len() > 0 && accepts(Phase::AwaitWrite, e2[0]) {
                        let (_, s) = transition(false, e2[0]);
                        lemma_final_step_follows(s, Seq::empty(), false, e2.drop_first());
                    }
                    assert(follows(t2, Seq::empty()));
                    lemma_follows_cons(Step::WriteCache, t2, Seq::empty());
                    assert(seq![Step::WriteCache] + Seq::<Step>::empty() =~= seq![Step::WriteCache]);
                }
            }
            assert(follows(t1, seq![Step::WriteCache]));
            lemma_follows_cons(Step::Invalidate, t1, seq![Step::WriteCache]);
            assert(seq![Step::Invalidate] + seq![Step::WriteCache] =~= seq![Step::Invalidate, Step::WriteCache]);
        }
    }
}

/// Online, a call that misses the cache fetches once, then invalidates the
/// old entry once, then writes once, in that order, and asks for nothing
/// else; it may stop early on a failure.
pub proof fn lemma_online_miss_order(events: Seq<Event>)
    requires
        events.len() >= 2,
        events[1] == Event::CacheRead(Ok(false)),
    ensures
        follows(trace(false, events), online_plan()),
{
    let e1 = events.drop_first();
    let e2 = e1.drop_first();
    if accepts(Phase::Start, events[0]) {
        assert(e1[0] == events[1]);
        lemma_after_fetch(e2);
        let t2 = run(Phase::AwaitFetch, false, e2);
        lemma_follows_cons(Step::Fetch, t2, seq![Step::Invalidate, Step::WriteCache]);
        let t1 = run(Phase::AwaitCache, false, e1);
        assert(t1 == seq![Step::Fetch] + t2);
        assert(seq![Step::Fetch] + seq![Step::Invalidate, Step::WriteCache] =~= seq![
            Step::Fetch,
            Step::Invalidate,
            Step::WriteCache,
        ]);
        lemma_follows_cons(Step::ReadCache, t1, seq![Step::Fetch, Step::Invalidate, Step::WriteCache]);
        assert(seq![Step::ReadCache] + seq![Step::Fetch, Step::Invalidate, Step::WriteCache] =~= online_plan());
    } else {
        assert(trace(false, events) =~= Seq::<Step>::empty());
    }
}

proof fn lemma_offline_run_never_fetches(phase: Phase, events: Seq<Event>)
    requires
        phase != Phase::Start && phase != Phase::AwaitCache,
    ensures
        forall|i: int| 0 <= i < run(phase, true, events).len() ==> #[trigger] run(phase, true, events)[i] != Step::Fetch,
    decreases events.len(),
{
    let t = run(phase, true, events);
    if events.len() > 0 && accepts(phase, events[0]) {
        let (next, step) = transition(true, events[0]);
        lemma_offline_run_never_fetches(next, events.drop_first());
        let rest = run(next, true, events.drop_first());
        assert forall|i: int| 0 <= i < t.len() implies #[trigger] t[i] != Step::Fetch by {
            if i > 0 {
                assert(t[i] == rest[i - 1]);
            }
        }
    }
}

/// In offline mode a call never asks for the remote API, whatever the cache
/// holds and whatever fails.
pub proof fn lemma_offline_never_fetches(events: Seq<Event>)
    ensures
        forall|i: int| 0 <= i < trace(true, events).len() ==> #[trigger] trace(true, events)[i] != Step::Fetch,
{
    let t = trace(true, events);
    if events.len() > 0 && accepts(Phase::Start, events[0]) {
        let e1 = events.drop_first();
        let t1 = run(Phase::AwaitCache, true, e1);
        if e1.len() > 0 && accepts(Phase::AwaitCache, e1[0]) {
            let (next, step) = transition(true, e1[0]);
            lemma_offline_run_never_fetches(next, e1.drop_first());
            let rest = run(next, true, e1.drop_first());
            assert forall|i: int| 0 <= i < t1.len() implies #[trigger] t1[i] != Step::Fetch by {
                if i > 0 {
                    assert(t1[i] == rest[i - 1]);
                }
            }
        }
        assert forall|i: int| 0 <= i < t.len() implies #[trigger] t[i] != Step::Fetch by {
            if i > 0 {
                assert(t[i] == t1[i - 1]);
            }
        }
    }
}

/// A cache read that fails ends the call with that failure: it never falls
/// through to a fetch or to the offline scan.
pub proof fn lemma_failed_read_ends_call(offline: bool, events: Seq<Event>)
    requires
        events.len() >= 2,
        events[0] == Event::Begin,
        events[1] is CacheRead,
        events[1]->CacheRead_0 is Err,
    ensures
        trace(offline, events) == seq![Step::ReadCache, Step::Fail],
{
    let e1 = events.drop_first();
    assert(e1[0] == events[1]);
    lemma_finished_is_silent(offline, e1.drop_first());
    assert(run(Phase::AwaitCache, offline, e1) =~= seq![Step::Fail]);
    assert(trace(offline, events) =~= seq![Step::ReadCache, Step::Fail]);
}

} // verus!
