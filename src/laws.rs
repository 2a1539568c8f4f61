//! Properties of the cache over runs of several steps, proved from the step
//! functions that the cache's methods follow.

use vstd::prelude::*;

use crate::cache::{
    job_for, lookup_step, placeholder_deliveries, resolve_step, CacheView, JobView, StatusView,
};
use crate::disk::shadow_path;
use crate::key::parsed_url;
use crate::race::{race_start, report_step, OutcomeView, Source};

verus! {

/// A step of a cache: a lookup of a raw key, or the resolution of a fetch.
pub enum Event {
    Lookup(Seq<char>),
    Resolve(JobView, OutcomeView),
}

/// The state after `e`.
pub open spec fn apply(c: CacheView, e: Event) -> CacheView {
    match e {
        Event::Lookup(raw) => lookup_step(c, raw).0,
        Event::Resolve(job, outcome) => resolve_step(c, job, outcome).0,
    }
}

/// The state after `events`, in order.
pub open spec fn run_events(c: CacheView, events: Seq<Event>) -> CacheView
    decreases events.len(),
{
    if events.len() == 0 {
        c
    } else {
        run_events(apply(c, events[0]), events.drop_first())
    }
}

/// The lookups of `raws`, in order: the final state and how many fetches they scheduled.
pub open spec fn run_lookups(c: CacheView, raws: Seq<Seq<char>>) -> (CacheView, nat)
    decreases raws.len(),
{
    if raws.len() == 0 {
        (c, 0)
    } else {
        let (next, answer) = lookup_step(c, raws[0]);
        let (last, n) = run_lookups(next, raws.drop_first());
        (last, n + if answer.status is Scheduled { 1nat } else { 0nat })
    }
}

/// Lookups that all name key `k`, made while `k` is in flight and has no
/// payload, schedule nothing and leave that so.
proof fn lemma_in_flight_lookups(c: CacheView, raws: Seq<Seq<char>>, k: Seq<char>)
    requires
        forall|i: int| 0 <= i < raws.len() ==> parsed_url(#[trigger] raws[i]) == Some(k),
        !c.store.contains_key(k),
        c.in_flight.contains(k),
    ensures
        run_lookups(c, raws).1 == 0,
    decreases raws.len(),
{
    if raws.len() > 0 {
        assert(parsed_url(raws[0]) == Some(k));
        let rest = raws.drop_first();
        assert forall|i: int| 0 <= i < rest.len() implies parsed_url(#[trigger] rest[i]) == Some(k) by {
            assert(rest[i] == raws[i + 1]);
        }
        lemma_in_flight_lookups(lookup_step(c, raws[0]).0, rest, k);
    }
}

/// Deduplication: any number of lookups that all name the same key, made
/// while no payload is stored for it, schedule at most one fetch, and none
/// where a fetch for it is already in flight.
pub proof fn lemma_dedup(c: CacheView, raws: Seq<Seq<char>>, k: Seq<char>)
    requires
        forall|i: int| 0 <= i < raws.len() ==> parsed_url(#[trigger] raws[i]) == Some(k),
        !c.store.contains_key(k),
    ensures
        run_lookups(c, raws).1 <= 1,
        c.in_flight.contains(k) ==> run_lookups(c, raws).1 == 0,
{
    if c.in_flight.contains(k) {
        lemma_in_flight_lookups(c, raws, k);
    } else if raws.len() > 0 {
        assert(parsed_url(raws[0]) == Some(k));
        let rest = raws.drop_first();
        assert forall|i: int| 0 <= i < rest.len() implies parsed_url(#[trigger] rest[i]) == Some(k) by {
            assert(rest[i] == raws[i + 1]);
        }
        lemma_in_flight_lookups(lookup_step(c, raws[0]).0, rest, k);
    }
}

/// A stored key stays stored through any step.
pub proof fn lemma_store_kept(c: CacheView, e: Event, k: Seq<char>)
    requires
        c.store.contains_key(k),
    ensures
        apply(c, e).store.contains_key(k),
{
}

/// Cache hit short-circuit: once a payload is stored for key `k`, every later
/// lookup of `k`, whatever happened in between, is a hit that delivers the
/// stored payload after the placeholder, schedules no fetch and changes nothing.
pub proof fn lemma_hit_short_circuit(c: CacheView, events: Seq<Event>, raw: Seq<char>, k: Seq<char>)
    requires
        c.store.contains_key(k),
        parsed_url(raw) == Some(k),
    ensures
        ({
            let now = run_events(c, events);
            &&& now.store.contains_key(k)
            &&& lookup_step(now, raw).0 == now
            &&& lookup_step(now, raw).1.status == StatusView::Hit
            &&& lookup_step(now, raw).1.deliveries == placeholder_deliveries(now).push(now.store[k])
        }),
    decreases events.len(),
{
    if events.len() > 0 {
        lemma_store_kept(c, events[0], k);
        lemma_hit_short_circuit(apply(c, events[0]), events.drop_first(), raw, k);
    }
}

/// Placeholder, then result: with placeholder `p`, a request that schedules
/// the fetch of its key receives `p` alone at once, and then the payload that
/// resolves the fetch, whatever happened in between; a request that hits
/// receives `p`, then the stored payload.
pub proof fn lemma_placeholder_then_result(
    c: CacheView,
    raw: Seq<char>,
    k: Seq<char>,
    p: Seq<u8>,
    later: CacheView,
    source: Source,
    b: Seq<u8>,
)
    requires
        c.placeholder == Some(p),
        parsed_url(raw) == Some(k),
    ensures
        !c.store.contains_key(k) && !c.in_flight.contains(k) ==> {
            &&& lookup_step(c, raw).1.status == StatusView::Scheduled(job_for(c, k))
            &&& lookup_step(c, raw).1.deliveries == seq![p]
            &&& resolve_step(
                later,
                job_for(c, k),
                OutcomeView::Resolved { source, payload: b },
            ).1.deliver == Some(b)
        },
        c.store.contains_key(k) ==> lookup_step(c, raw).1.deliveries == seq![p, c.store[k]],
{
}

/// Race correctness: where the shadow file yields `p` and the network fails,
/// the race resolves from the disk with `p`, in either order of the two
/// reports; resolving the fetch then delivers and stores `p` and writes
/// nothing back.
pub proof fn lemma_disk_rescues_failed_network(p: Seq<u8>, c: CacheView, job: JobView)
    ensures
        report_step(race_start(true), Source::Disk, Some(p)).1 == Some(
            OutcomeView::Resolved { source: Source::Disk, payload: p },
        ),
        report_step(race_start(true), Source::Network, None).1.is_none(),
        report_step(
            report_step(race_start(true), Source::Network, None).0,
            Source::Disk,
            Some(p),
        ).1 == Some(OutcomeView::Resolved { source: Source::Disk, payload: p }),
        ({
            let (next, res) = resolve_step(
                c,
                job,
                OutcomeView::Resolved { source: Source::Disk, payload: p },
            );
            &&& res.deliver == Some(p)
            &&& res.persist.is_none()
            &&& next.store.contains_key(job.key)
            &&& next.store[job.key] == p
        }),
{
}

/// Liveness after failure: where every source fails, the race ends in
/// failure; resolving a fetch of key `k` with that failure releases `k`, so
/// the next lookup of `k` schedules a fresh fetch (unless a payload was stored
/// meanwhile).
pub proof fn lemma_retry_after_failure(c: CacheView, job: JobView, raw: Seq<char>, k: Seq<char>)
    requires
        job.key == k,
        parsed_url(raw) == Some(k),
        !c.store.contains_key(k),
    ensures
        report_step(race_start(false), Source::Network, None).1 == Some(OutcomeView::Failed),
        report_step(
            report_step(race_start(true), Source::Network, None).0,
            Source::Disk,
            None,
        ).1 == Some(OutcomeView::Failed),
        report_step(
            report_step(race_start(true), Source::Disk, None).0,
            Source::Network,
            None,
        ).1 == Some(OutcomeView::Failed),
        ({
            let after = resolve_step(c, job, OutcomeView::Failed).0;
            &&& !after.in_flight.contains(k)
            &&& lookup_step(after, raw).1.status == StatusView::Scheduled(job_for(after, k))
        }),
{
}

/// Disk persistence round trip: after a network fetch of key `k` wins with
/// the disk store in `dir`, the bytes written back are exactly the bytes
/// delivered, at the shadow path of `k` — the same path that every later
/// fetch of `k` reads.
pub proof fn lemma_persist_round_trip(
    c: CacheView,
    later: CacheView,
    dir: Seq<char>,
    k: Seq<char>,
    b: Seq<u8>,
)
    requires
        c.disk_dir == Some(dir),
        later.disk_dir == Some(dir),
    ensures
        ({
            let res = resolve_step(
                c,
                job_for(c, k),
                OutcomeView::Resolved { source: Source::Network, payload: b },
            ).1;
            &&& res.deliver == Some(b)
            &&& res.persist == Some((shadow_path(dir, k), b))
        }),
        job_for(later, k).disk_path == Some(shadow_path(dir, k)),
{
}

/// Invalid key: a raw key that is no URL gets the placeholder (if any) and
/// nothing else, schedules no fetch and changes nothing.
pub proof fn lemma_invalid_key(c: CacheView, raw: Seq<char>)
    requires
        parsed_url(raw).is_none(),
    ensures
        lookup_step(c, raw).0 == c,
        lookup_step(c, raw).1.status == StatusView::InvalidKey,
        lookup_step(c, raw).1.deliveries == placeholder_deliveries(c),
{
}

} // verus!
