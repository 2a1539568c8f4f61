//! The cache: configuration, the lookup entry point, and the resolution of a
//! finished fetch.
//!
//! A cache value is the single owner of its result store and in-flight
//! registry; each method is one atomic step over both. Callers that share a
//! cache between threads hold it behind a lock and perform the returned
//! actions (deliveries, fetches, shadow writes) outside it.

use bytes::Bytes;
use core::time::Duration;
use vstd::prelude::*;
use xxhash_rust::xxh3::Xxh3Builder;

use crate::disk::{path_for, shadow_path};
use crate::key::{normalize, parsed_url, InvalidKey};
use crate::payload::{bytes_view, opt_bytes_view};
use crate::race::{Outcome, OutcomeView, Source};
use crate::store::{
    in_flight_contains, in_flight_insert, in_flight_remove, in_flight_view, new_in_flight,
    new_store, store_get, store_insert, store_view, InFlight, ResultStore,
};

verus! {

/// How a cache is set up.
pub struct CacheConfig {
    /// Sent to every request before anything else, where present.
    pub placeholder: Option<Bytes>,
    /// Directory of the disk shadow store, where present.
    pub local_cache_path: Option<String>,
    /// Accepted and kept; no entry ever expires.
    pub alive_time: Option<Duration>,
}

impl Default for CacheConfig {
    fn default() -> (r: Self)
        ensures
            r.placeholder.is_none(),
            r.local_cache_path.is_none(),
            r.alive_time.is_none(),
    {
        CacheConfig { placeholder: None, local_cache_path: None, alive_time: None }
    }
}

/// The characters of an optional string.
pub open spec fn opt_string_view(o: Option<String>) -> Option<Seq<char>> {
    match o {
        Some(s) => Some(s@),
        None => None,
    }
}

/// The state of a cache.
pub struct CacheView {
    /// Canonical key to payload; entries are added or replaced, never removed.
    pub store: Map<Seq<char>, Seq<u8>>,
    /// Canonical keys whose fetch has been scheduled and not yet resolved.
    pub in_flight: Set<Seq<char>>,
    pub placeholder: Option<Seq<u8>>,
    /// Directory of the disk shadow store, where it is enabled.
    pub disk_dir: Option<Seq<char>>,
    /// Carried from the configuration; no step reads it.
    pub alive_time: Option<Duration>,
}

/// A fetch to perform: the canonical key, and the shadow file to race
/// against the network where the disk store is enabled.
pub struct FetchJob {
    pub key: String,
    pub disk_path: Option<String>,
}

pub struct JobView {
    pub key: Seq<char>,
    pub disk_path: Option<Seq<char>>,
}

impl View for FetchJob {
    type V = JobView;

    open spec fn view(&self) -> JobView {
        JobView { key: self.key@, disk_path: opt_string_view(self.disk_path) }
    }
}

/// What a lookup did.
pub enum LookupStatus {
    /// The raw key is not a URL; nothing more happens.
    InvalidKey,
    /// The payload was in the store and is among the deliveries.
    Hit,
    /// A fetch for the key is already under way; this request gets nothing more.
    InFlight,
    /// The key is now in flight; the caller performs this fetch.
    Scheduled(FetchJob),
}

pub enum StatusView {
    InvalidKey,
    Hit,
    InFlight,
    Scheduled(JobView),
}

impl View for LookupStatus {
    type V = StatusView;

    open spec fn view(&self) -> StatusView {
        match self {
            LookupStatus::InvalidKey => StatusView::InvalidKey,
            LookupStatus::Hit => StatusView::Hit,
            LookupStatus::InFlight => StatusView::InFlight,
            LookupStatus::Scheduled(job) => StatusView::Scheduled(job@),
        }
    }
}

/// The answer to one request: what to send on its delivery channel, in
/// order, and what happened to its key.
pub struct Lookup {
    pub status: LookupStatus,
    pub deliveries: Vec<Bytes>,
}

pub struct LookupView {
    pub status: StatusView,
    pub deliveries: Seq<Seq<u8>>,
}

/// The bytes of each payload, in order.
pub open spec fn payloads_view(v: Seq<Bytes>) -> Seq<Seq<u8>> {
    v.map_values(|b: Bytes| bytes_view(b))
}

impl View for Lookup {
    type V = LookupView;

    open spec fn view(&self) -> LookupView {
        LookupView { status: self.status@, deliveries: payloads_view(self.deliveries@) }
    }
}

/// A payload to write to the shadow file at `path`.
pub struct ShadowWrite {
    pub path: String,
    pub payload: Bytes,
}

/// What to do once a fetch has been resolved: the payload to send to the
/// request that scheduled it, and the shadow copy to write.
pub struct Resolution {
    pub deliver: Option<Bytes>,
    pub persist: Option<ShadowWrite>,
}

pub struct ResolutionView {
    pub deliver: Option<Seq<u8>>,
    pub persist: Option<(Seq<char>, Seq<u8>)>,
}

impl View for Resolution {
    type V = ResolutionView;

    open spec fn view(&self) -> ResolutionView {
        ResolutionView {
            deliver: opt_bytes_view(self.deliver),
            persist: match self.persist {
                Some(w) => Some((w.path@, bytes_view(w.payload))),
                None => None,
            },
        }
    }
}

/// The placeholder's bytes as a delivery, where one is configured.
pub open spec fn placeholder_deliveries(c: CacheView) -> Seq<Seq<u8>> {
    match c.placeholder {
        Some(p) => seq![p],
        None => Seq::empty(),
    }
}

/// The fetch that `c` schedules for the canonical key `k`.
pub open spec fn job_for(c: CacheView, k: Seq<char>) -> JobView {
    JobView {
        key: k,
        disk_path: match c.disk_dir {
            Some(d) => Some(shadow_path(d, k)),
            None => None,
        },
    }
}

/// One lookup of `raw`: the lookup of its canonical key, where it has one.
pub open spec fn lookup_step(c: CacheView, raw: Seq<char>) -> (CacheView, LookupView) {
    lookup_key_step(c, parsed_url(raw))
}

/// One lookup of the canonical key `key` (`None`: the raw key was invalid):
/// the next state, and the answer. The placeholder goes first and
/// unconditionally; an invalid key stops there; a stored payload follows it;
/// otherwise a fetch is scheduled unless one is in flight.
pub open spec fn lookup_key_step(c: CacheView, key: Option<Seq<char>>) -> (CacheView, LookupView) {
    let pre = placeholder_deliveries(c);
    match key {
        None => (c, LookupView { status: StatusView::InvalidKey, deliveries: pre }),
        Some(k) => if c.store.contains_key(k) {
            (c, LookupView { status: StatusView::Hit, deliveries: pre.push(c.store[k]) })
        } else if c.in_flight.contains(k) {
            (c, LookupView { status: StatusView::InFlight, deliveries: pre })
        } else {
            (
                CacheView { in_flight: c.in_flight.insert(k), ..c },
                LookupView { status: StatusView::Scheduled(job_for(c, k)), deliveries: pre },
            )
        },
    }
}

/// Resolving `job` with `outcome`: the key leaves the in-flight registry
/// either way; a resolved payload is stored, delivered, and persisted where
/// it came from the network and the job has a shadow file.
pub open spec fn resolve_step(c: CacheView, job: JobView, outcome: OutcomeView) -> (
    CacheView,
    ResolutionView,
) {
    match outcome {
        OutcomeView::Resolved { source, payload } => (
            CacheView {
                store: c.store.insert(job.key, payload),
                in_flight: c.in_flight.remove(job.key),
                ..c
            },
            ResolutionView {
                deliver: Some(payload),
                persist: match job.disk_path {
                    Some(path) => if source == Source::Network {
                        Some((path, payload))
                    } else {
                        None
                    },
                    None => None,
                },
            },
        ),
        OutcomeView::Failed => (
            CacheView { in_flight: c.in_flight.remove(job.key), ..c },
            ResolutionView { deliver: None, persist: None },
        ),
    }
}

/// A content cache keyed by URL.
pub struct AsyncCache {
    map: ResultStore,
    config: CacheConfig,
    fetching: InFlight,
}

impl View for AsyncCache {
    type V = CacheView;

    closed spec fn view(&self) -> CacheView {
        CacheView {
            store: store_view(self.map),
            in_flight: in_flight_view(self.fetching),
            placeholder: opt_bytes_view(self.config.placeholder),
            disk_dir: opt_string_view(self.config.local_cache_path),
            alive_time: self.config.alive_time,
        }
    }
}

impl Default for AsyncCache {
    fn default() -> (r: Self)
        ensures
            r@.store.dom() == Set::<Seq<char>>::empty(),
            r@.in_flight == Set::<Seq<char>>::empty(),
            r@.placeholder.is_none(),
            r@.disk_dir.is_none(),
            r@.alive_time.is_none(),
    {
        Self::new()
    }
}

impl AsyncCache {
    /// An empty cache with no placeholder and no disk store.
    pub fn new() -> (r: Self)
        ensures
            r@.store.dom() == Set::<Seq<char>>::empty(),
            r@.in_flight == Set::<Seq<char>>::empty(),
            r@.placeholder.is_none(),
            r@.disk_dir.is_none(),
            r@.alive_time.is_none(),
    {
        Self::with_config(CacheConfig::default(), false)
    }

    /// An empty cache set up by `config`. `dir_ready` tells whether the
    /// directory of `config.local_cache_path` exists; where it does not, the
    /// disk store stays disabled for the life of the cache.
    pub fn with_config(config: CacheConfig, dir_ready: bool) -> (r: Self)
        ensures
            r@.store.dom() == Set::<Seq<char>>::empty(),
            r@.in_flight == Set::<Seq<char>>::empty(),
            r@.placeholder == opt_bytes_view(config.placeholder),
            r@.disk_dir == (if dir_ready {
                opt_string_view(config.local_cache_path)
            } else {
                None
            }),
            r@.alive_time == config.alive_time,
    {
        let mut config = config;
        if !dir_ready {
            config.local_cache_path = None;
        }
        AsyncCache {
            map: new_store(Xxh3Builder::new()),
            config,
            fetching: new_in_flight(Xxh3Builder::new()),
        }
    }

    /// The fetch for the canonical key `key`.
    fn fetch(&self, key: &String) -> (r: FetchJob)
        ensures
            r@ == job_for(self@, key@),
    {
        let disk_path = match &self.config.local_cache_path {
            Some(dir) => Some(path_for(dir.as_str(), key.as_str())),
            None => None,
        };
        FetchJob { key: key.clone(), disk_path }
    }

    /// Handles a request for `url`: the placeholder (if any) comes first in
    /// the deliveries, then, for a stored key, the stored payload. A new miss
    /// marks the key in flight and hands back the fetch to perform.
    pub fn url(&mut self, url: &str) -> (r: Lookup)
        ensures
            (final(self)@, r@) == lookup_step(old(self)@, url@),
    {
        let key = normalize(url);
        self.lookup_key(key)
    }

    /// Handles a request whose raw key normalized to `key`, as `url` does
    /// after normalization.
    pub fn lookup_key(&mut self, key: Result<String, InvalidKey>) -> (r: Lookup)
        ensures
            (final(self)@, r@) == lookup_key_step(
                old(self)@,
                match key {
                    Ok(k) => Some(k@),
                    Err(_) => None,
                },
            ),
    {
        let mut deliveries: Vec<Bytes> = Vec::new();
        match &self.config.placeholder {
            Some(p) => deliveries.push(p.clone()),
            None => {},
        }
        proof {
            assert(payloads_view(deliveries@) =~= placeholder_deliveries(self@));
        }
        let key = match key {
            Ok(k) => k,
            Err(_) => {
                return Lookup { status: LookupStatus::InvalidKey, deliveries };
            },
        };
        match store_get(&self.map, key.as_str()) {
            Some(b) => {
                let ghost before = deliveries@;
                deliveries.push(b);
                proof {
                    assert(payloads_view(deliveries@) =~= payloads_view(before).push(
                        bytes_view(b),
                    ));
                }
                return Lookup { status: LookupStatus::Hit, deliveries };
            },
            None => {},
        }
        let job = self.fetch(&key);
        let ghost c0 = self@;
        if in_flight_insert(&mut self.fetching, key) {
            Lookup { status: LookupStatus::Scheduled(job), deliveries }
        } else {
            assert(self@.in_flight =~= c0.in_flight);
            Lookup { status: LookupStatus::InFlight, deliveries }
        }
    }

    /// Applies the outcome of the race that `job` ran: releases the key and,
    /// on success, stores the payload and says where to send and persist it.
    pub fn resolve(&mut self, job: FetchJob, outcome: Outcome) -> (r: Resolution)
        ensures
            (final(self)@, r@) == resolve_step(old(self)@, job@, outcome@),
    {
        in_flight_remove(&mut self.fetching, job.key.as_str());
        match outcome {
            Outcome::Resolved { source, payload } => {
                store_insert(&mut self.map, job.key, payload.clone());
                let persist = match job.disk_path {
                    Some(path) => match source {
                        Source::Network => Some(ShadowWrite { path, payload: payload.clone() }),
                        Source::Disk => None,
                    },
                    None => None,
                };
                Resolution { deliver: Some(payload), persist }
            },
            Outcome::Failed => Resolution { deliver: None, persist: None },
        }
    }

    /// The stored payload of the canonical key `key`.
    pub fn get(&self, key: &str) -> (r: Option<Bytes>)
        ensures
            opt_bytes_view(r) == (if self@.store.contains_key(key@) {
                Some(self@.store[key@])
            } else {
                None
            }),
    {
        store_get(&self.map, key)
    }

    /// Whether a fetch for the canonical key `key` is under way.
    pub fn is_fetching(&self, key: &str) -> (r: bool)
        ensures
            r == self@.in_flight.contains(key@),
    {
        in_flight_contains(&self.fetching, key)
    }
}

} // verus!
