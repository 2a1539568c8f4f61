use async_cache::cache::{AsyncCache, CacheConfig, FetchJob, Lookup, LookupStatus};
use async_cache::disk::path_for;
use async_cache::key::InvalidKey;
use async_cache::race::{Outcome, Race, Source};
use bytes::Bytes;

const KEY: &str = "https://example.com/image.png";

fn placeholder() -> Bytes {
    Bytes::from_static(b"placeholder")
}

fn with_placeholder() -> AsyncCache {
    let config = CacheConfig {
        placeholder: Some(placeholder()),
        ..CacheConfig::default()
    };
    AsyncCache::with_config(config, false)
}

fn with_disk(dir: &str) -> AsyncCache {
    let config = CacheConfig {
        local_cache_path: Some(String::from(dir)),
        ..CacheConfig::default()
    };
    AsyncCache::with_config(config, true)
}

fn scheduled(lookup: Lookup) -> FetchJob {
    match lookup.status {
        LookupStatus::Scheduled(job) => job,
        _ => panic!("no fetch was scheduled"),
    }
}

fn resolved(source: Source, payload: &'static [u8]) -> Outcome {
    Outcome::Resolved { source, payload: Bytes::from_static(payload) }
}

#[test]
fn miss_schedules_a_fetch_and_marks_the_key() {
    let mut cache = AsyncCache::new();
    let lookup = cache.url(KEY);
    assert!(lookup.deliveries.is_empty());
    let job = scheduled(lookup);
    assert_eq!(job.key, KEY);
    assert_eq!(job.disk_path, None);
    assert!(cache.is_fetching(KEY));
    assert_eq!(cache.get(KEY), None);
}

#[test]
fn lookup_normalizes_the_key() {
    let mut cache = AsyncCache::default();
    let job = scheduled(cache.url("HTTPS://EXAMPLE.com"));
    assert_eq!(job.key, "https://example.com/");
    assert!(cache.is_fetching("https://example.com/"));
}

#[test]
fn concurrent_lookups_of_one_key_fetch_once() {
    let mut cache = with_placeholder();
    let mut fetches = 0;
    for _ in 0..8 {
        let lookup = cache.url(KEY);
        assert_eq!(lookup.deliveries, vec![placeholder()]);
        if matches!(lookup.status, LookupStatus::Scheduled(_)) {
            fetches += 1;
        } else {
            assert!(matches!(lookup.status, LookupStatus::InFlight));
        }
    }
    assert_eq!(fetches, 1);
}

#[test]
fn cached_key_is_a_hit_without_fetch() {
    let mut cache = AsyncCache::new();
    let job = scheduled(cache.url(KEY));
    let res = cache.resolve(job, resolved(Source::Network, b"image"));
    assert_eq!(res.deliver, Some(Bytes::from_static(b"image")));
    assert!(!cache.is_fetching(KEY));
    for _ in 0..3 {
        let lookup = cache.url(KEY);
        assert!(matches!(lookup.status, LookupStatus::Hit));
        assert_eq!(lookup.deliveries, vec![Bytes::from_static(b"image")]);
        assert!(!cache.is_fetching(KEY));
    }
}

#[test]
fn placeholder_comes_before_the_result() {
    let mut cache = with_placeholder();
    let lookup = cache.url(KEY);
    assert_eq!(lookup.deliveries, vec![placeholder()]);
    let job = scheduled(lookup);
    let res = cache.resolve(job, resolved(Source::Network, b"fetched"));
    assert_eq!(res.deliver, Some(Bytes::from_static(b"fetched")));
    let hit = cache.url(KEY);
    assert_eq!(hit.deliveries, vec![placeholder(), Bytes::from_static(b"fetched")]);
}

#[test]
fn disk_copy_rescues_failing_network() {
    let mut cache = with_disk("/var/cache/images");
    let job = scheduled(cache.url(KEY));
    assert_eq!(job.disk_path, Some(path_for("/var/cache/images", KEY)));
    let mut race = Race::new(job.disk_path.is_some());
    assert!(race.report(Source::Network, None).is_none());
    let outcome = race.report(Source::Disk, Some(Bytes::from_static(b"on disk"))).unwrap();
    let res = cache.resolve(job, outcome);
    assert_eq!(res.deliver, Some(Bytes::from_static(b"on disk")));
    assert!(res.persist.is_none());
    assert_eq!(cache.get(KEY), Some(Bytes::from_static(b"on disk")));
}

#[test]
fn failed_fetch_releases_the_key() {
    let mut cache = with_disk("cache");
    let job = scheduled(cache.url(KEY));
    let mut race = Race::new(true);
    assert!(race.report(Source::Disk, None).is_none());
    let outcome = race.report(Source::Network, None).unwrap();
    let res = cache.resolve(job, outcome);
    assert!(res.deliver.is_none());
    assert!(res.persist.is_none());
    assert!(!cache.is_fetching(KEY));
    assert_eq!(cache.get(KEY), None);
    let again = scheduled(cache.url(KEY));
    assert_eq!(again.key, KEY);
    assert!(cache.is_fetching(KEY));
}

#[test]
fn network_result_is_persisted_to_the_shadow_path() {
    let mut cache = with_disk("/srv/cache/");
    let job = scheduled(cache.url(KEY));
    let path = job.disk_path.clone().unwrap();
    assert_eq!(path, path_for("/srv/cache", KEY));
    let res = cache.resolve(job, resolved(Source::Network, b"payload"));
    let write = res.persist.unwrap();
    assert_eq!(write.path, path);
    assert_eq!(Some(write.payload), res.deliver);
    assert_eq!(scheduled(with_disk("/srv/cache/").url(KEY)).disk_path, Some(path));
}

#[test]
fn invalid_key_gets_only_the_placeholder() {
    let mut cache = with_placeholder();
    let lookup = cache.url("not a url");
    assert!(matches!(lookup.status, LookupStatus::InvalidKey));
    assert_eq!(lookup.deliveries, vec![placeholder()]);
    assert!(!cache.is_fetching("not a url"));

    let mut bare = AsyncCache::new();
    let lookup = bare.url("not a url");
    assert!(matches!(lookup.status, LookupStatus::InvalidKey));
    assert!(lookup.deliveries.is_empty());
}

#[test]
fn disk_store_stays_off_when_its_directory_is_missing() {
    let config = CacheConfig {
        local_cache_path: Some(String::from("/nonexistent")),
        ..CacheConfig::default()
    };
    let mut cache = AsyncCache::with_config(config, false);
    assert_eq!(scheduled(cache.url(KEY)).disk_path, None);
}

#[test]
fn later_fetch_overwrites_the_entry() {
    let mut cache = AsyncCache::new();
    let first = scheduled(cache.url(KEY));
    let job = FetchJob { key: first.key.clone(), disk_path: None };
    cache.resolve(first, resolved(Source::Network, b"one"));
    cache.resolve(job, resolved(Source::Network, b"two"));
    assert_eq!(cache.get(KEY), Some(Bytes::from_static(b"two")));
}

#[test]
fn default_config_is_empty() {
    let config = CacheConfig::default();
    assert!(config.placeholder.is_none());
    assert!(config.local_cache_path.is_none());
    assert!(config.alive_time.is_none());
}

#[test]
fn lookup_key_follows_the_normalized_key() {
    let mut cache = with_placeholder();
    let invalid = cache.lookup_key(Err(InvalidKey));
    assert!(matches!(invalid.status, LookupStatus::InvalidKey));
    assert_eq!(invalid.deliveries, vec![placeholder()]);
    let job = scheduled(cache.lookup_key(Ok(String::from(KEY))));
    assert_eq!(job.key, KEY);
    assert!(matches!(cache.lookup_key(Ok(String::from(KEY))).status, LookupStatus::InFlight));
    cache.resolve(job, resolved(Source::Network, b"img"));
    let hit = cache.lookup_key(Ok(String::from(KEY)));
    assert!(matches!(hit.status, LookupStatus::Hit));
    assert_eq!(hit.deliveries, vec![placeholder(), Bytes::from_static(b"img")]);
}
