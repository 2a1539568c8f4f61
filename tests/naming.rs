use async_cache::disk::{join_file, path_for};
use async_cache::key::{normalize, InvalidKey};
use xxhash_rust::xxh3::xxh3_64;

#[test]
fn normalize_rejects_non_urls() {
    assert_eq!(normalize("not a url"), Err(InvalidKey));
    assert_eq!(normalize(""), Err(InvalidKey));
    assert_eq!(normalize("/relative/path"), Err(InvalidKey));
}

#[test]
fn normalize_gives_the_canonical_form() {
    assert_eq!(normalize("https://example.com"), Ok(String::from("https://example.com/")));
    assert_eq!(normalize("HTTPS://Example.COM/a/../b"), Ok(String::from("https://example.com/b")));
}

#[test]
fn path_for_empty_key_uses_known_hash() {
    assert_eq!(path_for("cache", ""), "cache/3244421341483603138");
}

#[test]
fn path_for_joins_directory_and_decimal_hash() {
    let key = "https://example.com/";
    let expected = format!("/tmp/cache/{}", xxh3_64(key.as_bytes()));
    assert_eq!(path_for("/tmp/cache", key), expected);
    assert_eq!(path_for("/tmp/cache/", key), expected);
    assert_eq!(path_for("", key), xxh3_64(key.as_bytes()).to_string());
}

#[test]
fn path_for_is_deterministic_and_tells_keys_apart() {
    let a = path_for("d", "https://a.example/");
    let b = path_for("d", "https://b.example/");
    assert_eq!(a, path_for("d", "https://a.example/"));
    assert_ne!(a, b);
}

#[test]
fn join_file_inserts_one_separator() {
    assert_eq!(join_file("/var/cache", "42"), "/var/cache/42");
    assert_eq!(join_file("/var/cache/", "42"), "/var/cache/42");
    assert_eq!(join_file("", "42"), "42");
}

#[test]
fn path_for_writes_large_hashes_in_full() {
    let key = "https://example.com/a";
    let hash = xxh3_64(key.as_bytes());
    assert_eq!(path_for("d", key), format!("d/{hash}"));
    assert_eq!(path_for("d", "x"), "d/16929150178197425425");
}
