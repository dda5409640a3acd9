use hypo::registry::cache::{
    conditional_headers, entry_from_headers, get_cache_entry, parse_snapshot_version, set_cache_entry,
    CacheEntry, HttpCacheIndex,
};

fn entry(etag: Option<&str>, lm: Option<&str>, at: u64) -> CacheEntry {
    CacheEntry { etag: etag.map(|s| s.to_string()), last_modified: lm.map(|s| s.to_string()), cached_at: at }
}

#[test]
fn test_cache_entry_roundtrip() {
    let entry = entry(Some("\"abc123\""), Some("Mon, 01 Jan 2024 00:00:00 GMT"), 1704067200);
    assert_eq!(entry.etag.as_deref(), Some("\"abc123\""));
    assert_eq!(entry.cached_at, 1704067200);
}

#[test]
fn test_snapshot_version_default() {
    assert_eq!(parse_snapshot_version(""), None);
    assert_eq!(parse_snapshot_version(" 42\n"), Some(42));
    assert_eq!(parse_snapshot_version("+7"), Some(7));
    assert_eq!(parse_snapshot_version("18446744073709551615"), Some(u64::MAX));
    assert_eq!(parse_snapshot_version("18446744073709551616"), None);
    assert_eq!(parse_snapshot_version("-1"), None);
    assert_eq!(parse_snapshot_version("1 2"), None);
}

#[test]
fn cache_index_get_and_set() {
    let mut index = HttpCacheIndex::new();
    assert!(get_cache_entry(&index, "https://a").is_none());
    set_cache_entry(&mut index, "https://a", entry(Some("e1"), None, 5));
    set_cache_entry(&mut index, "https://a", entry(Some("e2"), None, 6));
    let got = get_cache_entry(&index, "https://a").unwrap();
    assert_eq!(got.etag.as_deref(), Some("e2"));
    assert_eq!(got.cached_at, 6);
    assert_eq!(index.entries.len(), 1);
}

#[test]
fn cache_index_keeps_the_newest_entries() {
    let mut index = HttpCacheIndex::new();
    for i in 0..500u64 {
        set_cache_entry(&mut index, &format!("https://x/{i}"), entry(None, None, 1000 + i));
    }
    assert_eq!(index.entries.len(), 500);
    set_cache_entry(&mut index, "https://x/new", entry(None, None, 5000));
    assert_eq!(index.entries.len(), 400);
    assert!(get_cache_entry(&index, "https://x/new").is_some());
    assert!(get_cache_entry(&index, "https://x/499").is_some());
    assert!(get_cache_entry(&index, "https://x/101").is_some());
    assert!(get_cache_entry(&index, "https://x/100").is_none());
    assert!(get_cache_entry(&index, "https://x/0").is_none());
}

#[test]
fn conditional_request_headers() {
    assert!(conditional_headers(&None).is_empty());
    let h = conditional_headers(&Some(entry(Some("\"t\""), Some("Mon"), 1)));
    assert_eq!(
        h,
        vec![
            ("If-None-Match".to_string(), "\"t\"".to_string()),
            ("If-Modified-Since".to_string(), "Mon".to_string()),
        ]
    );
    let h = conditional_headers(&Some(entry(None, Some("Tue"), 1)));
    assert_eq!(h, vec![("If-Modified-Since".to_string(), "Tue".to_string())]);
}

#[test]
fn entries_only_from_caching_headers() {
    assert!(entry_from_headers(None, None).is_none());
    let e = entry_from_headers(Some("x".into()), None).unwrap();
    assert_eq!(e.etag.as_deref(), Some("x"));
    assert_eq!(e.last_modified, None);
    assert!(e.cached_at > 1_600_000_000);
}
