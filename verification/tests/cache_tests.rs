use hassha::cache::{
    cache_path_for_url, get_cached, prefetch_all, resolve_melody_path, u64_to_hex, ResolveOutcome,
};
use hassha::melodies::MelodyRegistry;

#[test]
fn test_cache_path_uses_url_segment() {
    let p = cache_path_for_url("https://yamanot.es/audio/sh3.mp3", "/home/u/.hassha/audio");
    assert_eq!(p, "/home/u/.hassha/audio/sh3.mp3");
}

#[test]
fn test_cache_path_hashes_bad_segments() {
    // no `.` in the last segment: the name is a hash with an `.mp3` suffix
    let p = cache_path_for_url("https://example.com/noext", "/cache");
    assert!(p.starts_with("/cache/"));
    assert!(p.ends_with(".mp3"));
    assert_ne!(p, "/cache/noext");
    // empty last segment: the same fallback
    let q = cache_path_for_url("https://example.com/", "/cache");
    assert!(q.starts_with("/cache/"));
    assert!(q.ends_with(".mp3"));
    // the name is deterministic and depends on the URL
    assert_eq!(p, cache_path_for_url("https://example.com/noext", "/cache"));
    assert_ne!(p, q);
}

#[test]
fn test_hex_rendering() {
    assert_eq!(u64_to_hex(0), "0");
    assert_eq!(u64_to_hex(10), "a");
    assert_eq!(u64_to_hex(255), "ff");
    assert_eq!(u64_to_hex(3735928559), "deadbeef");
    assert_eq!(u64_to_hex(18446744073709551615), "ffffffffffffffff");
}

#[test]
fn test_get_cached() {
    let existing = vec!["/cache/sh3.mp3".to_string()];
    let hit = get_cached("https://yamanot.es/audio/sh3.mp3", "/cache", &existing);
    assert_eq!(hit, Some("/cache/sh3.mp3".to_string()));
    let miss = get_cached("https://yamanot.es/audio/bellb.mp3", "/cache", &existing);
    assert_eq!(miss, None);
}

#[test]
fn test_resolve_registry_id_cache_miss_then_hit() {
    let registry = MelodyRegistry::new();
    let mut existing: Vec<String> = Vec::new();

    // first resolution: a download is needed
    let first = resolve_melody_path("JY-Tokyo", "/cache", &registry, &existing);
    let (url, cache_path) = match first {
        ResolveOutcome::Download { url, cache_path } => (url, cache_path),
        _ => panic!("expected a download"),
    };
    assert_eq!(url, "https://yamanot.es/audio/sh3.mp3");
    assert_eq!(cache_path, "/cache/sh3.mp3");

    // after the file is stored, the same reference resolves to the same
    // path with no further download
    existing.push(cache_path.clone());
    let second = resolve_melody_path("JY-Tokyo", "/cache", &registry, &existing);
    match second {
        ResolveOutcome::Resolved(p) => assert_eq!(p, cache_path),
        _ => panic!("expected a cache hit"),
    }
}

#[test]
fn test_resolve_direct_url() {
    let registry = MelodyRegistry::new();
    let existing: Vec<String> = Vec::new();
    let r = resolve_melody_path("https://example.com/custom.mp3", "/cache", &registry, &existing);
    match r {
        ResolveOutcome::Download { url, cache_path } => {
            assert_eq!(url, "https://example.com/custom.mp3");
            assert_eq!(cache_path, "/cache/custom.mp3");
        },
        _ => panic!("expected a download"),
    }
}

#[test]
fn test_resolve_local_path() {
    let registry = MelodyRegistry::new();
    let existing = vec!["/sounds/ding.mp3".to_string()];
    let r = resolve_melody_path("/sounds/ding.mp3", "/cache", &registry, &existing);
    match r {
        ResolveOutcome::Resolved(p) => assert_eq!(p, "/sounds/ding.mp3"),
        _ => panic!("expected the local path"),
    }
}

#[test]
fn test_resolve_missing_local_path_fails() {
    let registry = MelodyRegistry::new();
    let existing: Vec<String> = Vec::new();
    let r = resolve_melody_path("/tmp/missing.mp3", "/cache", &registry, &existing);
    assert!(matches!(r, ResolveOutcome::NotFound));
}

#[test]
fn test_prefetch_all_plans_every_melody() {
    let registry = MelodyRegistry::new();
    let existing = vec!["/cache/sh3.mp3".to_string()];
    let plans = prefetch_all(&registry, "/cache", &existing);
    assert_eq!(plans.len(), registry.all().len());
    assert_eq!(plans[0].0, "JY-Tokyo");
    match &plans[0].1 {
        ResolveOutcome::Resolved(p) => assert_eq!(p, "/cache/sh3.mp3"),
        _ => panic!("expected a cache hit for the stored file"),
    }
    // an uncached melody is planned as a download; one entry's state never
    // affects another's
    let ueno = plans.iter().find(|(id, _)| id.as_str() == "JY-Ueno").unwrap();
    match &ueno.1 {
        ResolveOutcome::Download { url, cache_path } => {
            assert_eq!(url, "https://yamanot.es/audio/bellb.mp3");
            assert_eq!(cache_path, "/cache/bellb.mp3");
        },
        _ => panic!("expected a download"),
    }
}
