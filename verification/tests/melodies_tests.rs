use hassha::melodies::MelodyRegistry;

#[test]
fn test_registry_lookup() {
    let registry = MelodyRegistry::new();

    // Yamanote Line
    let melody = registry.get("JY-Tokyo").unwrap();
    assert_eq!(melody.station, "Tokyo");
    assert_eq!(melody.line, "JY");

    // Keihin-Tohoku Line
    let melody = registry.get("JK-Akihabara").unwrap();
    assert_eq!(melody.melody_name, "Beyond the Line");

    // Sobu Line
    let melody = registry.get("JB-Ochanomizu").unwrap();
    assert_eq!(melody.melody_name, "SH-6");

    // Saikyo Line
    let melody = registry.get("JA-Osaki").unwrap();
    assert_eq!(melody.melody_name, "Twinkling Skyline");

    // Ueno-Tokyo Line
    let melody = registry.get("JU-Tokyo").unwrap();
    assert_eq!(melody.melody_name, "Bell A");

    // Narita Express
    let melody = registry.get("NEX-Shinjuku").unwrap();
    assert_eq!(melody.melody_name, "Beautiful Hill");

    // Case-insensitive
    let melody = registry.get("jy-tokyo").unwrap();
    assert_eq!(melody.station, "Tokyo");

    // Not found
    assert!(registry.get("XX-Unknown").is_none());
}

#[test]
fn test_melody_url() {
    let registry = MelodyRegistry::new();
    let melody = &registry.all()[0]; // JY-Tokyo
    assert_eq!(melody.url(), "https://yamanot.es/audio/sh3.mp3");
}

#[test]
fn test_lookup_case_insensitive_everywhere() {
    let registry = MelodyRegistry::new();
    for melody in registry.all() {
        let id = melody.id.clone();
        let lower = id.to_lowercase();
        let upper = id.to_uppercase();
        assert_eq!(registry.get(&id).unwrap().id, id);
        assert_eq!(registry.get(&lower).unwrap().id, id);
        assert_eq!(registry.get(&upper).unwrap().id, id);
    }
}

#[test]
fn test_registry_size_and_all() {
    let registry = MelodyRegistry::new();
    assert_eq!(registry.all().len(), 63);
    // every id resolves to its own record
    let shibuya = registry.get("JY-Shibuya").unwrap();
    assert_eq!(shibuya.station, "Shibuya");
    assert_eq!(shibuya.filename, "hananohorokobi.mp3");
    assert_eq!(shibuya.url(), "https://yamanot.es/audio/hananohorokobi.mp3");
}

#[test]
fn test_default_registry() {
    let registry = MelodyRegistry::default();
    assert!(registry.get("JY-Tokyo").is_some());
}
