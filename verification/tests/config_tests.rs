use hassha::config::{find_config_file, get_hook_config, HasshaConfig, HookConfig, FULL_VOLUME};

fn rule(melody: &str, volume: u32, matcher: Option<&str>) -> HookConfig {
    HookConfig {
        melody: melody.to_string(),
        volume,
        matcher: matcher.map(|m| m.to_string()),
    }
}

#[test]
fn test_get_hook_config() {
    let config = HasshaConfig {
        hooks: vec![
            ("Stop".to_string(), rule("JY-Shibuya", 800, None)),
            ("Notification".to_string(), rule("https://example.com/custom.mp3", FULL_VOLUME, None)),
            ("PostToolUse".to_string(), rule("JY-Tokyo", FULL_VOLUME, Some("Bash"))),
        ],
    };

    let stop = get_hook_config(&config, "Stop").unwrap();
    assert_eq!(stop.melody, "JY-Shibuya");
    assert_eq!(stop.volume, 800);

    let notification = get_hook_config(&config, "Notification").unwrap();
    assert_eq!(notification.melody, "https://example.com/custom.mp3");
    assert_eq!(notification.volume, FULL_VOLUME);

    let post = get_hook_config(&config, "PostToolUse").unwrap();
    assert_eq!(post.matcher, Some("Bash".to_string()));

    assert!(get_hook_config(&config, "Deploy").is_none());
}

#[test]
fn test_default_config_is_empty() {
    let config = HasshaConfig::default();
    assert!(get_hook_config(&config, "Stop").is_none());
}

#[test]
fn test_find_config_walks_upward() {
    // a config only at /a is found from /a/b/c
    let existing = vec!["/a/.hassha/config.toml".to_string()];
    let found = find_config_file("/a/b/c", &existing);
    assert_eq!(found, Some("/a/.hassha/config.toml".to_string()));
}

#[test]
fn test_find_config_prefers_nearest() {
    let existing = vec![
        "/a/.hassha/config.toml".to_string(),
        "/a/b/.hassha/config.toml".to_string(),
    ];
    let found = find_config_file("/a/b/c", &existing);
    assert_eq!(found, Some("/a/b/.hassha/config.toml".to_string()));
}

#[test]
fn test_find_config_reaches_root() {
    let existing = vec!["/.hassha/config.toml".to_string()];
    let found = find_config_file("/a/b/c", &existing);
    assert_eq!(found, Some("/.hassha/config.toml".to_string()));
}

#[test]
fn test_find_config_absent() {
    // no config anywhere in the ancestry
    let existing = vec!["/elsewhere/.hassha/config.toml".to_string()];
    assert_eq!(find_config_file("/a/b/c", &existing), None);
    assert_eq!(find_config_file("/", &Vec::new()), None);
    assert_eq!(find_config_file("relative/dir", &Vec::new()), None);
}
