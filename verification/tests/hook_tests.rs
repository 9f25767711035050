use hassha::cache::{resolve_melody_path, ResolveOutcome};
use hassha::config::{HasshaConfig, HookConfig, FULL_VOLUME};
use hassha::history::{add_history_entry, History, HistoryEntry};
use hassha::hook::{get_matcher_value, handle_hook, HookDecision, HookInput};
use hassha::melodies::MelodyRegistry;

fn input(cwd: &str, event: &str) -> HookInput {
    HookInput {
        cwd: cwd.to_string(),
        hook_event_name: event.to_string(),
        session_id: None,
        tool_name: None,
        source: None,
        notification_type: None,
        agent_type: None,
        reason: None,
        trigger: None,
    }
}

fn config_with(event: &str, melody: &str, volume: u32, matcher: Option<&str>) -> HasshaConfig {
    HasshaConfig {
        hooks: vec![(
            event.to_string(),
            HookConfig {
                melody: melody.to_string(),
                volume,
                matcher: matcher.map(|m| m.to_string()),
            },
        )],
    }
}

#[test]
fn test_dispatch_plays_configured_melody() {
    // a Stop event with a rule for Stop: resolve the melody through the
    // registry, plan its download, play at full volume, append one history
    // entry
    let payload = input("/home/user/project", "Stop");
    let config = config_with("Stop", "JY-Shibuya", FULL_VOLUME, None);

    let decision = handle_hook("Stop", &payload, Some(&config));
    let (melody, volume, tool_name, matcher) = match decision {
        HookDecision::Play { melody, volume, tool_name, matcher } => {
            (melody, volume, tool_name, matcher)
        },
        HookDecision::Silent => panic!("expected a playback"),
    };
    assert_eq!(melody, "JY-Shibuya");
    assert_eq!(volume, FULL_VOLUME);
    assert_eq!(tool_name, None);
    assert_eq!(matcher, None);

    let registry = MelodyRegistry::new();
    let existing: Vec<String> = Vec::new();
    let resolved = resolve_melody_path(&melody, "/cache", &registry, &existing);
    match resolved {
        ResolveOutcome::Download { url, cache_path } => {
            assert_eq!(url, "https://yamanot.es/audio/hananohorokobi.mp3");
            assert_eq!(cache_path, "/cache/hananohorokobi.mp3");
        },
        _ => panic!("expected a download"),
    }

    let mut history = History::default();
    add_history_entry(
        &mut history,
        HistoryEntry {
            timestamp: "2024-01-15T10:30:00Z".to_string(),
            event: "Stop".to_string(),
            melody,
            project_dir: payload.cwd.clone(),
            tool_name,
            matcher,
        },
    );
    assert_eq!(history.entries.len(), 1);
    assert_eq!(history.entries[0].event, "Stop");
    assert_eq!(history.entries[0].melody, "JY-Shibuya");
}

#[test]
fn test_dispatch_without_rule_is_silent() {
    // the event name has no rule in the config: no side effects
    let payload = input("/home/user/project", "Deploy");
    let config = config_with("Stop", "JY-Shibuya", FULL_VOLUME, None);
    let decision = handle_hook("Deploy", &payload, Some(&config));
    assert!(matches!(decision, HookDecision::Silent));
}

#[test]
fn test_dispatch_without_config_is_silent() {
    let payload = input("/home/user/project", "Stop");
    let decision = handle_hook("Stop", &payload, None);
    assert!(matches!(decision, HookDecision::Silent));
}

#[test]
fn test_dispatch_matcher_rejects() {
    // the rule's matcher is "Bash|Write" and the payload's discriminant
    // field is "Read": no playback, no history append
    let mut payload = input("/home/user/project", "PostToolUse");
    payload.tool_name = Some("Read".to_string());
    let config = config_with("PostToolUse", "JY-Tokyo", FULL_VOLUME, Some("Bash|Write"));
    let decision = handle_hook("PostToolUse", &payload, Some(&config));
    assert!(matches!(decision, HookDecision::Silent));
}

#[test]
fn test_dispatch_matcher_accepts() {
    let mut payload = input("/home/user/project", "PostToolUse");
    payload.tool_name = Some("Bash".to_string());
    let config = config_with("PostToolUse", "JY-Tokyo", 500, Some("Bash|Write"));
    let decision = handle_hook("PostToolUse", &payload, Some(&config));
    match decision {
        HookDecision::Play { melody, volume, tool_name, matcher } => {
            assert_eq!(melody, "JY-Tokyo");
            assert_eq!(volume, 500);
            assert_eq!(tool_name, Some("Bash".to_string()));
            assert_eq!(matcher, Some("Bash|Write".to_string()));
        },
        HookDecision::Silent => panic!("expected a playback"),
    }
}

#[test]
fn test_dispatch_missing_file_reference_fails() {
    // the rule names a local file that does not exist: the dispatch decides
    // to play, and resolution then fails, so nothing is appended
    let payload = input("/home/user/project", "Stop");
    let config = config_with("Stop", "/tmp/missing.mp3", FULL_VOLUME, None);
    let decision = handle_hook("Stop", &payload, Some(&config));
    let melody = match decision {
        HookDecision::Play { melody, .. } => melody,
        HookDecision::Silent => panic!("expected a playback decision"),
    };
    let registry = MelodyRegistry::new();
    let existing: Vec<String> = Vec::new();
    let resolved = resolve_melody_path(&melody, "/cache", &registry, &existing);
    assert!(matches!(resolved, ResolveOutcome::NotFound));
}

#[test]
fn test_matcher_value_selection() {
    let mut payload = input("/p", "SessionStart");
    payload.tool_name = Some("Bash".to_string());
    payload.source = Some("startup".to_string());
    payload.reason = Some("logout".to_string());
    payload.notification_type = Some("permission".to_string());
    payload.agent_type = Some("researcher".to_string());
    payload.trigger = Some("manual".to_string());

    assert_eq!(get_matcher_value("PreToolUse", &payload), Some("Bash".to_string()));
    assert_eq!(get_matcher_value("PostToolUse", &payload), Some("Bash".to_string()));
    assert_eq!(get_matcher_value("PostToolUseFailure", &payload), Some("Bash".to_string()));
    assert_eq!(get_matcher_value("PermissionRequest", &payload), Some("Bash".to_string()));
    assert_eq!(get_matcher_value("SessionStart", &payload), Some("startup".to_string()));
    assert_eq!(get_matcher_value("SessionEnd", &payload), Some("logout".to_string()));
    assert_eq!(get_matcher_value("Notification", &payload), Some("permission".to_string()));
    assert_eq!(get_matcher_value("SubagentStart", &payload), Some("researcher".to_string()));
    assert_eq!(get_matcher_value("SubagentStop", &payload), Some("researcher".to_string()));
    assert_eq!(get_matcher_value("PreCompact", &payload), Some("manual".to_string()));
    assert_eq!(get_matcher_value("Stop", &payload), None);
    assert_eq!(get_matcher_value("UserPromptSubmit", &payload), None);
}

#[test]
fn test_matcher_with_absent_field_gets_empty_value() {
    // Stop supports no matcher field: the value is empty, so only patterns
    // matching the empty string let the dispatch through
    let payload = input("/p", "Stop");
    let star = config_with("Stop", "JY-Tokyo", FULL_VOLUME, Some("*"));
    assert!(matches!(handle_hook("Stop", &payload, Some(&star)), HookDecision::Play { .. }));
    let exact = config_with("Stop", "JY-Tokyo", FULL_VOLUME, Some("Bash"));
    assert!(matches!(handle_hook("Stop", &payload, Some(&exact)), HookDecision::Silent));
}
