use hassha::matcher::{matches_pattern, matches_single_pattern};

#[test]
fn test_matches_pattern() {
    // Exact match
    assert!(matches_pattern("Bash", "Bash"));
    assert!(!matches_pattern("Bash", "Write"));

    // Pipe-separated
    assert!(matches_pattern("Bash|Write", "Bash"));
    assert!(matches_pattern("Bash|Write", "Write"));
    assert!(!matches_pattern("Bash|Write", "Read"));

    // Wildcard
    assert!(matches_pattern("*", "Bash"));
    assert!(matches_pattern("*", "anything"));

    // Prefix with .*
    assert!(matches_pattern("mcp__.*", "mcp__memory__create"));
    assert!(matches_pattern("mcp__.*", "mcp__github__search"));
    assert!(!matches_pattern("mcp__.*", "Bash"));

    // Combined
    assert!(matches_pattern("Bash|mcp__.*", "Bash"));
    assert!(matches_pattern("Bash|mcp__.*", "mcp__test__tool"));
}

#[test]
fn test_alternatives_are_trimmed() {
    assert!(matches_pattern("Bash | Write", "Bash"));
    assert!(matches_pattern("Bash | Write", "Write"));
    assert!(!matches_pattern("Bash | Write", "Read"));
    assert!(matches_pattern(" mcp__.* | Bash", "mcp__memory__create"));
}

#[test]
fn test_star_is_exact_inside_alternatives() {
    // `*` is a wildcard only as the whole pattern; inside alternatives it is
    // an exact pattern.
    assert!(!matches_pattern("Bash|*", "Read"));
    assert!(matches_pattern("Bash|*", "*"));
}

#[test]
fn test_single_pattern_rules() {
    assert!(matches_single_pattern("Bash", "Bash"));
    assert!(!matches_single_pattern("Bash", "bash"));
    assert!(matches_single_pattern("mcp__.*", "mcp__anything"));
    assert!(matches_single_pattern("mcp__.*", "mcp__"));
    assert!(!matches_single_pattern("mcp__.*", "mcp_"));
    // a lone `.*` prefix-matches everything
    assert!(matches_single_pattern(".*", ""));
    assert!(matches_single_pattern(".*", "xyz"));
}

#[test]
fn test_empty_pattern_and_value() {
    assert!(matches_pattern("", ""));
    assert!(!matches_pattern("", "Bash"));
    assert!(!matches_pattern("Bash", ""));
    // matcher with empty alternative matches the empty value
    assert!(matches_pattern("Bash|", ""));
}
