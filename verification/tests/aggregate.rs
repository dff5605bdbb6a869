use config_resolve::record::ParsedConfig;
use config_resolve::resolve::ResolvedConfig;
use std::collections::HashSet;

fn to_set(v: Vec<String>) -> HashSet<String> {
    v.into_iter().collect()
}

fn set_of(items: &[&str]) -> HashSet<String> {
    items.iter().map(|s| s.to_string()).collect()
}

#[test]
fn aggregate_includes_empty_config() {
    assert_eq!(
        to_set(ResolvedConfig::aggregate_includes(&ParsedConfig {
            ..Default::default()
        })),
        set_of(&["../match/**/*.yml"])
    );
}

#[test]
fn aggregate_includes_no_standard() {
    assert_eq!(
        to_set(ResolvedConfig::aggregate_includes(&ParsedConfig {
            use_standard_includes: Some(false),
            ..Default::default()
        })),
        HashSet::new()
    );
}

#[test]
fn aggregate_includes_custom_includes() {
    assert_eq!(
        to_set(ResolvedConfig::aggregate_includes(&ParsedConfig {
            includes: Some(vec!["custom/*.yml".to_string()]),
            ..Default::default()
        })),
        set_of(&["../match/**/*.yml", "custom/*.yml"])
    );
}

#[test]
fn aggregate_includes_extra_includes() {
    assert_eq!(
        to_set(ResolvedConfig::aggregate_includes(&ParsedConfig {
            extra_includes: Some(vec!["custom/*.yml".to_string()]),
            ..Default::default()
        })),
        set_of(&["../match/**/*.yml", "custom/*.yml"])
    );
}

#[test]
fn aggregate_includes_includes_and_extra_includes() {
    assert_eq!(
        to_set(ResolvedConfig::aggregate_includes(&ParsedConfig {
            includes: Some(vec!["sub/*.yml".to_string()]),
            extra_includes: Some(vec!["custom/*.yml".to_string()]),
            ..Default::default()
        })),
        set_of(&["../match/**/*.yml", "custom/*.yml", "sub/*.yml"])
    );
}

#[test]
fn aggregate_excludes_empty_config() {
    assert_eq!(
        to_set(ResolvedConfig::aggregate_excludes(&ParsedConfig {
            ..Default::default()
        })),
        set_of(&["../match/**/_*.yml"])
    );
}

#[test]
fn aggregate_excludes_no_standard() {
    assert_eq!(
        to_set(ResolvedConfig::aggregate_excludes(&ParsedConfig {
            use_standard_includes: Some(false),
            ..Default::default()
        })),
        HashSet::new()
    );
}

#[test]
fn aggregate_excludes_custom_excludes() {
    assert_eq!(
        to_set(ResolvedConfig::aggregate_excludes(&ParsedConfig {
            excludes: Some(vec!["custom/*.yml".to_string()]),
            ..Default::default()
        })),
        set_of(&["../match/**/_*.yml", "custom/*.yml"])
    );
}

#[test]
fn aggregate_excludes_extra_excludes() {
    assert_eq!(
        to_set(ResolvedConfig::aggregate_excludes(&ParsedConfig {
            extra_excludes: Some(vec!["custom/*.yml".to_string()]),
            ..Default::default()
        })),
        set_of(&["../match/**/_*.yml", "custom/*.yml"])
    );
}

#[test]
fn aggregate_excludes_excludes_and_extra_excludes() {
    assert_eq!(
        to_set(ResolvedConfig::aggregate_excludes(&ParsedConfig {
            excludes: Some(vec!["sub/*.yml".to_string()]),
            extra_excludes: Some(vec!["custom/*.yml".to_string()]),
            ..Default::default()
        })),
        set_of(&["../match/**/_*.yml", "custom/*.yml", "sub/*.yml"])
    );
}

#[test]
fn aggregate_includes_extra_present_without_standard() {
    assert_eq!(
        to_set(ResolvedConfig::aggregate_includes(&ParsedConfig {
            use_standard_includes: Some(false),
            extra_includes: Some(vec!["custom/*.yml".to_string()]),
            ..Default::default()
        })),
        set_of(&["custom/*.yml"])
    );
}

#[test]
fn aggregate_excludes_extra_present_without_standard() {
    assert_eq!(
        to_set(ResolvedConfig::aggregate_excludes(&ParsedConfig {
            use_standard_includes: Some(false),
            extra_excludes: Some(vec!["custom/*.yml".to_string()]),
            ..Default::default()
        })),
        set_of(&["custom/*.yml"])
    );
}

#[test]
fn aggregate_includes_duplicates_collapse() {
    assert_eq!(
        to_set(ResolvedConfig::aggregate_includes(&ParsedConfig {
            includes: Some(vec![
                "../match/**/*.yml".to_string(),
                "custom/*.yml".to_string(),
                "custom/*.yml".to_string(),
            ]),
            extra_includes: Some(vec!["custom/*.yml".to_string()]),
            ..Default::default()
        })),
        set_of(&["../match/**/*.yml", "custom/*.yml"])
    );
}
